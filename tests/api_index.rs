use devano::api_index::{update_api_index, ApiIndexError};

#[test]
fn registers_module() {
    let index = "export const api = {\n};\n";
    let updated = update_api_index(index, "auth", "auth").unwrap();
    assert_eq!(updated, "import { auth } from \"./auth\";\nexport const api = {\n\tauth,\n};");
}

#[test]
fn registering_twice_changes_nothing() {
    let index = "import { x } from \"./x\";\n  export const api = {  \r\n\tx,\r\n};";
    let once = update_api_index(index, "auth", "auth").unwrap();
    assert_eq!(
        once,
        "import { auth } from \"./auth\";\nimport { x } from \"./x\";\n  export const api = {  \n\tauth,\n\tx,\n};"
    );
    assert_eq!(update_api_index(&once, "auth", "auth").unwrap(), once);
}

#[test]
fn missing_api_object_is_an_error() {
    assert_eq!(update_api_index("", "auth", "auth"), Err(ApiIndexError::MissingApiObject));
    assert_eq!(
        update_api_index("const api = {};", "auth", "auth"),
        Err(ApiIndexError::MissingApiObject)
    );
}
