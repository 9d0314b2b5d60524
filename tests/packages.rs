use devano::packages::{
    add_command_args, ensure_packages_args, missing_from_filenames, missing_packages,
    package_manager_outcome, PackageError,
};

const MANIFEST: &str = r#"{ "dependencies": { "clsx": "^2.1.1", "react-dom": "^19" } }"#;

#[test]
fn missing_package_is_the_only_one_added() {
    let names = vec!["clsx", "tailwind-merge"];
    assert_eq!(missing_packages(MANIFEST, &names), vec!["tailwind-merge"]);
    assert_eq!(ensure_packages_args(MANIFEST, &names), Some(vec!["add", "tailwind-merge"]));
}

#[test]
fn nothing_requested_runs_nothing() {
    let names: Vec<&str> = Vec::new();
    assert_eq!(ensure_packages_args(MANIFEST, &names), None);
    assert_eq!(add_command_args(&names), None);
}

#[test]
fn all_present_runs_nothing() {
    let names = vec!["clsx"];
    assert_eq!(ensure_packages_args(MANIFEST, &names), None);
}

#[test]
fn substring_counts_as_present() {
    let names = vec!["react", "zod"];
    assert_eq!(missing_packages(MANIFEST, &names), vec!["zod"]);
}

#[test]
fn every_missing_name_in_one_command() {
    let names = vec!["zod", "clsx", "tailwind-merge"];
    assert_eq!(ensure_packages_args("{}", &names), Some(vec!["add", "zod", "clsx", "tailwind-merge"]));
}

#[test]
fn names_missing_from_every_file_name() {
    let files = vec!["Button.tsx".to_string(), "cn.ts".to_string()];
    let names = vec!["Button", "cn", "Card"];
    assert_eq!(missing_from_filenames(&files, &names), vec!["Card"]);
    let none: Vec<String> = Vec::new();
    assert_eq!(missing_from_filenames(&none, &names), names);
}

#[test]
fn package_manager_failure_names_packages() {
    let missing = vec!["tailwind-merge"];
    assert_eq!(package_manager_outcome(true, &missing), Ok(()));
    assert_eq!(
        package_manager_outcome(false, &missing),
        Err(PackageError::InstallFailed { packages: vec!["tailwind-merge".to_string()] })
    );
}
