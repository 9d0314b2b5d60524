use devano::scaffold::{client, project_outcome, scaffold_path, server, validate_project_name, ScaffoldError};

#[test]
fn demo_project_manifests() {
    let (client_files, client_commands) = client::make_files();
    let (server_files, server_commands) = server::make_files();
    let c = client_files.iter().find(|f| f.filename == "package.json").unwrap();
    assert_eq!(c.contents, client::PACKAGE_JSON_LITERAL);
    assert_eq!(
        scaffold_path("demo", "client", &c.folder_tree, c.filename),
        vec!["demo", "client", ".", "package.json"]
    );
    let s = server_files.iter().find(|f| f.filename == "package.json").unwrap();
    assert_eq!(s.contents, server::PACKAGE_JSON_LITERAL);
    assert_eq!(
        scaffold_path("demo", "server", &s.folder_tree, s.filename),
        vec!["demo", "server", ".", "package.json"]
    );
    assert_eq!(client_commands.len(), 1);
    assert_eq!(client_commands[0].command, "pnpm");
    assert_eq!(client_commands[0].args, vec!["install"]);
    assert_eq!(server_commands.len(), 2);
    assert_eq!(server_commands[0].command, "git");
    assert_eq!(server_commands[1].args, vec!["install"]);
}

#[test]
fn demo_project_succeeds_only_when_every_command_does() {
    assert_eq!(project_outcome(&vec![true], &vec![true, true]), Ok(()));
    assert_eq!(project_outcome(&vec![false], &vec![true, true]), Err(ScaffoldError::ClientCommandFailed));
    assert_eq!(project_outcome(&vec![true], &vec![true, false]), Err(ScaffoldError::ServerCommandFailed));
}

#[test]
fn project_name_must_not_be_empty() {
    assert_eq!(validate_project_name(""), Err(ScaffoldError::EmptyProjectName));
    assert_eq!(validate_project_name("demo"), Ok(()));
}

#[test]
fn client_has_fourteen_files() {
    let (files, _) = client::make_files();
    assert_eq!(files.len(), 14);
    let handshake = files.iter().find(|f| f.name == "api/handshake").unwrap();
    assert_eq!(
        scaffold_path("demo", "client", &handshake.folder_tree, handshake.filename),
        vec!["demo", "client", ".", "src", "devano", "api", "handshake", "index.ts"]
    );
}

#[test]
fn server_types_file_is_written_three_times_last_with_types() {
    let (files, _) = server::make_files();
    let types: Vec<_> = files.iter().filter(|f| f.filename == "types.d.ts").collect();
    assert_eq!(types.len(), 3);
    assert_eq!(types[2].contents, server::TYPES_D_TS_LITERAL);
}
