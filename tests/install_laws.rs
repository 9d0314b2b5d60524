use devano::atoms::buttons::Buttons;
use devano::atoms::icons::Icons;
use devano::atoms::inputs::Inputs;
use devano::atoms::utils::Utils;
use devano::atoms::Atoms;
use devano::features::auth_api::AuthRoutes;
use devano::features::auth_ui::AuthMolecules;
use devano::features::Features;
use devano::install::{Installable, Step, Unit};
use devano::api_index::update_api_index;
use std::collections::HashMap;

type Files = HashMap<Vec<String>, String>;

fn apply(files: &mut Files, steps: &[Step]) {
    for step in steps {
        match step {
            Step::WriteFile { path, contents } => {
                let key: Vec<String> = path.iter().map(|s| s.to_string()).collect();
                files.entry(key).or_insert_with(|| contents.to_string());
            }
            Step::RegisterApi { module_name, folder_path } => {
                let index = key(&["client", "src", "devano", "api", "index.ts"]);
                if let Some(text) = files.get(&index) {
                    if let Ok(updated) = update_api_index(text, module_name, folder_path) {
                        files.insert(index, updated);
                    }
                }
            }
            Step::EnsurePackages { .. } => {}
        }
    }
}

fn key(parts: &[&str]) -> Vec<String> {
    parts.iter().map(|s| s.to_string()).collect()
}

fn all_units() -> Vec<Unit> {
    let mut units: Vec<Unit> = Atoms::all_variants().into_iter().map(Unit::Atom).collect();
    units.extend(AuthMolecules::all().into_iter().map(Unit::Molecule));
    units.extend(AuthRoutes::all().into_iter().map(Unit::Route));
    units
}

fn destination(unit: &Unit) -> (Vec<String>, &'static str) {
    let steps = unit.own_steps();
    for step in steps {
        if let Step::WriteFile { path, contents } = step {
            return (path.iter().map(|s| s.to_string()).collect(), contents);
        }
    }
    panic!("a unit without a file");
}

#[test]
fn every_unit_writes_its_contents_at_its_destination() {
    for unit in all_units() {
        let mut files = Files::new();
        apply(&mut files, &unit.install());
        let (path, contents) = destination(&unit);
        assert_eq!(files.get(&path).map(|s| s.as_str()), Some(contents), "{:?}", unit);
    }
}

#[test]
fn cn_lands_under_utils() {
    let mut files = Files::new();
    apply(&mut files, &Atoms::Utils(Utils::Cn).install());
    let path = key(&["client", "src", "devano", "utils", "cn.ts"]);
    assert_eq!(files.get(&path).unwrap(), devano::atoms::utils::CN_LIT);
    assert_eq!(files.len(), 1);
}

#[test]
fn installing_twice_changes_nothing() {
    for unit in all_units() {
        let mut files = Files::new();
        apply(&mut files, &unit.install());
        let first = files.clone();
        apply(&mut files, &unit.install());
        assert_eq!(files, first);
    }
}

#[test]
fn dependencies_are_written_before_the_unit() {
    let steps = Atoms::Inputs(Inputs::Password).install();
    let writes: Vec<String> = steps
        .iter()
        .filter_map(|s| match s {
            Step::WriteFile { path, .. } => Some(path.last().unwrap().to_string()),
            _ => None,
        })
        .collect();
    assert_eq!(writes.last().unwrap(), "PasswordInput.tsx");
    let own = writes.iter().position(|w| w == "PasswordInput.tsx").unwrap();
    for dep in ["cn.ts", "EyeClosed.tsx", "EyeOpen.tsx", "IconButton.tsx"] {
        assert!(writes.iter().position(|w| w == dep).unwrap() < own);
    }
}

#[test]
fn every_transitive_dependency_file_exists() {
    let mut files = Files::new();
    apply(&mut files, &AuthMolecules::LogInForm.install());
    for name in [
        "Button.tsx",
        "TextInput.tsx",
        "PasswordInput.tsx",
        "Card.tsx",
        "ErrorMessage.tsx",
        "Separator.tsx",
        "cn.ts",
        "EyeClosed.tsx",
        "EyeOpen.tsx",
        "IconButton.tsx",
        "LogInForm.tsx",
    ] {
        assert!(files.keys().any(|k| k.last().unwrap() == name), "{}", name);
    }
}

#[test]
fn existing_file_is_never_overwritten() {
    let mut files = Files::new();
    let path = key(&["client", "src", "devano", "utils", "cn.ts"]);
    files.insert(path.clone(), "sentinel".to_string());
    apply(&mut files, &Atoms::Inputs(Inputs::Password).install());
    assert_eq!(files.get(&path).unwrap(), "sentinel");
}

#[test]
fn password_input_installs_five_files() {
    let mut files = Files::new();
    apply(&mut files, &Atoms::Inputs(Inputs::Password).install());
    assert_eq!(files.len(), 5);
    for (folder, name) in [
        ("atoms/inputs", "PasswordInput.tsx"),
        ("utils", "cn.ts"),
        ("atoms/icons", "EyeClosed.tsx"),
        ("atoms/icons", "EyeOpen.tsx"),
        ("atoms/buttons", "IconButton.tsx"),
    ] {
        assert!(files.contains_key(&key(&["client", "src", "devano", folder, name])), "{}", name);
    }
}

#[test]
fn password_input_dependencies_in_order() {
    let deps = Atoms::Inputs(Inputs::Password).devano_dependencies();
    assert_eq!(
        deps,
        vec![
            Atoms::Utils(Utils::Cn),
            Atoms::Icons(Icons::EyeClosed),
            Atoms::Icons(Icons::EyeOpen),
            Atoms::Buttons(Buttons::IconButton),
        ]
    );
}

#[test]
fn dependencies_repeat_without_memo() {
    let steps = Atoms::Inputs(Inputs::Password).install();
    let cn_writes = steps
        .iter()
        .filter(|s| matches!(s, Step::WriteFile { path, .. } if path.last() == Some(&"cn.ts")))
        .count();
    assert_eq!(cn_writes, 4);
    assert_eq!(steps.len(), 16);
}

#[test]
fn atom_steps_check_packages_before_writing() {
    let steps = Atoms::Utils(Utils::Cn).install();
    assert_eq!(steps.len(), 2);
    match &steps[0] {
        Step::EnsurePackages { names } => assert_eq!(names, &vec!["tailwind-merge", "clsx"]),
        _ => panic!("expected a package check first"),
    }
}

#[test]
fn route_install_writes_then_registers() {
    let steps = AuthRoutes::Index.install();
    assert_eq!(steps.len(), 2);
    match &steps[0] {
        Step::WriteFile { path, .. } => {
            assert_eq!(path, &vec!["client", "src", "devano", "api", "auth", "index.ts"])
        }
        _ => panic!("expected a write first"),
    }
    match &steps[1] {
        Step::RegisterApi { module_name, folder_path } => {
            assert_eq!(*module_name, "auth");
            assert_eq!(*folder_path, "auth");
        }
        _ => panic!("expected a registration"),
    }
    assert_eq!(AuthRoutes::Index.name(), "auth/index");
}

#[test]
fn feature_installs_molecules_then_routes() {
    let steps = Features::Auth.install();
    let mut files = Files::new();
    apply(&mut files, &steps);
    assert!(files.contains_key(&key(&["client", "src", "devano", "features/auth", "Auth.tsx"])));
    assert!(files.contains_key(&key(&["client", "src", "devano", "state", "AuthState.tsx"])));
    assert!(files.contains_key(&key(&["client", "src", "devano", "api", "auth", "index.ts"])));
    assert!(matches!(steps.last().unwrap(), Step::RegisterApi { .. }));
}

#[test]
fn install_all_covers_every_atom() {
    let mut files = Files::new();
    apply(&mut files, &Atoms::install_all());
    assert_eq!(files.len(), 19);
}

#[test]
fn route_registration_twice_changes_nothing() {
    let mut files = Files::new();
    let index = key(&["client", "src", "devano", "api", "index.ts"]);
    files.insert(index.clone(), "export const api = {\n};".to_string());
    apply(&mut files, &AuthRoutes::Index.install());
    let first = files.clone();
    assert_eq!(
        files.get(&index).unwrap(),
        "import { auth } from \"./auth\";\nexport const api = {\n\tauth,\n};"
    );
    apply(&mut files, &AuthRoutes::Index.install());
    assert_eq!(files, first);
}
