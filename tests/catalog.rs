use devano::atoms::buttons::Buttons;
use devano::atoms::inputs::Inputs;
use devano::atoms::layout::Layouts;
use devano::atoms::Atoms;
use devano::components::make_component_registry;
use devano::features::auth_ui::AuthMolecules;
use devano::features::Features;
use devano::install::Installable;

#[test]
fn catalog_lists_nineteen_atoms() {
    let all = Atoms::all_variants();
    assert_eq!(all.len(), 19);
    assert_eq!(all[0], Atoms::Buttons(Buttons::Anchor));
}

#[test]
fn text_input_component() {
    let ui = Atoms::Inputs(Inputs::Text).get_ui();
    assert_eq!(ui.name, "text-input");
    assert_eq!(ui.filename, "TextInput.tsx");
    assert_eq!(ui.folder_path, "atoms/inputs");
    assert_eq!(ui.npm_deps, vec!["zod"]);
    assert_eq!(ui.contents, devano::atoms::inputs::TEXT_INPUT_LIT);
}

#[test]
fn link_button_file_name() {
    let ui = Buttons::ButtonAnchor.get_ui();
    assert_eq!(ui.filename, "LinkButton.tsx");
    assert_eq!(ui.name, "anchor-button");
}

#[test]
fn page_and_modal_have_no_dependencies() {
    assert!(Atoms::Layout(Layouts::Page).devano_dependencies().is_empty());
    assert!(Atoms::Layout(Layouts::Modal).devano_dependencies().is_empty());
}

#[test]
fn log_in_form_atoms() {
    let deps = AuthMolecules::LogInForm.atom_dependencies();
    assert_eq!(deps.len(), 6);
    assert_eq!(AuthMolecules::LogInForm.name(), "log-in-form");
    assert_eq!(AuthMolecules::AuthState.get_ui().folder_path, "state");
}

#[test]
fn features_by_name_and_argument() {
    assert_eq!(Features::from_arg("auth"), Some(Features::Auth));
    assert_eq!(Features::from_arg("Auth"), None);
    assert_eq!(Features::from_name("Auth"), Some(Features::Auth));
    assert_eq!(Features::from_name("cms"), None);
    assert_eq!(Features::Auth.name(), "Auth");
    assert_eq!(Features::Auth.description(), "The foundational module - login/signup/etc.");
    assert!(Features::Auth.feature_dependencies().is_empty());
    assert_eq!(Features::all(), vec![Features::Auth]);
}

#[test]
fn flat_registry_holds_button_and_text_input() {
    let registry = make_component_registry();
    let names: Vec<&str> = registry.iter().map(|(n, _)| *n).collect();
    assert_eq!(names, vec!["button", "text-input"]);
    assert_eq!(registry[0].1.required_npm, vec!["@devano/ui"]);
    assert_eq!(registry[1].1.required_npm, vec!["tailwind-merge", "clsx"]);
}
