use vstd::prelude::*;

verus! {

/// A user-interface unit of the catalog: where it goes, what it holds and which packages it needs.
pub struct UiComponent {
    pub name: &'static str,
    pub description: &'static str,
    pub long_description: &'static str,
    pub filename: &'static str,
    pub contents: &'static str,
    pub folder_path: &'static str,
    pub npm_deps: Vec<&'static str>,
}

/// The mathematical value of a [`UiComponent`]: its fields, with the package list as a sequence.
pub struct UiComponentView {
    pub name: &'static str,
    pub description: &'static str,
    pub long_description: &'static str,
    pub filename: &'static str,
    pub contents: &'static str,
    pub folder_path: &'static str,
    pub npm_deps: Seq<&'static str>,
}

impl View for UiComponent {
    type V = UiComponentView;

    open spec fn view(&self) -> UiComponentView {
        UiComponentView {
            name: self.name,
            description: self.description,
            long_description: self.long_description,
            filename: self.filename,
            contents: self.contents,
            folder_path: self.folder_path,
            npm_deps: self.npm_deps@,
        }
    }
}

/// A client-side route module: a file under `client/src/devano/api` and the name under which the
/// api aggregator exports it.
pub struct ApiComponent {
    pub module_name: &'static str,
    pub description: &'static str,
    pub long_description: &'static str,
    pub filename: &'static str,
    pub contents: &'static str,
    pub folder_path: &'static str,
}

/// The mathematical value of an [`ApiComponent`].
pub struct ApiComponentView {
    pub module_name: &'static str,
    pub description: &'static str,
    pub long_description: &'static str,
    pub filename: &'static str,
    pub contents: &'static str,
    pub folder_path: &'static str,
}

impl View for ApiComponent {
    type V = ApiComponentView;

    open spec fn view(&self) -> ApiComponentView {
        ApiComponentView {
            module_name: self.module_name,
            description: self.description,
            long_description: self.long_description,
            filename: self.filename,
            contents: self.contents,
            folder_path: self.folder_path,
        }
    }
}

} // verus!
