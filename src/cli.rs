use vstd::prelude::*;

verus! {

/// The command line: one subcommand.
pub struct Cli {
    pub command: Commands,
}

/// The subcommands.
pub enum Commands {
    /// Menus for the stylesheet palette and the atoms.
    Ui,
    /// Adds a feature by name (`add auth`).
    Add(AddArgs),
    /// Picks a feature from a menu and adds it.
    Feature,
    /// Makes a new client and server project.
    New,
}

/// The argument of the `add` subcommand.
pub struct AddArgs {
    pub value: String,
}

} // verus!
