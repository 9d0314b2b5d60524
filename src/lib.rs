//! Scaffolding for Devano projects: a catalog of installable units (atoms, feature molecules and
//! route modules) with the installation plans that put them into a project, the package check
//! and api aggregator rewrite that go with them, the new-project scaffold, and palette export.
use vstd::prelude::*;

pub mod api_index;
pub mod atoms;
pub mod cli;
pub mod colors;
pub mod components;
pub mod component;
pub mod features;
pub mod install;
pub mod packages;
pub mod scaffold;
pub mod text;
pub mod tree;

verus! {

} // verus!
