use vstd::prelude::*;
use crate::component::{UiComponent, UiComponentView};
use crate::install::{Step, Unit};

pub mod buttons;
pub mod decorators;
pub mod feedback;
pub mod icons;
pub mod inputs;
pub mod layout;
pub mod utils;

use buttons::Buttons;
use decorators::Decorators;
use feedback::Feedbacks;
use icons::Icons;
use inputs::Inputs;
use layout::Layouts;
use utils::Utils;

verus! {

/// The smallest installable units: each one a single file under `client/src/devano`.
#[derive(Debug, Clone, Copy, PartialEq, Eq, Structural)]
pub enum Atoms {
    /// A collection of button components.
    Buttons(Buttons),
    /// A collection of decorators for modifying components.
    Decorators(Decorators),
    /// Feedback information encapsulated in `Feedbacks`.
    Feedback(Feedbacks),
    /// A collection of reusable icons.
    Icons(Icons),
    /// Input-related components and functionality.
    Inputs(Inputs),
    /// Layout configurations for structuring components.
    Layout(Layouts),
    /// Utility functions and helpers.
    Utils(Utils),
}

impl Atoms {
    /// Every atom of the catalog, in catalog order.
    pub open spec fn spec_all_variants() -> Seq<Atoms> {
        seq![
            Atoms::Buttons(Buttons::Anchor),
            Atoms::Buttons(Buttons::AnchorButton),
            Atoms::Buttons(Buttons::Button),
            Atoms::Buttons(Buttons::ButtonAnchor),
            Atoms::Buttons(Buttons::IconButton),
            Atoms::Decorators(Decorators::Separators),
            Atoms::Feedback(Feedbacks::ErrorMsg),
            Atoms::Icons(Icons::EyeClosed),
            Atoms::Icons(Icons::EyeOpen),
            Atoms::Inputs(Inputs::Text),
            Atoms::Inputs(Inputs::Password),
            Atoms::Inputs(Inputs::Otp),
            Atoms::Layout(Layouts::Card),
            Atoms::Layout(Layouts::Page),
            Atoms::Layout(Layouts::PageInner),
            Atoms::Layout(Layouts::Stack),
            Atoms::Layout(Layouts::Heading),
            Atoms::Layout(Layouts::Modal),
            Atoms::Utils(Utils::Cn),
        ]
    }

    /// Returns every atom of the catalog, in catalog order.
    pub fn all_variants() -> (r: Vec<Atoms>)
        ensures
            r@ == Self::spec_all_variants(),
    {
        vec![
            Atoms::Buttons(Buttons::Anchor),
            Atoms::Buttons(Buttons::AnchorButton),
            Atoms::Buttons(Buttons::Button),
            Atoms::Buttons(Buttons::ButtonAnchor),
            Atoms::Buttons(Buttons::IconButton),
            Atoms::Decorators(Decorators::Separators),
            Atoms::Feedback(Feedbacks::ErrorMsg),
            Atoms::Icons(Icons::EyeClosed),
            Atoms::Icons(Icons::EyeOpen),
            Atoms::Inputs(Inputs::Text),
            Atoms::Inputs(Inputs::Password),
            Atoms::Inputs(Inputs::Otp),
            Atoms::Layout(Layouts::Card),
            Atoms::Layout(Layouts::Page),
            Atoms::Layout(Layouts::PageInner),
            Atoms::Layout(Layouts::Stack),
            Atoms::Layout(Layouts::Heading),
            Atoms::Layout(Layouts::Modal),
            Atoms::Utils(Utils::Cn),
        ]
    }

    /// The atoms that must be installed before this one, in installation order.
    pub open spec fn spec_dependencies(self) -> Seq<Atoms> {
        match self {
            Atoms::Buttons(Buttons::Anchor) => seq![
                Atoms::Utils(Utils::Cn),
            ],
            Atoms::Buttons(Buttons::AnchorButton) => seq![
                Atoms::Utils(Utils::Cn),
            ],
            Atoms::Buttons(Buttons::Button) => seq![
                Atoms::Utils(Utils::Cn),
            ],
            Atoms::Buttons(Buttons::ButtonAnchor) => seq![
                Atoms::Utils(Utils::Cn),
            ],
            Atoms::Buttons(Buttons::IconButton) => seq![
                Atoms::Utils(Utils::Cn),
            ],
            Atoms::Decorators(Decorators::Separators) => seq![
                Atoms::Utils(Utils::Cn),
            ],
            Atoms::Feedback(Feedbacks::ErrorMsg) => seq![
                Atoms::Utils(Utils::Cn),
            ],
            Atoms::Icons(Icons::EyeClosed) => seq![
                Atoms::Utils(Utils::Cn),
            ],
            Atoms::Icons(Icons::EyeOpen) => seq![
                Atoms::Utils(Utils::Cn),
            ],
            Atoms::Inputs(Inputs::Text) => seq![
                Atoms::Utils(Utils::Cn),
            ],
            Atoms::Inputs(Inputs::Password) => seq![
                Atoms::Utils(Utils::Cn),
                Atoms::Icons(Icons::EyeClosed),
                Atoms::Icons(Icons::EyeOpen),
                Atoms::Buttons(Buttons::IconButton),
            ],
            Atoms::Inputs(Inputs::Otp) => seq![
                Atoms::Utils(Utils::Cn),
            ],
            Atoms::Layout(Layouts::Card) => seq![
                Atoms::Utils(Utils::Cn),
            ],
            Atoms::Layout(Layouts::Page) => seq![],
            Atoms::Layout(Layouts::PageInner) => seq![
                Atoms::Utils(Utils::Cn),
            ],
            Atoms::Layout(Layouts::Stack) => seq![
                Atoms::Utils(Utils::Cn),
            ],
            Atoms::Layout(Layouts::Heading) => seq![
                Atoms::Utils(Utils::Cn),
            ],
            Atoms::Layout(Layouts::Modal) => seq![],
            Atoms::Utils(Utils::Cn) => seq![],
        }
    }

    /// Returns the atoms that must be installed before this one, in installation order.
    pub fn devano_dependencies(&self) -> (r: Vec<Atoms>)
        ensures
            r@ == self.spec_dependencies(),
    {
        match self {
            Atoms::Buttons(Buttons::Anchor) => vec![
                Atoms::Utils(Utils::Cn),
            ],
            Atoms::Buttons(Buttons::AnchorButton) => vec![
                Atoms::Utils(Utils::Cn),
            ],
            Atoms::Buttons(Buttons::Button) => vec![
                Atoms::Utils(Utils::Cn),
            ],
            Atoms::Buttons(Buttons::ButtonAnchor) => vec![
                Atoms::Utils(Utils::Cn),
            ],
            Atoms::Buttons(Buttons::IconButton) => vec![
                Atoms::Utils(Utils::Cn),
            ],
            Atoms::Decorators(Decorators::Separators) => vec![
                Atoms::Utils(Utils::Cn),
            ],
            Atoms::Feedback(Feedbacks::ErrorMsg) => vec![
                Atoms::Utils(Utils::Cn),
            ],
            Atoms::Icons(Icons::EyeClosed) => vec![
                Atoms::Utils(Utils::Cn),
            ],
            Atoms::Icons(Icons::EyeOpen) => vec![
                Atoms::Utils(Utils::Cn),
            ],
            Atoms::Inputs(Inputs::Text) => vec![
                Atoms::Utils(Utils::Cn),
            ],
            Atoms::Inputs(Inputs::Password) => vec![
                Atoms::Utils(Utils::Cn),
                Atoms::Icons(Icons::EyeClosed),
                Atoms::Icons(Icons::EyeOpen),
                Atoms::Buttons(Buttons::IconButton),
            ],
            Atoms::Inputs(Inputs::Otp) => vec![
                Atoms::Utils(Utils::Cn),
            ],
            Atoms::Layout(Layouts::Card) => vec![
                Atoms::Utils(Utils::Cn),
            ],
            Atoms::Layout(Layouts::Page) => vec![],
            Atoms::Layout(Layouts::PageInner) => vec![
                Atoms::Utils(Utils::Cn),
            ],
            Atoms::Layout(Layouts::Stack) => vec![
                Atoms::Utils(Utils::Cn),
            ],
            Atoms::Layout(Layouts::Heading) => vec![
                Atoms::Utils(Utils::Cn),
            ],
            Atoms::Layout(Layouts::Modal) => vec![],
            Atoms::Utils(Utils::Cn) => vec![],
        }
    }

    /// The component that this atom installs.
    pub open spec fn spec_ui(self) -> UiComponentView {
        match self {
            Atoms::Buttons(b) => b.spec_ui(),
            Atoms::Decorators(d) => d.spec_ui(),
            Atoms::Feedback(f) => f.spec_ui(),
            Atoms::Icons(i) => i.spec_ui(),
            Atoms::Inputs(i) => i.spec_ui(),
            Atoms::Layout(l) => l.spec_ui(),
            Atoms::Utils(u) => u.spec_ui(),
        }
    }

    /// Returns the component that this atom installs.
    pub fn get_ui(&self) -> (r: UiComponent)
        ensures
            r@ == self.spec_ui(),
    {
        match self {
            Atoms::Buttons(b) => b.get_ui(),
            Atoms::Decorators(d) => d.get_ui(),
            Atoms::Feedback(f) => f.get_ui(),
            Atoms::Icons(i) => i.get_ui(),
            Atoms::Inputs(i) => i.get_ui(),
            Atoms::Layout(l) => l.get_ui(),
            Atoms::Utils(u) => u.get_ui(),
        }
    }

    /// Returns the steps that install this atom: its dependencies first, depth first, then its
    /// package check and its own file.
    pub fn install(&self) -> (r: Vec<Step>)
        ensures
            Step::views(r@) == Unit::Atom(*self).plan(),
    {
        Unit::Atom(*self).install()
    }

    /// Returns the steps that install every atom of the catalog, one after another.
    pub fn install_all() -> (r: Vec<Step>)
        ensures
            Step::views(r@) == Unit::plan_of_all(
                Self::spec_all_variants().map_values(|a: Atoms| Unit::Atom(a)),
            ),
    {
        let atoms = Self::all_variants();
        let mut units: Vec<Unit> = Vec::new();
        let mut i: usize = 0;
        while i < atoms.len()
            invariant
                i <= atoms@.len(),
                atoms@ == Self::spec_all_variants(),
                units@ == atoms@.subrange(0, i as int).map_values(|a: Atoms| Unit::Atom(a)),
            decreases atoms@.len() - i,
        {
            units.push(Unit::Atom(atoms[i]));
            i += 1;
            proof {
                assert(units@ =~= atoms@.subrange(0, i as int).map_values(|a: Atoms| Unit::Atom(a)));
            }
        }
        proof {
            assert(atoms@.subrange(0, atoms@.len() as int) =~= atoms@);
        }
        Unit::install_all_of(&units)
    }
}

} // verus!
