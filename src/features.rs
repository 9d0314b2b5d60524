use vstd::prelude::*;
use crate::install::{Step, Unit};
use crate::text::same_text;
use auth_api::AuthRoutes;
use auth_ui::AuthMolecules;

pub mod auth_api;
pub mod auth_ui;

verus! {

/// The features that can be added to a project, each a bundle of molecules and route modules.
#[derive(Debug, Clone, Copy, PartialEq, Eq, Structural)]
pub enum Features {
    Auth,
}

impl Features {
    /// Every feature, in menu order.
    pub open spec fn spec_all() -> Seq<Features> {
        seq![Features::Auth]
    }

    /// Returns every feature, in menu order.
    pub fn all() -> (r: Vec<Features>)
        ensures
            r@ == Self::spec_all(),
    {
        let r = vec![Features::Auth];
        proof {
            assert(r@ =~= Self::spec_all());
        }
        r
    }

    /// Returns the features that must be added before this one.
    pub fn feature_dependencies(&self) -> (r: Vec<Features>)
        ensures
            r@.len() == 0,
    {
        match self {
            Features::Auth => Vec::new(),
        }
    }

    /// The feature's display name.
    pub open spec fn spec_name(self) -> &'static str {
        match self {
            Features::Auth => "Auth",
        }
    }

    /// Returns the feature's display name.
    pub fn name(&self) -> (r: &'static str)
        ensures
            r == self.spec_name(),
    {
        match self {
            Features::Auth => "Auth",
        }
    }

    /// Returns the feature's description.
    pub fn description(&self) -> (r: &'static str)
        ensures
            *self == Features::Auth ==> r == "The foundational module - login/signup/etc.",
    {
        match self {
            Features::Auth => "The foundational module - login/signup/etc.",
        }
    }

    /// Returns the feature whose display name is `name`, or `None` where no feature has it.
    pub fn from_name(name: &str) -> (r: Option<Features>)
        ensures
            forall|f: Features| r == Some(f) <==> name@ == f.spec_name()@,
    {
        if same_text(name, "Auth") {
            Some(Features::Auth)
        } else {
            None
        }
    }

    /// Returns the feature that the `add` command's argument names (`auth`), or `None` for an
    /// unknown argument.
    pub fn from_arg(arg: &str) -> (r: Option<Features>)
        ensures
            arg@ == "auth"@ <==> r == Some(Features::Auth),
            arg@ != "auth"@ <==> r is None,
    {
        if same_text(arg, "auth") {
            Some(Features::Auth)
        } else {
            None
        }
    }

    /// The units that make up the feature: its molecules, then its route modules.
    pub open spec fn spec_units(self) -> (Seq<Unit>, Seq<Unit>) {
        match self {
            Features::Auth => (
                AuthMolecules::spec_all().map_values(|m: AuthMolecules| Unit::Molecule(m)),
                AuthRoutes::spec_all().map_values(|r: AuthRoutes| Unit::Route(r)),
            ),
        }
    }

    /// Returns the steps that add the feature: every molecule's installation in order, then every
    /// route module's.
    pub fn install(&self) -> (r: Vec<Step>)
        ensures
            Step::views(r@) == Unit::plan_of_all(self.spec_units().0) + Unit::plan_of_all(
                self.spec_units().1,
            ),
    {
        match self {
            Features::Auth => {
                let molecules = AuthMolecules::all();
                let mut units: Vec<Unit> = Vec::new();
                let mut i: usize = 0;
                while i < molecules.len()
                    invariant
                        i <= molecules@.len(),
                        molecules@ == AuthMolecules::spec_all(),
                        units@ == molecules@.subrange(0, i as int).map_values(
                            |m: AuthMolecules| Unit::Molecule(m),
                        ),
                    decreases molecules@.len() - i,
                {
                    units.push(Unit::Molecule(molecules[i]));
                    i += 1;
                    proof {
                        assert(units@ =~= molecules@.subrange(0, i as int).map_values(
                            |m: AuthMolecules| Unit::Molecule(m),
                        ));
                    }
                }
                proof {
                    assert(molecules@.subrange(0, molecules@.len() as int) =~= molecules@);
                }
                let mut steps = Unit::install_all_of(&units);
                let routes = AuthRoutes::all();
                let mut route_units: Vec<Unit> = Vec::new();
                let mut j: usize = 0;
                while j < routes.len()
                    invariant
                        j <= routes@.len(),
                        routes@ == AuthRoutes::spec_all(),
                        route_units@ == routes@.subrange(0, j as int).map_values(
                            |r: AuthRoutes| Unit::Route(r),
                        ),
                    decreases routes@.len() - j,
                {
                    route_units.push(Unit::Route(routes[j]));
                    j += 1;
                    proof {
                        assert(route_units@ =~= routes@.subrange(0, j as int).map_values(
                            |r: AuthRoutes| Unit::Route(r),
                        ));
                    }
                }
                proof {
                    assert(routes@.subrange(0, routes@.len() as int) =~= routes@);
                }
                let mut route_steps = Unit::install_all_of(&route_units);
                let ghost first = steps@;
                let ghost second = route_steps@;
                steps.append(&mut route_steps);
                proof {
                    assert(Step::views(steps@) =~= Step::views(first) + Step::views(second));
                }
                steps
            },
        }
    }
}

} // verus!
