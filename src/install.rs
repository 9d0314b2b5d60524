use vstd::prelude::*;
use crate::atoms::Atoms;
use crate::atoms::buttons::Buttons;
use crate::atoms::decorators::Decorators;
use crate::atoms::feedback::Feedbacks;
use crate::atoms::icons::Icons;
use crate::atoms::inputs::Inputs;
use crate::atoms::layout::Layouts;
use crate::atoms::utils::Utils;
use crate::component::{ApiComponent, ApiComponentView, UiComponent, UiComponentView};
use crate::features::auth_api::AuthRoutes;
use crate::features::auth_ui::AuthMolecules;
use crate::tree::{
    api_index_path, apply, apply_action, lemma_apply_concat, lemma_apply_frame, lemma_apply_twice,
    is_registration, lemma_registers_concat, lemma_write_register_twice, lemma_writes_concat,
    registers, writes, writes_to,
};

verus! {

/// One effect of an installation, as the project's file tree sees it.
pub enum Action {
    /// Make sure that the project's manifest declares these packages.
    EnsurePackages { names: Seq<Seq<char>> },
    /// Write `contents` at `path`, unless a file is already there.
    WriteFile { path: Seq<Seq<char>>, contents: Seq<char> },
    /// Add a route module to the api aggregator.
    RegisterApi { module_name: Seq<char>, folder_path: Seq<char> },
}

/// One step of an installation, carried out in order by whoever owns the file system.
pub enum Step {
    /// Make sure that the project's manifest declares these packages.
    EnsurePackages { names: Vec<&'static str> },
    /// Write `contents` at the path made of these segments, unless a file is already there.
    WriteFile { path: Vec<&'static str>, contents: &'static str },
    /// Add a route module to the api aggregator.
    RegisterApi { module_name: &'static str, folder_path: &'static str },
}

/// The character sequences of a list of strings.
pub open spec fn str_views(v: Seq<&'static str>) -> Seq<Seq<char>> {
    v.map_values(|s: &'static str| s@)
}

impl View for Step {
    type V = Action;

    open spec fn view(&self) -> Action {
        match self {
            Step::EnsurePackages { names } => Action::EnsurePackages { names: str_views(names@) },
            Step::WriteFile { path, contents } => Action::WriteFile {
                path: str_views(path@),
                contents: contents@,
            },
            Step::RegisterApi { module_name, folder_path } => Action::RegisterApi {
                module_name: module_name@,
                folder_path: folder_path@,
            },
        }
    }
}

impl Step {
    /// The actions of a list of steps.
    pub open spec fn views(s: Seq<Step>) -> Seq<Action> {
        s.map_values(|x: Step| x@)
    }
}

/// The folder under which every unit is installed: `client/src/devano`.
pub open spec fn devano_root() -> Seq<Seq<char>> {
    seq!["client"@, "src"@, "devano"@]
}

/// The actions that install a user-interface component once its dependencies are in place:
/// its package check, then its file.
pub open spec fn component_actions(ui: UiComponentView) -> Seq<Action> {
    seq![
        Action::EnsurePackages { names: str_views(ui.npm_deps) },
        Action::WriteFile {
            path: devano_root() + seq![ui.folder_path@, ui.filename@],
            contents: ui.contents@,
        },
    ]
}

/// The actions that install a route module: its file under `client/src/devano/api`, then its
/// registration in the api aggregator.
pub open spec fn api_actions(api: ApiComponentView) -> Seq<Action> {
    seq![
        Action::WriteFile {
            path: devano_root() + seq!["api"@, api.folder_path@, api.filename@],
            contents: api.contents@,
        },
        Action::RegisterApi { module_name: api.module_name@, folder_path: api.folder_path@ },
    ]
}

/// Anything that the installer can put into a project.
#[derive(Debug, Clone, Copy, PartialEq, Eq, Structural)]
pub enum Unit {
    Atom(Atoms),
    Molecule(AuthMolecules),
    Route(AuthRoutes),
}

/// A catalog item with a name and an installation.
pub trait Installable {
    /// The unit that this item installs.
    spec fn unit(&self) -> Unit;

    /// The item's display name.
    fn name(&self) -> &'static str;

    /// Returns the steps that install this item, its dependencies first.
    fn install(&self) -> (r: Vec<Step>)
        ensures
            Step::views(r@) == self.unit().plan(),
    ;
}

impl Unit {
    /// The depth of the unit in the dependency graph: every dependency has a smaller rank, so
    /// the graph has no cycle and installation ends.
    pub open spec fn rank(self) -> nat {
        match self {
            Unit::Atom(Atoms::Utils(_)) => 0,
            Unit::Atom(Atoms::Inputs(Inputs::Password)) => 2,
            Unit::Atom(_) => 1,
            Unit::Molecule(_) => 3,
            Unit::Route(_) => 0,
        }
    }

    /// The units installed before this one, in order.
    pub open spec fn dependencies(self) -> Seq<Unit> {
        match self {
            Unit::Atom(a) => a.spec_dependencies().map_values(|d: Atoms| Unit::Atom(d)),
            Unit::Molecule(m) => m.spec_atom_dependencies().map_values(|d: Atoms| Unit::Atom(d)),
            Unit::Route(_) => seq![],
        }
    }

    /// The name of the file that the unit writes.
    pub open spec fn filename(self) -> &'static str {
        match self {
            Unit::Atom(a) => a.spec_ui().filename,
            Unit::Molecule(m) => m.spec_ui().filename,
            Unit::Route(r) => r.spec_api().filename,
        }
    }

    /// The path, segment by segment, at which the unit's file is written.
    pub open spec fn destination(self) -> Seq<Seq<char>> {
        match self {
            Unit::Atom(a) => devano_root() + seq![a.spec_ui().folder_path@, a.spec_ui().filename@],
            Unit::Molecule(m) => devano_root() + seq![
                m.spec_ui().folder_path@,
                m.spec_ui().filename@,
            ],
            Unit::Route(r) => devano_root() + seq![
                "api"@,
                r.spec_api().folder_path@,
                r.spec_api().filename@,
            ],
        }
    }

    /// What the unit's file holds.
    pub open spec fn contents(self) -> Seq<char> {
        match self {
            Unit::Atom(a) => a.spec_ui().contents@,
            Unit::Molecule(m) => m.spec_ui().contents@,
            Unit::Route(r) => r.spec_api().contents@,
        }
    }

    /// The actions that install the unit itself, once its dependencies are in place.
    pub open spec fn own_actions(self) -> Seq<Action> {
        match self {
            Unit::Atom(a) => component_actions(a.spec_ui()),
            Unit::Molecule(m) => component_actions(m.spec_ui()),
            Unit::Route(r) => api_actions(r.spec_api()),
        }
    }

    /// The actions that install the unit: each dependency's installation in order, depth first,
    /// then the unit's own actions.
    pub open spec fn plan(self) -> Seq<Action>
        decreases self.rank(), self.dependencies().len() + 1,
    {
        self.plan_prefix(self.dependencies().len()) + self.own_actions()
    }

    /// The installations of the first `k` dependencies, one after another.
    pub open spec fn plan_prefix(self, k: nat) -> Seq<Action>
        decreases self.rank(), k,
    {
        if k == 0 || k > self.dependencies().len() {
            seq![]
        } else {
            self.plan_prefix((k - 1) as nat) + self.dependencies()[k - 1].plan()
        }
    }

    /// The installations of several units, one after another.
    pub open spec fn plan_of_all(units: Seq<Unit>) -> Seq<Action>
        decreases units.len(),
    {
        if units.len() == 0 {
            seq![]
        } else {
            Unit::plan_of_all(units.drop_last()) + units.last().plan()
        }
    }

    /// Every dependency of a unit has a smaller rank.
    pub proof fn lemma_dependencies_rank(self)
        ensures
            forall|i: int|
                0 <= i < self.dependencies().len() ==> #[trigger] self.dependencies()[i].rank()
                    < self.rank(),
    {
    }
}

impl Unit {
    /// Returns the units installed before this one, in order.
    pub fn dependency_units(&self) -> (r: Vec<Unit>)
        ensures
            r@ == self.dependencies(),
    {
        match self {
            Unit::Atom(a) => atoms_as_units(&a.devano_dependencies()),
            Unit::Molecule(m) => atoms_as_units(&m.atom_dependencies()),
            Unit::Route(_) => Vec::new(),
        }
    }

    /// Returns the steps that install the unit itself, once its dependencies are in place.
    pub fn own_steps(&self) -> (r: Vec<Step>)
        ensures
            Step::views(r@) == self.own_actions(),
    {
        match self {
            Unit::Atom(a) => component_steps(a.get_ui()),
            Unit::Molecule(m) => component_steps(m.get_ui()),
            Unit::Route(route) => add_api(&route.get_api()),
        }
    }

    /// Appends to `out` the steps that install the unit.
    fn push_install(&self, out: &mut Vec<Step>)
        ensures
            Step::views(final(out)@) == Step::views(old(out)@) + self.plan(),
        decreases self.rank(),
    {
        let deps = self.dependency_units();
        proof {
            self.lemma_dependencies_rank();
        }
        let ghost start = Step::views(out@);
        let mut i: usize = 0;
        while i < deps.len()
            invariant
                deps@ == self.dependencies(),
                i <= deps@.len(),
                Step::views(out@) == start + self.plan_prefix(i as nat),
                forall|j: int| 0 <= j < deps@.len() ==> #[trigger] deps@[j].rank() < self.rank(),
            decreases deps@.len() - i,
        {
            deps[i].push_install(out);
            i += 1;
            proof {
                assert(Step::views(out@) =~= start + self.plan_prefix(i as nat));
            }
        }
        let mut own = self.own_steps();
        let ghost before = out@;
        let ghost own_steps = own@;
        out.append(&mut own);
        proof {
            assert(Step::views(out@) =~= Step::views(before) + Step::views(own_steps));
            assert(self.plan() == self.plan_prefix(self.dependencies().len()) + self.own_actions());
            assert(Step::views(out@) =~= start + self.plan());
        }
    }

    /// Returns the steps that install the unit: each dependency's installation in order, depth
    /// first, then the unit's package check and file.
    pub fn install(&self) -> (r: Vec<Step>)
        ensures
            Step::views(r@) == self.plan(),
    {
        let mut out: Vec<Step> = Vec::new();
        self.push_install(&mut out);
        proof {
            assert(Step::views(out@) =~= Seq::<Action>::empty() + self.plan());
        }
        out
    }

    /// Returns the steps that install each of `units`, one after another.
    pub fn install_all_of(units: &Vec<Unit>) -> (r: Vec<Step>)
        ensures
            Step::views(r@) == Unit::plan_of_all(units@),
    {
        let mut out: Vec<Step> = Vec::new();
        let mut i: usize = 0;
        while i < units.len()
            invariant
                i <= units@.len(),
                Step::views(out@) == Unit::plan_of_all(units@.subrange(0, i as int)),
            decreases units@.len() - i,
        {
            proof {
                assert(Step::views(out@) =~= Unit::plan_of_all(units@.subrange(0, i as int)));
            }
            units[i].push_install(&mut out);
            i += 1;
            proof {
                assert(units@.subrange(0, i as int).drop_last() =~= units@.subrange(0, i - 1));
            }
        }
        proof {
            assert(units@.subrange(0, units@.len() as int) =~= units@);
        }
        out
    }
}

/// The path of a write step, as character sequences.
spec fn vec_str_path(s: Step) -> Seq<Seq<char>> {
    match s {
        Step::WriteFile { path, .. } => str_views(path@),
        _ => seq![],
    }
}

/// Returns each atom of `atoms` as a unit.
fn atoms_as_units(atoms: &Vec<Atoms>) -> (r: Vec<Unit>)
    ensures
        r@ == atoms@.map_values(|a: Atoms| Unit::Atom(a)),
{
    let mut r: Vec<Unit> = Vec::new();
    let mut i: usize = 0;
    while i < atoms.len()
        invariant
            i <= atoms@.len(),
            r@ == atoms@.subrange(0, i as int).map_values(|a: Atoms| Unit::Atom(a)),
        decreases atoms@.len() - i,
    {
        r.push(Unit::Atom(atoms[i]));
        i += 1;
        proof {
            assert(r@ =~= atoms@.subrange(0, i as int).map_values(|a: Atoms| Unit::Atom(a)));
        }
    }
    proof {
        assert(atoms@.subrange(0, atoms@.len() as int) =~= atoms@);
    }
    r
}

/// Returns the steps that install a route module: its file under `client/src/devano/api`, then
/// its registration in the api aggregator.
pub fn add_api(api: &ApiComponent) -> (r: Vec<Step>)
    ensures
        Step::views(r@) == api_actions(api@),
{
    let r = vec![
        Step::WriteFile {
            path: vec!["client", "src", "devano", "api", api.folder_path, api.filename],
            contents: api.contents,
        },
        Step::RegisterApi { module_name: api.module_name, folder_path: api.folder_path },
    ];
    proof {
        let path = vec_str_path(r@[0]);
        assert(path =~= devano_root() + seq!["api"@, api.folder_path@, api.filename@]);
        assert(Step::views(r@) =~= api_actions(api@));
    }
    r
}

/// Returns the steps that install a user-interface component once its dependencies are in place.
fn component_steps(ui: UiComponent) -> (r: Vec<Step>)
    ensures
        Step::views(r@) == component_actions(ui@),
{
    let r = vec![
        Step::EnsurePackages { names: ui.npm_deps },
        Step::WriteFile {
            path: vec!["client", "src", "devano", ui.folder_path, ui.filename],
            contents: ui.contents,
        },
    ];
    proof {
        let path = vec_str_path(r@[1]);
        assert(path =~= devano_root() + seq![ui.folder_path@, ui.filename@]);
        assert(Step::views(r@) =~= component_actions(ui@));
    }
    r
}

impl Unit {
    /// A short signature of the unit's file name (its length and two of its characters), which
    /// tells every two units of the catalog apart.
    pub open spec fn signature(self) -> (nat, char, char) {
        match self {
            Unit::Atom(Atoms::Buttons(Buttons::Anchor)) => (10, 'A', 'o'),
            Unit::Atom(Atoms::Buttons(Buttons::AnchorButton)) => (16, 'A', 'o'),
            Unit::Atom(Atoms::Buttons(Buttons::Button)) => (10, 'B', 'o'),
            Unit::Atom(Atoms::Buttons(Buttons::ButtonAnchor)) => (14, 'L', 'B'),
            Unit::Atom(Atoms::Buttons(Buttons::IconButton)) => (14, 'I', 'B'),
            Unit::Atom(Atoms::Decorators(Decorators::Separators)) => (13, 'S', 'r'),
            Unit::Atom(Atoms::Feedback(Feedbacks::ErrorMsg)) => (16, 'E', 'r'),
            Unit::Atom(Atoms::Icons(Icons::EyeClosed)) => (13, 'E', 'l'),
            Unit::Atom(Atoms::Icons(Icons::EyeOpen)) => (11, 'E', 'p'),
            Unit::Atom(Atoms::Inputs(Inputs::Text)) => (13, 'T', 'I'),
            Unit::Atom(Atoms::Inputs(Inputs::Password)) => (17, 'P', 'w'),
            Unit::Atom(Atoms::Inputs(Inputs::Otp)) => (12, 'O', 'n'),
            Unit::Atom(Atoms::Layout(Layouts::Card)) => (8, 'C', '.'),
            Unit::Atom(Atoms::Layout(Layouts::Page)) => (8, 'P', '.'),
            Unit::Atom(Atoms::Layout(Layouts::PageInner)) => (13, 'P', 'I'),
            Unit::Atom(Atoms::Layout(Layouts::Stack)) => (9, 'S', 'k'),
            Unit::Atom(Atoms::Layout(Layouts::Heading)) => (11, 'H', 'i'),
            Unit::Atom(Atoms::Layout(Layouts::Modal)) => (9, 'M', 'l'),
            Unit::Atom(Atoms::Utils(Utils::Cn)) => (5, 'c', 's'),
            Unit::Molecule(AuthMolecules::Auth) => (8, 'A', '.'),
            Unit::Molecule(AuthMolecules::AuthState) => (13, 'A', 'S'),
            Unit::Molecule(AuthMolecules::AuthInner) => (13, 'A', 'I'),
            Unit::Molecule(AuthMolecules::AuthNav) => (11, 'A', 'N'),
            Unit::Molecule(AuthMolecules::LogInForm) => (13, 'L', 'n'),
            Unit::Molecule(AuthMolecules::RegisterForm) => (16, 'R', 's'),
            Unit::Route(AuthRoutes::Index) => (8, 'i', 'x'),
        }
    }

    /// Recovers a unit from its signature.
    pub open spec fn from_signature(s: (nat, char, char)) -> Unit {
        if s == (10nat, 'A', 'o') {
            Unit::Atom(Atoms::Buttons(Buttons::Anchor))
        } else if s == (16nat, 'A', 'o') {
            Unit::Atom(Atoms::Buttons(Buttons::AnchorButton))
        } else if s == (10nat, 'B', 'o') {
            Unit::Atom(Atoms::Buttons(Buttons::Button))
        } else if s == (14nat, 'L', 'B') {
            Unit::Atom(Atoms::Buttons(Buttons::ButtonAnchor))
        } else if s == (14nat, 'I', 'B') {
            Unit::Atom(Atoms::Buttons(Buttons::IconButton))
        } else if s == (13nat, 'S', 'r') {
            Unit::Atom(Atoms::Decorators(Decorators::Separators))
        } else if s == (16nat, 'E', 'r') {
            Unit::Atom(Atoms::Feedback(Feedbacks::ErrorMsg))
        } else if s == (13nat, 'E', 'l') {
            Unit::Atom(Atoms::Icons(Icons::EyeClosed))
        } else if s == (11nat, 'E', 'p') {
            Unit::Atom(Atoms::Icons(Icons::EyeOpen))
        } else if s == (13nat, 'T', 'I') {
            Unit::Atom(Atoms::Inputs(Inputs::Text))
        } else if s == (17nat, 'P', 'w') {
            Unit::Atom(Atoms::Inputs(Inputs::Password))
        } else if s == (12nat, 'O', 'n') {
            Unit::Atom(Atoms::Inputs(Inputs::Otp))
        } else if s == (8nat, 'C', '.') {
            Unit::Atom(Atoms::Layout(Layouts::Card))
        } else if s == (8nat, 'P', '.') {
            Unit::Atom(Atoms::Layout(Layouts::Page))
        } else if s == (13nat, 'P', 'I') {
            Unit::Atom(Atoms::Layout(Layouts::PageInner))
        } else if s == (9nat, 'S', 'k') {
            Unit::Atom(Atoms::Layout(Layouts::Stack))
        } else if s == (11nat, 'H', 'i') {
            Unit::Atom(Atoms::Layout(Layouts::Heading))
        } else if s == (9nat, 'M', 'l') {
            Unit::Atom(Atoms::Layout(Layouts::Modal))
        } else if s == (5nat, 'c', 's') {
            Unit::Atom(Atoms::Utils(Utils::Cn))
        } else if s == (8nat, 'A', '.') {
            Unit::Molecule(AuthMolecules::Auth)
        } else if s == (13nat, 'A', 'S') {
            Unit::Molecule(AuthMolecules::AuthState)
        } else if s == (13nat, 'A', 'I') {
            Unit::Molecule(AuthMolecules::AuthInner)
        } else if s == (11nat, 'A', 'N') {
            Unit::Molecule(AuthMolecules::AuthNav)
        } else if s == (13nat, 'L', 'n') {
            Unit::Molecule(AuthMolecules::LogInForm)
        } else if s == (16nat, 'R', 's') {
            Unit::Molecule(AuthMolecules::RegisterForm)
        } else {
            Unit::Route(AuthRoutes::Index)
        }
    }

    /// The signature of a unit is that of its file name.
    proof fn lemma_signature(self)
        ensures
            self.filename()@.len() == self.signature().0,
            self.filename()@[0] == self.signature().1,
            self.filename()@[4] == self.signature().2,
            Unit::from_signature(self.signature()) == self,
    {
        match self {
            Unit::Atom(Atoms::Buttons(Buttons::Anchor)) => {
                reveal_strlit("Anchor.tsx");
            },
            Unit::Atom(Atoms::Buttons(Buttons::AnchorButton)) => {
                reveal_strlit("AnchorButton.tsx");
            },
            Unit::Atom(Atoms::Buttons(Buttons::Button)) => {
                reveal_strlit("Button.tsx");
            },
            Unit::Atom(Atoms::Buttons(Buttons::ButtonAnchor)) => {
                reveal_strlit("LinkButton.tsx");
            },
            Unit::Atom(Atoms::Buttons(Buttons::IconButton)) => {
                reveal_strlit("IconButton.tsx");
            },
            Unit::Atom(Atoms::Decorators(Decorators::Separators)) => {
                reveal_strlit("Separator.tsx");
            },
            Unit::Atom(Atoms::Feedback(Feedbacks::ErrorMsg)) => {
                reveal_strlit("ErrorMessage.tsx");
            },
            Unit::Atom(Atoms::Icons(Icons::EyeClosed)) => {
                reveal_strlit("EyeClosed.tsx");
            },
            Unit::Atom(Atoms::Icons(Icons::EyeOpen)) => {
                reveal_strlit("EyeOpen.tsx");
            },
            Unit::Atom(Atoms::Inputs(Inputs::Text)) => {
                reveal_strlit("TextInput.tsx");
            },
            Unit::Atom(Atoms::Inputs(Inputs::Password)) => {
                reveal_strlit("PasswordInput.tsx");
            },
            Unit::Atom(Atoms::Inputs(Inputs::Otp)) => {
                reveal_strlit("OTPInput.tsx");
            },
            Unit::Atom(Atoms::Layout(Layouts::Card)) => {
                reveal_strlit("Card.tsx");
            },
            Unit::Atom(Atoms::Layout(Layouts::Page)) => {
                reveal_strlit("Page.tsx");
            },
            Unit::Atom(Atoms::Layout(Layouts::PageInner)) => {
                reveal_strlit("PageInner.tsx");
            },
            Unit::Atom(Atoms::Layout(Layouts::Stack)) => {
                reveal_strlit("Stack.tsx");
            },
            Unit::Atom(Atoms::Layout(Layouts::Heading)) => {
                reveal_strlit("Heading.tsx");
            },
            Unit::Atom(Atoms::Layout(Layouts::Modal)) => {
                reveal_strlit("Modal.tsx");
            },
            Unit::Atom(Atoms::Utils(Utils::Cn)) => {
                reveal_strlit("cn.ts");
            },
            Unit::Molecule(AuthMolecules::Auth) => {
                reveal_strlit("Auth.tsx");
            },
            Unit::Molecule(AuthMolecules::AuthState) => {
                reveal_strlit("AuthState.tsx");
            },
            Unit::Molecule(AuthMolecules::AuthInner) => {
                reveal_strlit("AuthInner.tsx");
            },
            Unit::Molecule(AuthMolecules::AuthNav) => {
                reveal_strlit("AuthNav.tsx");
            },
            Unit::Molecule(AuthMolecules::LogInForm) => {
                reveal_strlit("LogInForm.tsx");
            },
            Unit::Molecule(AuthMolecules::RegisterForm) => {
                reveal_strlit("RegisterForm.tsx");
            },
            Unit::Route(AuthRoutes::Index) => {
                reveal_strlit("index.ts");
            },
        }
    }

    /// The last segment of a unit's destination is its file name.
    pub proof fn lemma_destination_ends_with_filename(self)
        ensures
            self.destination().len() > 0,
            self.destination().last() == self.filename()@,
    {
    }

    /// Two different units of the catalog are written at two different paths.
    pub proof fn lemma_destination_injective(self, other: Unit)
        requires
            self != other,
        ensures
            self.destination() != other.destination(),
    {
        self.lemma_signature();
        other.lemma_signature();
        self.lemma_destination_ends_with_filename();
        other.lemma_destination_ends_with_filename();
        if self.destination() == other.destination() {
            assert(self.signature() == other.signature());
        }
    }

    /// No unit is written at the api aggregator's path.
    pub proof fn lemma_destination_not_api_index(self)
        ensures
            self.destination() != api_index_path(),
    {
        self.lemma_signature();
        self.lemma_destination_ends_with_filename();
        if self.destination() == api_index_path() {
            reveal_strlit("index.ts");
            assert(api_index_path().last() == "index.ts"@);
            assert(self.signature() == (8nat, 'i', 'x'));
            assert(self == Unit::Route(AuthRoutes::Index));
        }
    }

    /// A unit's own actions register a route module only for a route module.
    proof fn lemma_own_registers(self)
        ensures
            registers(self.own_actions()) <==> self is Route,
    {
        let own = self.own_actions();
        let first = own.drop_last();
        assert(first.drop_last() =~= Seq::<Action>::empty());
        assert(!registers(first.drop_last()));
        assert(registers(first) == is_registration(first.last()));
        assert(registers(own) == (registers(first) || is_registration(own.last())));
    }

    /// The installation of a unit that is no route module registers nothing.
    proof fn lemma_plan_registers_nothing(self)
        requires
            !(self is Route),
        ensures
            !registers(self.plan()),
        decreases self.rank(), self.dependencies().len() + 1,
    {
        self.lemma_prefix_registers_nothing(self.dependencies().len());
        self.lemma_own_registers();
        lemma_registers_concat(self.plan_prefix(self.dependencies().len()), self.own_actions());
    }

    /// The installations of a unit's dependencies register nothing: every dependency is an atom.
    proof fn lemma_prefix_registers_nothing(self, k: nat)
        ensures
            !registers(self.plan_prefix(k)),
        decreases self.rank(), k,
    {
        if k == 0 || k > self.dependencies().len() {
        } else {
            self.lemma_dependencies_rank();
            self.lemma_prefix_registers_nothing((k - 1) as nat);
            self.dependencies()[k - 1].lemma_plan_registers_nothing();
            lemma_registers_concat(
                self.plan_prefix((k - 1) as nat),
                self.dependencies()[k - 1].plan(),
            );
        }
    }

    /// Whether `d` is installed, directly or through other units, before this unit.
    pub open spec fn depends_on(self, d: Unit) -> bool
        decreases self.rank(),
    {
        exists|i: int|
            0 <= i < self.dependencies().len() && (#[trigger] self.dependencies()[i] == d
                || self.dependencies()[i].depends_on(d))
    }

    /// The unit's own actions write its destination and no other path.
    proof fn lemma_own_writes(self, p: Seq<Seq<char>>)
        ensures
            writes(self.own_actions(), p) <==> p == self.destination(),
    {
        let own = self.own_actions();
        let first = own.drop_last();
        assert(first.drop_last() =~= Seq::<Action>::empty());
        assert(!writes(first.drop_last(), p));
        assert(writes(first, p) == writes_to(first.last(), p));
        assert(writes(own, p) == (writes(first, p) || writes_to(own.last(), p)));
    }

    /// A unit's installation writes its destination.
    proof fn lemma_plan_writes_own(self)
        ensures
            writes(self.plan(), self.destination()),
    {
        self.lemma_own_writes(self.destination());
        lemma_writes_concat(
            self.plan_prefix(self.dependencies().len()),
            self.own_actions(),
            self.destination(),
        );
    }

    /// A unit's installation writes no destination of a unit of higher rank.
    proof fn lemma_plan_avoids(self, v: Unit)
        requires
            v.rank() > self.rank(),
        ensures
            !writes(self.plan(), v.destination()),
        decreases self.rank(), self.dependencies().len() + 1,
    {
        self.lemma_prefix_avoids(self.dependencies().len(), v);
        self.lemma_own_writes(v.destination());
        self.lemma_destination_injective(v);
        lemma_writes_concat(
            self.plan_prefix(self.dependencies().len()),
            self.own_actions(),
            v.destination(),
        );
    }

    /// The installations of a unit's dependencies write no destination of a unit whose rank is at
    /// least the unit's own.
    proof fn lemma_prefix_avoids(self, k: nat, v: Unit)
        requires
            v.rank() >= self.rank(),
        ensures
            !writes(self.plan_prefix(k), v.destination()),
        decreases self.rank(), k,
    {
        if k == 0 || k > self.dependencies().len() {
        } else {
            self.lemma_dependencies_rank();
            self.lemma_prefix_avoids((k - 1) as nat, v);
            self.dependencies()[k - 1].lemma_plan_avoids(v);
            lemma_writes_concat(
                self.plan_prefix((k - 1) as nat),
                self.dependencies()[k - 1].plan(),
                v.destination(),
            );
        }
    }

    /// What the installation of a dependency writes, the installations of the dependencies write.
    proof fn lemma_prefix_includes(self, k: nat, i: int, p: Seq<Seq<char>>)
        requires
            0 <= i < k <= self.dependencies().len(),
            writes(self.dependencies()[i].plan(), p),
        ensures
            writes(self.plan_prefix(k), p),
        decreases k,
    {
        lemma_writes_concat(
            self.plan_prefix((k - 1) as nat),
            self.dependencies()[k - 1].plan(),
            p,
        );
        if i < k - 1 {
            self.lemma_prefix_includes((k - 1) as nat, i, p);
        }
    }

    /// A unit's installation writes the destination of everything that it depends on.
    proof fn lemma_plan_writes_dependency(self, d: Unit)
        requires
            self.depends_on(d),
        ensures
            writes(self.plan(), d.destination()),
        decreases self.rank(),
    {
        let i = choose|i: int|
            0 <= i < self.dependencies().len() && (#[trigger] self.dependencies()[i] == d
                || self.dependencies()[i].depends_on(d));
        let dep = self.dependencies()[i];
        self.lemma_dependencies_rank();
        if dep == d {
            d.lemma_plan_writes_own();
        } else {
            dep.lemma_plan_writes_dependency(d);
        }
        self.lemma_prefix_includes(self.dependencies().len(), i, d.destination());
        lemma_writes_concat(
            self.plan_prefix(self.dependencies().len()),
            self.own_actions(),
            d.destination(),
        );
    }
}

/// Installing a unit where its destination holds no file leaves a file there that holds exactly
/// the unit's contents.
pub proof fn install_writes_declared_contents(files: Map<Seq<Seq<char>>, Seq<char>>, u: Unit)
    requires
        !files.contains_key(u.destination()),
    ensures
        apply(files, u.plan()).contains_key(u.destination()),
        apply(files, u.plan())[u.destination()] == u.contents(),
{
    let prefix = u.plan_prefix(u.dependencies().len());
    let own = u.own_actions();
    u.lemma_destination_not_api_index();
    u.lemma_prefix_avoids(u.dependencies().len(), u);
    lemma_apply_frame(files, prefix);
    lemma_apply_concat(files, prefix, own);
    let mid = apply(files, prefix);
    let first = own.drop_last();
    assert(first.drop_last() =~= Seq::<Action>::empty());
    assert(apply(mid, first.drop_last()) == mid);
    assert(apply(mid, first) == apply_action(mid, first.last()));
    assert(apply(mid, own) == apply_action(apply(mid, first), own.last()));
}

/// Installing a unit a second time leaves the files as the first installation left them.
pub proof fn install_is_idempotent(files: Map<Seq<Seq<char>>, Seq<char>>, u: Unit)
    ensures
        apply(apply(files, u.plan()), u.plan()) == apply(files, u.plan()),
{
    if u is Route {
        assert(u.plan() =~= u.own_actions());
        lemma_write_register_twice(files, u.plan());
    } else {
        u.lemma_plan_registers_nothing();
        lemma_apply_twice(files, u.plan());
    }
}

/// After a unit's installation, a file is at the destination of every unit that it depends on,
/// directly or through others.
pub proof fn install_writes_every_dependency(
    files: Map<Seq<Seq<char>>, Seq<char>>,
    u: Unit,
    d: Unit,
)
    requires
        u.depends_on(d),
    ensures
        apply(files, u.plan()).contains_key(d.destination()),
{
    u.lemma_plan_writes_dependency(d);
    lemma_apply_frame(files, u.plan());
}

/// Installing a unit never changes a file that was already there; the api aggregator, which a
/// route module's registration rewrites, aside.
pub proof fn install_never_overwrites(
    files: Map<Seq<Seq<char>>, Seq<char>>,
    u: Unit,
    p: Seq<Seq<char>>,
)
    requires
        files.contains_key(p),
        p != api_index_path(),
    ensures
        apply(files, u.plan()).contains_key(p),
        apply(files, u.plan())[p] == files[p],
{
    lemma_apply_frame(files, u.plan());
}

} // verus!
