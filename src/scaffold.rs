use vstd::prelude::*;
use crate::install::str_views;

pub mod client;
pub mod server;

verus! {

/// The mathematical value of a file of a new project.
pub struct FileInstructionView {
    pub name: &'static str,
    pub filename: &'static str,
    pub folder_tree: Seq<&'static str>,
    pub contents: &'static str,
}

/// The mathematical value of a command run in a new project.
pub struct BashInstructionView {
    pub name: &'static str,
    pub command: &'static str,
    pub args: Seq<&'static str>,
}

/// Why a new project could not be made.
#[derive(Debug, Clone, Copy, PartialEq, Eq, Structural)]
pub enum ScaffoldError {
    /// The project name is empty.
    EmptyProjectName,
    /// A command run in the client folder failed.
    ClientCommandFailed,
    /// A command run in the server folder failed.
    ServerCommandFailed,
}

/// Accepts a project name unless it is empty.
pub fn validate_project_name(name: &str) -> (r: Result<(), ScaffoldError>)
    ensures
        name@.len() == 0 <==> r == Err::<(), ScaffoldError>(ScaffoldError::EmptyProjectName),
        name@.len() > 0 <==> r is Ok,
{
    if name.is_empty() {
        Err(ScaffoldError::EmptyProjectName)
    } else {
        Ok(())
    }
}

/// The path, segment by segment, of a file of a new project: the project folder, the side
/// (`client` or `server`), the file's folders, then its name.
pub open spec fn spec_scaffold_path(
    project: Seq<char>,
    side: Seq<char>,
    folder_tree: Seq<&'static str>,
    filename: Seq<char>,
) -> Seq<Seq<char>> {
    seq![project, side] + str_views(folder_tree) + seq![filename]
}

/// Returns the path, segment by segment, of a file of a new project.
pub fn scaffold_path(
    project: &str,
    side: &str,
    folder_tree: &Vec<&'static str>,
    filename: &str,
) -> (r: Vec<String>)
    ensures
        r@.map_values(|s: String| s@) == spec_scaffold_path(
            project@,
            side@,
            folder_tree@,
            filename@,
        ),
{
    let mut r: Vec<String> = vec![String::from_str(project), String::from_str(side)];
    let mut i: usize = 0;
    while i < folder_tree.len()
        invariant
            i <= folder_tree@.len(),
            r@.map_values(|s: String| s@) == seq![project@, side@] + str_views(
                folder_tree@.subrange(0, i as int),
            ),
        decreases folder_tree@.len() - i,
    {
        let segment = String::from_str(folder_tree[i]);
        let ghost before = r@;
        r.push(segment);
        i += 1;
        proof {
            assert(r@ == before.push(segment));
            assert(before.map_values(|s: String| s@) == seq![project@, side@] + str_views(
                folder_tree@.subrange(0, i - 1),
            ));
            assert(str_views(folder_tree@.subrange(0, i as int)) =~= str_views(
                folder_tree@.subrange(0, i - 1),
            ).push(folder_tree@[i - 1]@));
            assert(seq![project@, side@] + str_views(folder_tree@.subrange(0, i as int)) =~= (seq![
                project@,
                side@,
            ] + str_views(folder_tree@.subrange(0, i - 1))).push(folder_tree@[i - 1]@));
            assert(r@.map_values(|s: String| s@) =~= before.map_values(|s: String| s@).push(
                segment@,
            ));
            assert(r@.map_values(|s: String| s@) =~= seq![project@, side@] + str_views(
                folder_tree@.subrange(0, i as int),
            ));
        }
    }
    let last = String::from_str(filename);
    let ghost before = r@;
    r.push(last);
    proof {
        assert(r@ == before.push(last));
        assert(folder_tree@.subrange(0, folder_tree@.len() as int) =~= folder_tree@);
        assert(r@.map_values(|s: String| s@) =~= spec_scaffold_path(
            project@,
            side@,
            folder_tree@,
            filename@,
        ));
    }
    r
}

/// Whether every command of a run succeeded.
pub open spec fn all_succeeded(statuses: Seq<bool>) -> bool {
    forall|i: int| 0 <= i < statuses.len() ==> #[trigger] statuses[i]
}

/// Returns whether every status is a success.
fn every_success(statuses: &Vec<bool>) -> (r: bool)
    ensures
        r == all_succeeded(statuses@),
{
    let mut i: usize = 0;
    while i < statuses.len()
        invariant
            i <= statuses@.len(),
            forall|j: int| 0 <= j < i ==> #[trigger] statuses@[j],
        decreases statuses@.len() - i,
    {
        if !statuses[i] {
            return false;
        }
        i += 1;
    }
    true
}

/// The outcome of making a new project from the success of each command run in its client and
/// server folders: success only where every command succeeded.
pub fn project_outcome(client: &Vec<bool>, server: &Vec<bool>) -> (r: Result<(), ScaffoldError>)
    ensures
        r is Ok <==> all_succeeded(client@) && all_succeeded(server@),
        !all_succeeded(client@) ==> r == Err::<(), ScaffoldError>(
            ScaffoldError::ClientCommandFailed,
        ),
        all_succeeded(client@) && !all_succeeded(server@) ==> r == Err::<(), ScaffoldError>(
            ScaffoldError::ServerCommandFailed,
        ),
{
    if !every_success(client) {
        Err(ScaffoldError::ClientCommandFailed)
    } else if !every_success(server) {
        Err(ScaffoldError::ServerCommandFailed)
    } else {
        Ok(())
    }
}

} // verus!
