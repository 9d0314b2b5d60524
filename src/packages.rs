use vstd::prelude::*;
use crate::install::str_views;
use crate::text::{chars_of, occurs, occurs_in};

verus! {

/// The names, in their order, that do not occur anywhere in the manifest's text.
pub open spec fn missing_in(manifest: Seq<char>, names: Seq<Seq<char>>) -> Seq<Seq<char>>
    decreases names.len(),
{
    if names.len() == 0 {
        seq![]
    } else if occurs_in(names.last(), manifest) {
        missing_in(manifest, names.drop_last())
    } else {
        missing_in(manifest, names.drop_last()).push(names.last())
    }
}

/// The names, in their order, that occur in none of the file names.
pub open spec fn missing_among(files: Seq<Seq<char>>, names: Seq<Seq<char>>) -> Seq<Seq<char>>
    decreases names.len(),
{
    if names.len() == 0 {
        seq![]
    } else if exists|j: int| 0 <= j < files.len() && occurs_in(names.last(), #[trigger] files[j]) {
        missing_among(files, names.drop_last())
    } else {
        missing_among(files, names.drop_last()).push(names.last())
    }
}

/// Why making sure of a project's packages failed.
#[derive(Debug, PartialEq, Eq)]
pub enum PackageError {
    /// The manifest could not be read.
    ManifestUnreadable,
    /// The package manager ran and reported a failure while adding these packages.
    InstallFailed { packages: Vec<String> },
}

/// Returns, in their order, the names among `names` that do not occur anywhere in the
/// manifest's text.
///
/// The test is by substring, as package managers' manifests are not parsed here: a name that is
/// part of a longer declared name counts as present.
pub fn missing_packages<'a>(manifest: &str, names: &Vec<&'a str>) -> (r: Vec<&'a str>)
    ensures
        str_views(r@) == missing_in(manifest@, str_views(names@)),
{
    let hay = chars_of(manifest);
    let mut r: Vec<&'a str> = Vec::new();
    let mut i: usize = 0;
    while i < names.len()
        invariant
            hay@ == manifest@,
            i <= names@.len(),
            str_views(r@) == missing_in(manifest@, str_views(names@.subrange(0, i as int))),
        decreases names@.len() - i,
    {
        let needle = chars_of(names[i]);
        let found = occurs(&needle, &hay);
        let ghost before = names@.subrange(0, i as int);
        if !found {
            r.push(names[i]);
        }
        i += 1;
        proof {
            let now = str_views(names@.subrange(0, i as int));
            assert(now.drop_last() =~= str_views(before));
            assert(now.last() == names@[i - 1]@);
            assert(str_views(r@) =~= missing_in(manifest@, now));
        }
    }
    proof {
        assert(names@.subrange(0, names@.len() as int) =~= names@);
    }
    r
}

/// Returns, in their order, the names among `names` that occur in none of the file names.
pub fn missing_from_filenames<'a>(filenames: &Vec<String>, names: &Vec<&'a str>) -> (r: Vec<&'a str>)
    ensures
        str_views(r@) == missing_among(filenames@.map_values(|f: String| f@), str_views(names@)),
{
    let ghost files = filenames@.map_values(|f: String| f@);
    let mut hays: Vec<Vec<char>> = Vec::new();
    let mut j: usize = 0;
    while j < filenames.len()
        invariant
            j <= filenames@.len(),
            hays@.len() == j,
            forall|k: int| 0 <= k < j ==> #[trigger] hays@[k]@ == filenames@[k]@,
        decreases filenames@.len() - j,
    {
        hays.push(chars_of(filenames[j].as_str()));
        j += 1;
    }
    let mut r: Vec<&'a str> = Vec::new();
    let mut i: usize = 0;
    while i < names.len()
        invariant
            i <= names@.len(),
            hays@.len() == files.len(),
            files == filenames@.map_values(|f: String| f@),
            forall|k: int| 0 <= k < hays@.len() ==> #[trigger] hays@[k]@ == files[k],
            str_views(r@) == missing_among(files, str_views(names@.subrange(0, i as int))),
        decreases names@.len() - i,
    {
        let needle = chars_of(names[i]);
        let mut found = false;
        let mut k: usize = 0;
        while k < hays.len()
            invariant
                k <= hays@.len(),
                hays@.len() == files.len(),
                forall|m: int| 0 <= m < hays@.len() ==> #[trigger] hays@[m]@ == files[m],
                found <==> exists|m: int| 0 <= m < k && occurs_in(needle@, #[trigger] files[m]),
            decreases hays@.len() - k,
        {
            if occurs(&needle, &hays[k]) {
                found = true;
            }
            k += 1;
        }
        let ghost before = names@.subrange(0, i as int);
        if !found {
            r.push(names[i]);
        }
        i += 1;
        proof {
            let now = str_views(names@.subrange(0, i as int));
            assert(now.drop_last() =~= str_views(before));
            assert(now.last() == names@[i - 1]@);
            assert(str_views(r@) =~= missing_among(files, now));
        }
    }
    proof {
        assert(names@.subrange(0, names@.len() as int) =~= names@);
    }
    r
}

/// The arguments with which the package manager adds `missing`, or `None` where nothing is
/// missing and the package manager is not run.
pub fn add_command_args<'a>(missing: &Vec<&'a str>) -> (r: Option<Vec<&'a str>>)
    ensures
        missing@.len() == 0 ==> r is None,
        missing@.len() > 0 ==> (r matches Some(args) && args@ == seq!["add"] + missing@),
{
    if missing.len() == 0 {
        return None;
    }
    let mut args: Vec<&'a str> = vec!["add"];
    let mut i: usize = 0;
    while i < missing.len()
        invariant
            i <= missing@.len(),
            args@ == seq!["add"] + missing@.subrange(0, i as int),
        decreases missing@.len() - i,
    {
        args.push(missing[i]);
        i += 1;
        proof {
            assert(args@ =~= seq!["add"] + missing@.subrange(0, i as int));
        }
    }
    proof {
        assert(missing@.subrange(0, missing@.len() as int) =~= missing@);
    }
    Some(args)
}

/// Returns the package manager's arguments that make sure that the manifest declares every one
/// of `names`: `add` followed by the missing names, or `None` where none is missing.
pub fn ensure_packages_args<'a>(manifest: &str, names: &Vec<&'a str>) -> (r: Option<Vec<&'a str>>)
    ensures
        missing_in(manifest@, str_views(names@)).len() == 0 ==> r is None,
        missing_in(manifest@, str_views(names@)).len() > 0 ==> (r matches Some(args) && str_views(
            args@,
        ) == seq!["add"@] + missing_in(manifest@, str_views(names@))),
{
    let missing = missing_packages(manifest, names);
    let r = add_command_args(&missing);
    proof {
        if r is Some {
            assert(str_views(r->0@) =~= seq!["add"@] + str_views(missing@));
        }
    }
    r
}

/// The result of the package manager's run: success, or the failure that names what it was
/// asked to add.
pub fn package_manager_outcome(succeeded: bool, missing: &Vec<&str>) -> (r: Result<(), PackageError>)
    ensures
        succeeded ==> r is Ok,
        !succeeded ==> (r matches Err(PackageError::InstallFailed { packages })
            && packages@.map_values(|p: String| p@) == str_views(missing@)),
{
    if succeeded {
        return Ok(());
    }
    let mut packages: Vec<String> = Vec::new();
    let mut i: usize = 0;
    while i < missing.len()
        invariant
            i <= missing@.len(),
            packages@.map_values(|p: String| p@) == str_views(missing@.subrange(0, i as int)),
        decreases missing@.len() - i,
    {
        let p = String::from_str(missing[i]);
        let ghost before = packages@;
        packages.push(p);
        i += 1;
        proof {
            assert(packages@ == before.push(p));
            assert(p@ == missing@[i - 1]@);
            assert(str_views(missing@.subrange(0, i as int)) =~= str_views(
                missing@.subrange(0, i - 1),
            ).push(missing@[i - 1]@));
        }
        proof {
            assert(packages@.map_values(|p: String| p@) =~= str_views(
                missing@.subrange(0, i as int),
            ));
        }
    }
    proof {
        assert(missing@.subrange(0, missing@.len() as int) =~= missing@);
    }
    Err(PackageError::InstallFailed { packages })
}

} // verus!
