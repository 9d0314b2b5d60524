use vstd::prelude::*;
use crate::api_index::{api_index_update_is_idempotent, spec_update_api_index};
use crate::install::Action;

verus! {

/// Whether an action writes a file at `path`.
pub open spec fn writes_to(a: Action, path: Seq<Seq<char>>) -> bool {
    match a {
        Action::WriteFile { path: p, .. } => p == path,
        _ => false,
    }
}

/// Whether some action of `s` writes a file at `path`.
pub open spec fn writes(s: Seq<Action>, path: Seq<Seq<char>>) -> bool
    decreases s.len(),
{
    s.len() > 0 && (writes(s.drop_last(), path) || writes_to(s.last(), path))
}

/// The path of the api aggregator, `client/src/devano/api/index.ts`.
pub open spec fn api_index_path() -> Seq<Seq<char>> {
    seq!["client"@, "src"@, "devano"@, "api"@, "index.ts"@]
}

/// Whether an action registers a route module.
pub open spec fn is_registration(a: Action) -> bool {
    match a {
        Action::RegisterApi { .. } => true,
        _ => false,
    }
}

/// Whether some action of `s` registers a route module.
pub open spec fn registers(s: Seq<Action>) -> bool
    decreases s.len(),
{
    s.len() > 0 && (registers(s.drop_last()) || is_registration(s.last()))
}

/// The project's files after one action of a successful run, as a map from path to contents. A
/// write lands only where no file is. A registration rewrites the api aggregator. Where the
/// aggregator is missing or has no `api` object, a real run stops with an error at that step;
/// the model then leaves the files as they are, which is what that failed step did to them. The
/// package check changes no file that is modelled here.
pub open spec fn apply_action(
    files: Map<Seq<Seq<char>>, Seq<char>>,
    a: Action,
) -> Map<Seq<Seq<char>>, Seq<char>> {
    match a {
        Action::WriteFile { path, contents } => if files.contains_key(path) {
            files
        } else {
            files.insert(path, contents)
        },
        Action::RegisterApi { module_name, folder_path } => if files.contains_key(
            api_index_path(),
        ) {
            match spec_update_api_index(files[api_index_path()], module_name, folder_path) {
                Some(text) => files.insert(api_index_path(), text),
                None => files,
            }
        } else {
            files
        },
        _ => files,
    }
}

/// The project's files after a sequence of actions, carried out in order.
pub open spec fn apply(
    files: Map<Seq<Seq<char>>, Seq<char>>,
    s: Seq<Action>,
) -> Map<Seq<Seq<char>>, Seq<char>>
    decreases s.len(),
{
    if s.len() == 0 {
        files
    } else {
        apply_action(apply(files, s.drop_last()), s.last())
    }
}

/// Carrying out `s + t` is carrying out `s`, then `t`.
pub proof fn lemma_apply_concat(
    files: Map<Seq<Seq<char>>, Seq<char>>,
    s: Seq<Action>,
    t: Seq<Action>,
)
    ensures
        apply(files, s + t) == apply(apply(files, s), t),
    decreases t.len(),
{
    if t.len() == 0 {
        assert(s + t =~= s);
    } else {
        lemma_apply_concat(files, s, t.drop_last());
        assert((s + t).drop_last() =~= s + t.drop_last());
    }
}

/// `s + t` writes at a path exactly when `s` or `t` does.
pub proof fn lemma_writes_concat(s: Seq<Action>, t: Seq<Action>, path: Seq<Seq<char>>)
    ensures
        writes(s + t, path) <==> writes(s, path) || writes(t, path),
    decreases t.len(),
{
    if t.len() == 0 {
        assert(s + t =~= s);
    } else {
        lemma_writes_concat(s, t.drop_last(), path);
        assert((s + t).drop_last() =~= s + t.drop_last());
    }
}

/// `s + t` registers a route module exactly when `s` or `t` does.
pub proof fn lemma_registers_concat(s: Seq<Action>, t: Seq<Action>)
    ensures
        registers(s + t) <==> registers(s) || registers(t),
    decreases t.len(),
{
    if t.len() == 0 {
        assert(s + t =~= s);
    } else {
        lemma_registers_concat(s, t.drop_last());
        assert((s + t).drop_last() =~= s + t.drop_last());
    }
}

/// After `s`, a file is at a path exactly when one was there before or `s` writes there; and a
/// file that was there before keeps its contents, the api aggregator aside.
pub proof fn lemma_apply_frame(files: Map<Seq<Seq<char>>, Seq<char>>, s: Seq<Action>)
    ensures
        forall|p: Seq<Seq<char>>| #[trigger]
            apply(files, s).contains_key(p) <==> files.contains_key(p) || writes(s, p),
        forall|p: Seq<Seq<char>>|
            files.contains_key(p) && p != api_index_path() ==> #[trigger] apply(files, s)[p]
                == files[p],
    decreases s.len(),
{
    if s.len() > 0 {
        let prev = apply(files, s.drop_last());
        lemma_apply_frame(files, s.drop_last());
        assert forall|p: Seq<Seq<char>>| #[trigger]
            apply(files, s).contains_key(p) <==> files.contains_key(p) || writes(s, p) by {
            assert(apply(files, s) == apply_action(prev, s.last()));
            assert(writes(s, p) == (writes(s.drop_last(), p) || writes_to(s.last(), p)));
        }
        assert forall|p: Seq<Seq<char>>| files.contains_key(p) && p != api_index_path() implies #[trigger] apply(
            files,
            s,
        )[p] == files[p] by {
            assert(prev.contains_key(p));
            assert(apply(files, s) == apply_action(prev, s.last()));
        }
    }
}

/// Carrying out `s` changes nothing where `s` registers no route module and every path that it
/// writes already holds a file.
pub proof fn lemma_apply_settled(files: Map<Seq<Seq<char>>, Seq<char>>, s: Seq<Action>)
    requires
        !registers(s),
        forall|p: Seq<Seq<char>>| writes(s, p) ==> files.contains_key(p),
    ensures
        apply(files, s) == files,
    decreases s.len(),
{
    if s.len() > 0 {
        assert forall|p: Seq<Seq<char>>| writes(s.drop_last(), p) implies files.contains_key(p) by {
            assert(writes(s, p));
        }
        lemma_apply_settled(files, s.drop_last());
        match s.last() {
            Action::WriteFile { path, contents } => {
                assert(writes_to(s.last(), path));
                assert(writes(s, path));
            },
            _ => {},
        }
    }
}

/// Carrying out the same actions a second time changes nothing, where they register no route
/// module.
pub proof fn lemma_apply_twice(files: Map<Seq<Seq<char>>, Seq<char>>, s: Seq<Action>)
    requires
        !registers(s),
    ensures
        apply(apply(files, s), s) == apply(files, s),
{
    lemma_apply_frame(files, s);
    lemma_apply_settled(apply(files, s), s);
}

/// Carrying out a write, then a registration, a second time changes nothing.
pub proof fn lemma_write_register_twice(
    files: Map<Seq<Seq<char>>, Seq<char>>,
    s: Seq<Action>,
)
    requires
        s.len() == 2,
        s[0] is WriteFile,
        is_registration(s[1]),
    ensures
        apply(apply(files, s), s) == apply(files, s),
{
    lemma_apply_two(files, s);
    let once = apply(files, s);
    lemma_apply_two(once, s);
    let written = apply_action(files, s[0]);
    match s[0] {
        Action::WriteFile { path, contents } => {
            assert(written.contains_key(path));
            assert(once.contains_key(path));
            assert(apply_action(once, s[0]) == once);
        },
        _ => {},
    }
    match s[1] {
        Action::RegisterApi { module_name, folder_path } => {
            let agg = api_index_path();
            if written.contains_key(agg) {
                match spec_update_api_index(written[agg], module_name, folder_path) {
                    Some(text) => {
                        api_index_update_is_idempotent(written[agg], module_name, folder_path);
                        assert(once[agg] == text);
                        assert(once.insert(agg, text) =~= once);
                    },
                    None => {},
                }
            }
        },
        _ => {},
    }
}

/// Carrying out two actions is carrying out the first, then the second.
proof fn lemma_apply_two(files: Map<Seq<Seq<char>>, Seq<char>>, s: Seq<Action>)
    requires
        s.len() == 2,
    ensures
        apply(files, s) == apply_action(apply_action(files, s[0]), s[1]),
{
    let first = s.drop_last();
    assert(first.drop_last() =~= Seq::<Action>::empty());
    assert(apply(files, first.drop_last()) == files);
    assert(first.last() == s[0]);
    assert(apply(files, first) == apply_action(files, s[0]));
    assert(apply(files, s) == apply_action(apply(files, first), s.last()));
}

} // verus!
