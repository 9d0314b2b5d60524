use vstd::prelude::*;
use crate::text::{chars_of, occurs, occurs_in};

verus! {

/// White space as `char::is_whitespace` and `str::trim` understand it (Unicode `White_Space`).
pub open spec fn is_white(c: char) -> bool {
    c == ' ' || ('\t' <= c && c <= '\r') || c == '\u{85}' || c == '\u{a0}' || c == '\u{1680}' || (
    '\u{2000}' <= c && c <= '\u{200a}') || c == '\u{2028}' || c == '\u{2029}' || c == '\u{202f}'
        || c == '\u{205f}' || c == '\u{3000}'
}

/// The text without its leading white space.
pub open spec fn trim_start(s: Seq<char>) -> Seq<char>
    decreases s.len(),
{
    if s.len() > 0 && is_white(s[0]) {
        trim_start(s.drop_first())
    } else {
        s
    }
}

/// The text without its trailing white space.
pub open spec fn trim_end(s: Seq<char>) -> Seq<char>
    decreases s.len(),
{
    if s.len() > 0 && is_white(s.last()) {
        trim_end(s.drop_last())
    } else {
        s
    }
}

/// The text without leading and trailing white space.
pub open spec fn trim(s: Seq<char>) -> Seq<char> {
    trim_end(trim_start(s))
}

/// The pieces of the text between line feeds; there is always one more piece than line feeds.
pub open spec fn split_parts(s: Seq<char>) -> Seq<Seq<char>>
    decreases s.len(),
{
    if s.len() == 0 {
        seq![seq![]]
    } else {
        let prev = split_parts(s.drop_last());
        if s.last() == '\n' {
            prev.push(seq![])
        } else {
            prev.update(prev.len() - 1, prev.last().push(s.last()))
        }
    }
}

/// A line without the carriage return that ended it, if any.
pub open spec fn strip_cr(l: Seq<char>) -> Seq<char> {
    if l.len() > 0 && l.last() == '\r' {
        l.drop_last()
    } else {
        l
    }
}

/// The lines of the text as `str::lines` gives them: split at line feeds, a carriage return
/// before a line feed dropped, and no empty line after a final line feed.
pub open spec fn lines(s: Seq<char>) -> Seq<Seq<char>> {
    let parts = split_parts(s);
    parts.drop_last().map_values(|l: Seq<char>| strip_cr(l)) + if parts.last().len() == 0 {
        seq![]
    } else {
        seq![parts.last()]
    }
}

/// Lines joined with line feeds between them.
pub open spec fn join_lines(ls: Seq<Seq<char>>) -> Seq<char>
    decreases ls.len(),
{
    if ls.len() == 0 {
        seq![]
    } else if ls.len() == 1 {
        ls[0]
    } else {
        join_lines(ls.drop_last()) + seq!['\n'] + ls.last()
    }
}

/// The line that opens the aggregator's object.
pub const API_OPENING: &'static str = "export const api = {";

/// The position of the first line that, trimmed, opens the aggregator's object.
pub open spec fn first_api_opening(ls: Seq<Seq<char>>) -> Option<int>
    decreases ls.len(),
{
    if ls.len() == 0 {
        None
    } else {
        match first_api_opening(ls.drop_last()) {
            Some(k) => Some(k),
            None => if trim(ls.last()) == API_OPENING@ {
                Some(ls.len() - 1)
            } else {
                None
            },
        }
    }
}

/// The import line of a route module.
pub open spec fn import_line(module_name: Seq<char>, folder_path: Seq<char>) -> Seq<char> {
    "import { "@ + module_name + " } from \"./"@ + folder_path + "\";"@
}

/// The aggregator's entry for a route module.
pub open spec fn api_entry(module_name: Seq<char>) -> Seq<char> {
    "\t"@ + module_name + ","@
}

/// The aggregator after registering a route module: unchanged where its import line is already
/// there; otherwise the import line on top and the module's entry right after the line that
/// opens the object; `None` where no line opens it.
pub open spec fn spec_update_api_index(
    content: Seq<char>,
    module_name: Seq<char>,
    folder_path: Seq<char>,
) -> Option<Seq<char>> {
    let imp = import_line(module_name, folder_path);
    if occurs_in(imp, content) {
        Some(content)
    } else {
        let ls = seq![imp] + lines(content);
        match first_api_opening(ls) {
            Some(k) => Some(join_lines(ls.insert(k + 1, api_entry(module_name)))),
            None => None,
        }
    }
}

/// Why the aggregator could not be updated.
#[derive(Debug, Clone, Copy, PartialEq, Eq, Structural)]
pub enum ApiIndexError {
    /// No line of the aggregator opens its `api` object.
    MissingApiObject,
}

/// The character sequences of a list of strings.
pub open spec fn string_views(v: Seq<String>) -> Seq<Seq<char>> {
    v.map_values(|s: String| s@)
}

/// Whether `c` is white space.
fn white(c: char) -> (r: bool)
    ensures
        r == is_white(c),
{
    c == ' ' || ('\t' <= c && c <= '\r') || c == '\u{85}' || c == '\u{a0}' || c == '\u{1680}' || (
    '\u{2000}' <= c && c <= '\u{200a}') || c == '\u{2028}' || c == '\u{2029}' || c == '\u{202f}'
        || c == '\u{205f}' || c == '\u{3000}'
}

/// Whether the line, trimmed, opens the aggregator's object.
fn opens_api(line: &str) -> (r: bool)
    ensures
        r == (trim(line@) == API_OPENING@),
{
    let l = chars_of(line);
    let n = l.len();
    let mut a: usize = 0;
    proof {
        assert(l@.subrange(0, n as int) =~= l@);
    }
    while a < n && white(l[a])
        invariant
            n == l@.len(),
            a <= n,
            trim_start(l@) == trim_start(l@.subrange(a as int, n as int)),
        decreases n - a,
    {
        proof {
            assert(l@.subrange(a as int, n as int).drop_first() =~= l@.subrange(a + 1, n as int));
        }
        a += 1;
    }
    proof {
        assert(trim_start(l@.subrange(a as int, n as int)) == l@.subrange(a as int, n as int));
    }
    let mut b: usize = n;
    while b > a && white(l[b - 1])
        invariant
            n == l@.len(),
            a <= b <= n,
            trim_end(l@.subrange(a as int, n as int)) == trim_end(l@.subrange(a as int, b as int)),
        decreases b - a,
    {
        proof {
            assert(l@.subrange(a as int, b as int).drop_last() =~= l@.subrange(a as int, b - 1));
        }
        b -= 1;
    }
    proof {
        assert(trim_end(l@.subrange(a as int, b as int)) == l@.subrange(a as int, b as int));
        assert(trim(l@) == l@.subrange(a as int, b as int));
    }
    let target = chars_of(API_OPENING);
    if b - a != target.len() {
        return false;
    }
    let mut k: usize = 0;
    while k < target.len()
        invariant
            n == l@.len(),
            a <= b <= n,
            trim(line@) == l@.subrange(a as int, b as int),
            target@ == API_OPENING@,
            b - a == target@.len(),
            k <= target@.len(),
            forall|j: int| 0 <= j < k ==> l@[a + j] == target@[j],
        decreases target@.len() - k,
    {
        if l[a + k] != target[k] {
            proof {
                assert(l@.subrange(a as int, b as int)[k as int] != target@[k as int]);
            }
            return false;
        }
        k += 1;
    }
    proof {
        assert(l@.subrange(a as int, b as int) =~= target@);
    }
    true
}

/// Returns the lines of the text as `str::lines` gives them.
fn lines_of(content: &str) -> (r: Vec<String>)
    ensures
        string_views(r@) == lines(content@),
{
    let c = chars_of(content);
    let n = c.len();
    let mut r: Vec<String> = Vec::new();
    let mut start: usize = 0;
    let mut i: usize = 0;
    while i < n
        invariant
            n == c@.len(),
            c@ == content@,
            start <= i <= n,
            split_parts(c@.subrange(0, i as int)).len() == r@.len() + 1,
            string_views(r@) == split_parts(c@.subrange(0, i as int)).drop_last().map_values(
                |l: Seq<char>| strip_cr(l),
            ),
            split_parts(c@.subrange(0, i as int)).last() == c@.subrange(start as int, i as int),
        decreases n - i,
    {
        let ghost prev = split_parts(c@.subrange(0, i as int));
        proof {
            assert(c@.subrange(0, i + 1).drop_last() =~= c@.subrange(0, i as int));
        }
        if c[i] == '\n' {
            let end: usize = if i > start && c[i - 1] == '\r' { i - 1 } else { i };
            let line = String::from_str(content.substring_char(start, end));
            proof {
                assert(line@ == strip_cr(c@.subrange(start as int, i as int)));
                assert(split_parts(c@.subrange(0, i + 1)) == prev.push(seq![]));
            }
            let ghost before = r@;
            r.push(line);
            start = i + 1;
            i += 1;
            proof {
                let now = split_parts(c@.subrange(0, i as int));
                assert(now.drop_last() =~= prev);
                assert(string_views(r@) =~= string_views(before).push(line@));
                assert(prev =~= prev.drop_last().push(prev.last()));
                assert(string_views(r@) =~= now.drop_last().map_values(|l: Seq<char>| strip_cr(l)));
                assert(now.last() =~= c@.subrange(start as int, i as int));
            }
        } else {
            i += 1;
            proof {
                let now = split_parts(c@.subrange(0, i as int));
                assert(now.drop_last() =~= prev.drop_last());
                assert(now.last() =~= c@.subrange(start as int, i as int));
            }
        }
    }
    proof {
        assert(c@.subrange(0, n as int) =~= c@);
    }
    if start < n {
        let line = String::from_str(content.substring_char(start, n));
        let ghost before = r@;
        r.push(line);
        proof {
            assert(string_views(r@) =~= string_views(before).push(line@));
            assert(string_views(r@) =~= lines(content@));
        }
    } else {
        proof {
            assert(string_views(r@) =~= lines(content@));
        }
    }
    r
}

/// Returns the lines joined with line feeds between them.
fn join_with_newlines(ls: &Vec<String>) -> (r: String)
    ensures
        r@ == join_lines(string_views(ls@)),
{
    let mut r = String::new();
    let mut i: usize = 0;
    proof {
        reveal_strlit("\n");
        assert("\n"@ =~= seq!['\n']);
    }
    while i < ls.len()
        invariant
            i <= ls@.len(),
            "\n"@ == seq!['\n'],
            r@ == join_lines(string_views(ls@.subrange(0, i as int))),
        decreases ls@.len() - i,
    {
        let ghost old_r = r@;
        if i > 0 {
            r.append("\n");
        }
        r.append(ls[i].as_str());
        i += 1;
        proof {
            let now = string_views(ls@.subrange(0, i as int));
            assert(now.drop_last() =~= string_views(ls@.subrange(0, i - 1)));
            assert(now.last() == ls@[i - 1]@);
            if i == 1 {
                assert(r@ =~= join_lines(now));
            } else {
                assert(join_lines(now) == join_lines(now.drop_last()) + seq!['\n'] + now.last());
                assert(r@ =~= old_r + seq!['\n'] + ls@[i - 1]@);
            }
        }
    }
    proof {
        assert(ls@.subrange(0, ls@.len() as int) =~= ls@);
    }
    r
}

/// Registers a route module in the api aggregator's text: where its import line is already there
/// the text is returned unchanged; otherwise the import line goes on top and the module's entry
/// right after the line that opens the `api` object, and the lines are joined with line feeds.
pub fn update_api_index(content: &str, module_name: &str, folder_path: &str) -> (r: Result<
    String,
    ApiIndexError,
>)
    ensures
        match spec_update_api_index(content@, module_name@, folder_path@) {
            Some(text) => r matches Ok(s) && s@ == text,
            None => r == Err::<String, ApiIndexError>(ApiIndexError::MissingApiObject),
        },
{
    let mut imp = String::from_str("import { ");
    imp.append(module_name);
    imp.append(" } from \"./");
    imp.append(folder_path);
    imp.append("\";");
    let mut entry = String::from_str("\t");
    entry.append(module_name);
    entry.append(",");
    proof {
        assert(imp@ =~= import_line(module_name@, folder_path@));
        assert(entry@ =~= api_entry(module_name@));
    }
    if occurs(&chars_of(imp.as_str()), &chars_of(content)) {
        return Ok(String::from_str(content));
    }
    let body = lines_of(content);
    let mut ls: Vec<String> = Vec::new();
    let ghost imp_view = imp@;
    ls.push(imp);
    let mut i: usize = 0;
    while i < body.len()
        invariant
            i <= body@.len(),
            string_views(ls@) == seq![imp_view] + string_views(body@.subrange(0, i as int)),
        decreases body@.len() - i,
    {
        let line = String::from_str(body[i].as_str());
        let ghost before = ls@;
        ls.push(line);
        i += 1;
        proof {
            assert(ls@ == before.push(line));
            assert(string_views(body@.subrange(0, i as int)) =~= string_views(
                body@.subrange(0, i - 1),
            ).push(body@[i - 1]@));
            assert(line@ == body@[i - 1]@);
            assert(string_views(ls@) =~= string_views(before).push(line@));
            assert(string_views(ls@) =~= seq![imp_view] + string_views(body@.subrange(0, i as int)));
        }
    }
    proof {
        assert(body@.subrange(0, body@.len() as int) =~= body@);
    }
    let ghost all = string_views(ls@);
    proof {
        assert(all == seq![imp_view] + lines(content@));
    }
    let mut k: usize = 0;
    let mut found = false;
    while k < ls.len() && !found
        invariant
            k <= ls@.len(),
            string_views(ls@) == all,
            all.len() == ls@.len(),
            found ==> k < ls@.len() && trim(all[k as int]) == API_OPENING@,
            first_api_opening(all.subrange(0, k as int)) is None,
        decreases ls@.len() - k + (if found {
            0int
        } else {
            1int
        }),
    {
        if opens_api(ls[k].as_str()) {
            found = true;
        } else {
            proof {
                assert(all.subrange(0, k + 1).drop_last() =~= all.subrange(0, k as int));
            }
            k += 1;
        }
    }
    if !found {
        proof {
            assert(all.subrange(0, all.len() as int) =~= all);
        }
        return Err(ApiIndexError::MissingApiObject);
    }
    proof {
        lemma_first_api_opening_prefix(all, k as int);
    }
    let ghost entry_view = entry@;
    let ghost old_ls = ls@;
    ls.insert(k + 1, entry);
    proof {
        old_ls.insert_ensures(k + 1, entry);
        all.insert_ensures(k + 1, entry_view);
        assert(string_views(ls@) =~= all.insert(k + 1, entry_view));
    }
    Ok(join_with_newlines(&ls))
}

/// Where a prefix of the lines already holds the first opening line, so do all the lines.
proof fn lemma_first_api_opening_prefix(ls: Seq<Seq<char>>, k: int)
    requires
        0 <= k < ls.len(),
        first_api_opening(ls.subrange(0, k)) is None,
        trim(ls[k]) == API_OPENING@,
    ensures
        first_api_opening(ls) == Some(k),
    decreases ls.len(),
{
    if ls.len() == k + 1 {
        assert(ls.drop_last() =~= ls.subrange(0, k));
    } else {
        assert(ls.drop_last().subrange(0, k) =~= ls.subrange(0, k));
        lemma_first_api_opening_prefix(ls.drop_last(), k);
    }
}

/// Joined lines begin with the first line.
proof fn lemma_join_starts_with_first(ls: Seq<Seq<char>>)
    requires
        ls.len() > 0,
    ensures
        join_lines(ls).len() >= ls[0].len(),
        join_lines(ls).subrange(0, ls[0].len() as int) == ls[0],
    decreases ls.len(),
{
    if ls.len() > 1 {
        lemma_join_starts_with_first(ls.drop_last());
        let prev = join_lines(ls.drop_last());
        assert((prev + seq!['\n'] + ls.last()).subrange(0, ls[0].len() as int) =~= prev.subrange(
            0,
            ls[0].len() as int,
        ));
    }
}

/// Registering a route module a second time leaves the aggregator as the first registration
/// left it.
pub proof fn api_index_update_is_idempotent(
    content: Seq<char>,
    module_name: Seq<char>,
    folder_path: Seq<char>,
)
    requires
        spec_update_api_index(content, module_name, folder_path) is Some,
    ensures
        spec_update_api_index(
            spec_update_api_index(content, module_name, folder_path)->0,
            module_name,
            folder_path,
        ) == spec_update_api_index(content, module_name, folder_path),
{
    let imp = import_line(module_name, folder_path);
    if !occurs_in(imp, content) {
        let ls = seq![imp] + lines(content);
        let k = first_api_opening(ls)->0;
        let out = ls.insert(k + 1, api_entry(module_name));
        lemma_first_api_opening_bounds(ls);
        ls.insert_ensures(k + 1, api_entry(module_name));
        lemma_join_starts_with_first(out);
        let text = join_lines(out);
        assert(out[0] == imp);
        assert(text.subrange(0int, 0int + imp.len()) == imp);
        assert(occurs_in(imp, text));
    }
}

/// The first opening line is one of the lines.
proof fn lemma_first_api_opening_bounds(ls: Seq<Seq<char>>)
    ensures
        first_api_opening(ls) matches Some(k) ==> 0 <= k < ls.len(),
    decreases ls.len(),
{
    if ls.len() > 0 {
        lemma_first_api_opening_bounds(ls.drop_last());
    }
}

} // verus!
