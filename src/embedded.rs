//! The manifest embedded in the doc comments of a single-file package: which
//! lines of the comments it is made of, and which keys it may not hold.
use vstd::prelude::*;

use crate::text::{push_char, same_text};

verus! {

/// Whether `c` has the Unicode `White_Space` property.
pub open spec fn is_white_space(c: char) -> bool {
    ('\u{9}' <= c <= '\u{d}') || c == ' ' || c == '\u{85}' || c == '\u{a0}' || c == '\u{1680}'
        || ('\u{2000}' <= c <= '\u{200a}') || c == '\u{2028}' || c == '\u{2029}' || c == '\u{202f}'
        || c == '\u{205f}' || c == '\u{3000}'
}

/// `s` without its leading white space.
pub open spec fn trimmed_start(s: Seq<char>) -> Seq<char>
    decreases s.len(),
{
    if s.len() > 0 && is_white_space(s[0]) {
        trimmed_start(s.drop_first())
    } else {
        s
    }
}

/// `s` without its trailing white space.
pub open spec fn trimmed_end(s: Seq<char>) -> Seq<char>
    decreases s.len(),
{
    if s.len() > 0 && is_white_space(s.last()) {
        trimmed_end(s.drop_last())
    } else {
        s
    }
}

/// `s` without its leading and trailing white space.
pub open spec fn trimmed(s: Seq<char>) -> Seq<char> {
    trimmed_end(trimmed_start(s))
}

/// Relies on `str::trim`: the string without its leading and trailing
/// whitespace, which std defines as the Unicode `White_Space` property.
#[verifier::external_body]
fn trim(s: &str) -> (r: &str)
    ensures
        r@ == trimmed(s@),
{
    s.trim()
}

/// The pieces of `s` between newlines: one more than the newlines it holds.
pub open spec fn split_lines(s: Seq<char>) -> Seq<Seq<char>>
    decreases s.len(),
{
    if s.len() == 0 {
        seq![seq![]]
    } else {
        let init = split_lines(s.drop_last());
        if s.last() == '\n' {
            init.push(seq![])
        } else {
            init.update(init.len() - 1, init.last().push(s.last()))
        }
    }
}

proof fn lemma_split_lines_nonempty(s: Seq<char>)
    ensures
        split_lines(s).len() >= 1,
    decreases s.len(),
{
    if s.len() > 0 {
        lemma_split_lines_nonempty(s.drop_last());
    }
}

/// `s` without the repeated prefix ` * ` that block comments put on lines.
pub open spec fn strip_stars(s: Seq<char>) -> Seq<char>
    decreases s.len(),
{
    if s.len() >= 3 && s[0] == ' ' && s[1] == '*' && s[2] == ' ' {
        strip_stars(s.subrange(3, s.len() as int))
    } else {
        s
    }
}

/// Whether a markdown code fence starts at `i` in `s`.
pub open spec fn fence_at(s: Seq<char>, i: int) -> bool {
    0 <= i && i + 3 <= s.len() && s[i] == '`' && s[i + 1] == '`' && s[i + 2] == '`'
}

/// Whether `s` holds a markdown code fence.
pub open spec fn has_fence(s: Seq<char>) -> bool {
    exists|i: int| fence_at(s, i)
}

/// Whether a trimmed doc line belongs to the manifest.
pub open spec fn is_manifest_line(t: Seq<char>) -> bool {
    t.len() > 0 && !has_fence(t)
}

/// The manifest lines among `ts`, each ended by a newline.
pub open spec fn joined_lines(ts: Seq<Seq<char>>) -> Seq<char>
    decreases ts.len(),
{
    if ts.len() == 0 {
        seq![]
    } else {
        joined_lines(ts.drop_last()) + if is_manifest_line(ts.last()) {
            ts.last().push('\n')
        } else {
            seq![]
        }
    }
}

/// The trimmed doc lines: one block comment is split into lines and loses its
/// ` * ` decoration; line comments give one line each.
pub open spec fn doc_lines(docs: Seq<Seq<char>>) -> Seq<Seq<char>> {
    if docs.len() == 1 {
        split_lines(docs[0]).map_values(|l: Seq<char>| trimmed(strip_stars(l)))
    } else {
        docs.map_values(|l: Seq<char>| trimmed(l))
    }
}

/// The manifest embedded in the doc comments `docs`.
pub open spec fn spec_embedded_manifest(docs: Seq<Seq<char>>) -> Seq<char> {
    joined_lines(doc_lines(docs))
}

fn split_on_newlines(s: &str) -> (r: Vec<String>)
    ensures
        r@.map_values(|l: String| l@) == split_lines(s@),
{
    let n = s.unicode_len();
    let mut lines: Vec<String> = Vec::new();
    let mut current = String::new();
    let mut i: usize = 0;
    assert(s@.subrange(0, 0) =~= Seq::<char>::empty());
    assert(lines@.map_values(|l: String| l@).push(current@) =~= split_lines(s@.subrange(0, 0)));
    while i < n
        invariant
            n == s@.len(),
            i <= n,
            lines@.map_values(|l: String| l@).push(current@) == split_lines(s@.subrange(0, i as int)),
        decreases n - i,
    {
        let c = s.get_char(i);
        let ghost prefix = s@.subrange(0, i as int);
        assert(s@.subrange(0, i + 1).drop_last() =~= prefix);
        proof {
            lemma_split_lines_nonempty(prefix);
        }
        let ghost before = lines@.map_values(|l: String| l@);
        if c == '\n' {
            let done = current;
            current = String::new();
            lines.push(done);
            assert(lines@.map_values(|l: String| l@).push(current@) =~= split_lines(prefix).push(seq![]));
        } else {
            push_char(&mut current, c);
            assert(lines@.map_values(|l: String| l@).push(current@) =~= split_lines(prefix).update(
                split_lines(prefix).len() - 1,
                split_lines(prefix).last().push(c),
            ));
        }
        i = i + 1;
    }
    assert(s@.subrange(0, n as int) =~= s@);
    lines.push(current);
    lines
}

fn strip_star_prefix(s: &str) -> (r: &str)
    ensures
        r@ == strip_stars(s@),
{
    let n = s.unicode_len();
    let mut i: usize = 0;
    assert(s@.subrange(0, n as int) =~= s@);
    while n - i >= 3 && s.get_char(i) == ' ' && s.get_char(i + 1) == '*' && s.get_char(i + 2) == ' '
        invariant
            n == s@.len(),
            i <= n,
            strip_stars(s@) == strip_stars(s@.subrange(i as int, n as int)),
        decreases n - i,
    {
        let ghost rest = s@.subrange(i as int, n as int);
        assert(rest.subrange(3, rest.len() as int) =~= s@.subrange(i + 3, n as int));
        i = i + 3;
    }
    let r = s.substring_char(i, n);
    let ghost rest = s@.subrange(i as int, n as int);
    assert(!(rest.len() >= 3 && rest[0] == ' ' && rest[1] == '*' && rest[2] == ' '));
    r
}

fn contains_fence(s: &str) -> (r: bool)
    ensures
        r == has_fence(s@),
{
    let n = s.unicode_len();
    let mut i: usize = 0;
    while n >= 3 && i <= n - 3
        invariant
            n == s@.len(),
            i <= n,
            forall|j: int| 0 <= j < i ==> !fence_at(s@, j),
        decreases n - i,
    {
        if s.get_char(i) == '`' && s.get_char(i + 1) == '`' && s.get_char(i + 2) == '`' {
            assert(fence_at(s@, i as int));
            return true;
        }
        i = i + 1;
    }
    assert forall|j: int| !fence_at(s@, j) by {
        if 0 <= j && j + 3 <= n {
            assert(j < i || n < 3);
        }
    }
    false
}

/// Appends `line` and a newline to `out` where `line` belongs to the manifest.
fn add_line(out: &mut String, line: &str)
    ensures
        final(out)@ == old(out)@ + if is_manifest_line(line@) {
            line@.push('\n')
        } else {
            seq![]
        },
{
    let keep = line.unicode_len() > 0 && !contains_fence(line);
    if keep {
        out.append(line);
        push_char(out, '\n');
        assert(final(out)@ =~= old(out)@ + line@.push('\n'));
    } else {
        assert(final(out)@ =~= old(out)@ + Seq::<char>::empty());
    }
}

/// The manifest embedded in the doc comments `docs` of a single-file package:
/// the lines that are neither empty nor code fences, trimmed, each ended by a
/// newline.
pub fn embedded_manifest(docs: &Vec<String>) -> (r: String)
    ensures
        r@ == spec_embedded_manifest(docs@.map_values(|d: String| d@)),
{
    let ghost views = docs@.map_values(|d: String| d@);
    let mut out = String::new();
    if docs.len() == 1 {
        let lines = split_on_newlines(docs[0].as_str());
        let ghost pieces = lines@.map_values(|l: String| l@);
        let ghost ts = pieces.map_values(|l: Seq<char>| trimmed(strip_stars(l)));
        assert(ts == doc_lines(views));
        let mut i: usize = 0;
        while i < lines.len()
            invariant
                pieces == lines@.map_values(|l: String| l@),
                ts == pieces.map_values(|l: Seq<char>| trimmed(strip_stars(l))),
                i <= lines@.len(),
                out@ == joined_lines(ts.subrange(0, i as int)),
            decreases lines@.len() - i,
        {
            let t = trim(strip_star_prefix(lines[i].as_str()));
            assert(ts.subrange(0, i + 1).drop_last() =~= ts.subrange(0, i as int));
            add_line(&mut out, t);
            i = i + 1;
        }
        assert(ts.subrange(0, ts.len() as int) =~= ts);
    } else {
        let ghost ts = views.map_values(|l: Seq<char>| trimmed(l));
        assert(ts == doc_lines(views));
        let mut i: usize = 0;
        while i < docs.len()
            invariant
                views == docs@.map_values(|d: String| d@),
                ts == views.map_values(|l: Seq<char>| trimmed(l)),
                i <= docs@.len(),
                out@ == joined_lines(ts.subrange(0, i as int)),
            decreases docs@.len() - i,
        {
            let t = trim(docs[i].as_str());
            assert(ts.subrange(0, i + 1).drop_last() =~= ts.subrange(0, i as int));
            add_line(&mut out, t);
            i = i + 1;
        }
        assert(ts.subrange(0, ts.len() as int) =~= ts);
    }
    out
}

/// Top-level keys that an embedded manifest may not hold.
pub open spec fn disallowed_top_keys() -> Seq<Seq<char>> {
    seq!["workspace"@, "lib"@, "bin"@, "example"@, "test"@, "bench"@]
}

/// Keys of `[package]` that an embedded manifest may not hold.
pub open spec fn disallowed_package_keys() -> Seq<Seq<char>> {
    seq!["workspace"@, "build"@, "links"@, "autobins"@, "autoexamples"@, "autotests"@, "autobenches"@]
}

/// The first of `list` that `keys` holds, if any.
pub open spec fn first_present(list: Seq<Seq<char>>, keys: Seq<Seq<char>>) -> Option<Seq<char>>
    decreases list.len(),
{
    if list.len() == 0 {
        None
    } else if keys.contains(list[0]) {
        Some(list[0])
    } else {
        first_present(list.drop_first(), keys)
    }
}

/// The error for the keys `keys` of an embedded manifest's top level, or of
/// its `[package]` table where `in_package` holds: the first disallowed key,
/// in the order of the lists above, named in the message.
pub open spec fn spec_disallowed_key_error(keys: Seq<Seq<char>>, in_package: bool) -> Option<Seq<char>> {
    if in_package {
        match first_present(disallowed_package_keys(), keys) {
            Some(k) => Some("`package."@ + k + "` is not allowed in embedded manifests"@),
            None => None,
        }
    } else {
        match first_present(disallowed_top_keys(), keys) {
            Some(k) => Some("`"@ + k + "` is not allowed in embedded manifests"@),
            None => None,
        }
    }
}

fn holds_key(keys: &Vec<String>, key: &str) -> (r: bool)
    ensures
        r == keys@.map_values(|k: String| k@).contains(key@),
{
    let ghost views = keys@.map_values(|k: String| k@);
    let mut i: usize = 0;
    while i < keys.len()
        invariant
            views == keys@.map_values(|k: String| k@),
            i <= keys@.len(),
            forall|j: int| 0 <= j < i ==> views[j] != key@,
        decreases keys@.len() - i,
    {
        if same_text(keys[i].as_str(), key) {
            assert(views[i as int] == key@);
            return true;
        }
        i = i + 1;
    }
    assert(!views.contains(key@)) by {
        if views.contains(key@) {
            let k = choose|k: int| 0 <= k < views.len() && views[k] == key@;
            assert(views[k] != key@);
        }
    }
    false
}

/// The first of `list` that `keys` holds, if any.
fn first_held<'a>(keys: &Vec<String>, list: &[&'a str]) -> (r: Option<&'a str>)
    ensures
        r matches Some(k) ==> first_present(
            list@.map_values(|s: &str| s@),
            keys@.map_values(|k: String| k@),
        ) == Some(k@),
        r is None ==> first_present(
            list@.map_values(|s: &str| s@),
            keys@.map_values(|k: String| k@),
        ) is None,
{
    let ghost views = keys@.map_values(|k: String| k@);
    let ghost wanted = list@.map_values(|s: &str| s@);
    assert(wanted.subrange(0, wanted.len() as int) =~= wanted);
    let mut i: usize = 0;
    while i < list.len()
        invariant
            views == keys@.map_values(|k: String| k@),
            wanted == list@.map_values(|s: &str| s@),
            i <= list@.len(),
            first_present(wanted, views) == first_present(wanted.subrange(i as int, wanted.len() as int), views),
        decreases list@.len() - i,
    {
        let ghost rest = wanted.subrange(i as int, wanted.len() as int);
        assert(rest[0] == list@[i as int]@);
        if holds_key(keys, list[i]) {
            return Some(list[i]);
        }
        assert(rest.drop_first() =~= wanted.subrange(i + 1, wanted.len() as int));
        i = i + 1;
    }
    None
}

/// The error for a disallowed key among the keys `keys` of an embedded
/// manifest's top level, or of its `[package]` table where `in_package`
/// holds.
pub fn disallowed_key_error(keys: &Vec<String>, in_package: bool) -> (r: Option<String>)
    ensures
        r matches Some(m) ==> spec_disallowed_key_error(keys@.map_values(|k: String| k@), in_package)
            == Some(m@),
        r is None ==> spec_disallowed_key_error(keys@.map_values(|k: String| k@), in_package) is None,
{
    if in_package {
        let list = ["workspace", "build", "links", "autobins", "autoexamples", "autotests", "autobenches"];
        assert(list@.map_values(|s: &str| s@) =~= disallowed_package_keys());
        match first_held(keys, &list) {
            Some(k) => Some(
                String::from_str("`package.").concat(k).concat("` is not allowed in embedded manifests"),
            ),
            None => None,
        }
    } else {
        let list = ["workspace", "lib", "bin", "example", "test", "bench"];
        assert(list@.map_values(|s: &str| s@) =~= disallowed_top_keys());
        match first_held(keys, &list) {
            Some(k) => Some(
                String::from_str("`").concat(k).concat("` is not allowed in embedded manifests"),
            ),
            None => None,
        }
    }
}

} // verus!
