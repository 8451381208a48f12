//! Naming a single-file package after its file.
use vstd::prelude::*;

use crate::text::{one_of, push_char, str_views};

verus! {

pub open spec fn is_ascii_digit(c: char) -> bool {
    '0' <= c <= '9'
}

pub open spec fn is_ascii_lower(c: char) -> bool {
    'a' <= c <= 'z'
}

pub open spec fn is_ascii_upper(c: char) -> bool {
    'A' <= c <= 'Z'
}

pub open spec fn ascii_lower(c: char) -> char {
    ((c as u32) + 32) as char
}

/// What the character `c` at position `i` of a file stem becomes in the
/// package name: a leading digit gets a `_` before it, digits, lowercase
/// letters, `_` and `-` stay, uppercase letters are lowered, and anything else
/// becomes `_`.
pub open spec fn slug_piece(i: int, c: char) -> Seq<char> {
    if i == 0 && is_ascii_digit(c) {
        seq!['_', c]
    } else if is_ascii_digit(c) || is_ascii_lower(c) || c == '_' || c == '-' {
        seq![c]
    } else if is_ascii_upper(c) {
        seq![ascii_lower(c)]
    } else {
        seq!['_']
    }
}

pub open spec fn slug_of(stem: Seq<char>) -> Seq<char>
    decreases stem.len(),
{
    if stem.len() == 0 {
        seq![]
    } else {
        slug_of(stem.drop_last()) + slug_piece(stem.len() - 1, stem.last())
    }
}

pub open spec fn keywords() -> Seq<Seq<char>> {
    seq![
        "Self"@, "abstract"@, "as"@, "async"@, "await"@, "become"@, "box"@, "break"@, "const"@,
        "continue"@, "crate"@, "do"@, "dyn"@, "else"@, "enum"@, "extern"@, "false"@, "final"@,
        "fn"@, "for"@, "gen"@, "if"@, "impl"@, "in"@, "let"@, "loop"@, "macro"@, "match"@,
        "mod"@, "move"@, "mut"@, "override"@, "priv"@, "pub"@, "ref"@, "return"@, "self"@,
        "static"@, "struct"@, "super"@, "trait"@, "true"@, "try"@, "type"@, "typeof"@,
        "unsafe"@, "unsized"@, "use"@, "virtual"@, "where"@, "while"@, "yield"@,
    ]
}

/// Names of directories in a target directory.
pub open spec fn artifact_dir_names() -> Seq<Seq<char>> {
    seq!["deps"@, "examples"@, "build"@, "incremental"@]
}

/// Device names that Windows reserves.
pub open spec fn windows_reserved_names() -> Seq<Seq<char>> {
    seq![
        "con"@, "prn"@, "aux"@, "nul"@, "com1"@, "com2"@, "com3"@, "com4"@, "com5"@, "com6"@,
        "com7"@, "com8"@, "com9"@, "lpt1"@, "lpt2"@, "lpt3"@, "lpt4"@, "lpt5"@, "lpt6"@,
        "lpt7"@, "lpt8"@, "lpt9"@,
    ]
}

/// Names of the standard crates, and `test`.
pub open spec fn std_crate_names() -> Seq<Seq<char>> {
    seq!["test"@, "core"@, "std"@, "alloc"@, "proc_macro"@, "proc-macro"@]
}

/// Whether `slug` cannot be a package name as it is. Windows device names
/// count only where `windows` holds.
pub open spec fn is_restricted(slug: Seq<char>, windows: bool) -> bool {
    keywords().contains(slug) || artifact_dir_names().contains(slug) || (windows
        && windows_reserved_names().contains(slug)) || std_crate_names().contains(slug)
}

/// The package name for a single-file package whose file stem is `stem`.
pub open spec fn spec_package_name(stem: Seq<char>, windows: bool) -> Seq<char> {
    let slug = slug_of(stem);
    if is_restricted(slug, windows) {
        seq!['_'] + slug
    } else {
        slug
    }
}

fn restricted(slug: &str, windows: bool) -> (r: bool)
    ensures
        r == is_restricted(slug@, windows),
{
    let kw = [
        "Self", "abstract", "as", "async", "await", "become", "box", "break", "const",
        "continue", "crate", "do", "dyn", "else", "enum", "extern", "false", "final",
        "fn", "for", "gen", "if", "impl", "in", "let", "loop", "macro", "match",
        "mod", "move", "mut", "override", "priv", "pub", "ref", "return", "self",
        "static", "struct", "super", "trait", "true", "try", "type", "typeof",
        "unsafe", "unsized", "use", "virtual", "where", "while", "yield",
    ];
    assert(str_views(kw@) =~= keywords());
    let artifacts = ["deps", "examples", "build", "incremental"];
    assert(str_views(artifacts@) =~= artifact_dir_names());
    let reserved = [
        "con", "prn", "aux", "nul", "com1", "com2", "com3", "com4", "com5", "com6",
        "com7", "com8", "com9", "lpt1", "lpt2", "lpt3", "lpt4", "lpt5", "lpt6",
        "lpt7", "lpt8", "lpt9",
    ];
    assert(str_views(reserved@) =~= windows_reserved_names());
    let std_crates = ["test", "core", "std", "alloc", "proc_macro", "proc-macro"];
    assert(str_views(std_crates@) =~= std_crate_names());
    one_of(&kw, slug) || one_of(&artifacts, slug) || (windows && one_of(&reserved, slug))
        || one_of(&std_crates, slug)
}

/// A valid package name for a single-file package whose file stem is
/// `file_stem`; `windows` says whether Windows device names are avoided too.
pub fn package_name(file_stem: &str, windows: bool) -> (r: String)
    ensures
        r@ == spec_package_name(file_stem@, windows),
{
    let n = file_stem.unicode_len();
    let mut slug = String::new();
    let mut i: usize = 0;
    while i < n
        invariant
            n == file_stem@.len(),
            i <= n,
            slug@ == slug_of(file_stem@.subrange(0, i as int)),
        decreases n - i,
    {
        let c = file_stem.get_char(i);
        if i == 0 && '0' <= c && c <= '9' {
            push_char(&mut slug, '_');
            push_char(&mut slug, c);
        } else if ('0' <= c && c <= '9') || ('a' <= c && c <= 'z') || c == '_' || c == '-' {
            push_char(&mut slug, c);
        } else if 'A' <= c && c <= 'Z' {
            // Lowercase avoids `non_snake_case` warnings.
            push_char(&mut slug, ((c as u32) + 32) as u8 as char);
        } else {
            push_char(&mut slug, '_');
        }
        assert(file_stem@.subrange(0, i + 1).drop_last() =~= file_stem@.subrange(0, i as int));
        i = i + 1;
    }
    assert(file_stem@.subrange(0, n as int) =~= file_stem@);
    if restricted(slug.as_str(), windows) {
        proof {
            reveal_strlit("_");
        }
        let r = String::from_str("_").concat(slug.as_str());
        r
    } else {
        slug
    }
}

} // verus!
