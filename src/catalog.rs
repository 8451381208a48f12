//! The registries of known lints, lint groups and dynamic lint groups.
use vstd::prelude::*;

use crate::features::{CliUnstableFlag, Feature};
use crate::level::{Edition, LintLevel};
use crate::text::{first_named, lemma_first_named_at, lemma_first_named_none, same_text};

verus! {

/// What must hold for a lint or group to be anything but `Allow`.
///
/// The two kinds have opposite polarity: a manifest feature unlocks its lint
/// when enabled, while a command-line flag silences its lint when given.
#[derive(Copy, Clone, Debug)]
pub enum Gated {
    Cli(CliUnstableFlag),
    Feature(Feature),
}

/// A named bucket of lints that share a default level.
#[derive(Copy, Clone, Debug)]
pub struct LintGroup {
    pub name: &'static str,
    pub default_level: LintLevel,
    pub desc: &'static str,
    pub feature_gate: Option<Gated>,
    pub hidden: bool,
}

/// A group whose members are computed from the resolved levels.
#[derive(Copy, Clone, Debug)]
pub struct DynamicLintGroup {
    pub name: &'static str,
    pub desc: &'static str,
}

/// A named, individually configurable check.
#[derive(Copy, Clone, Debug)]
pub struct Lint {
    pub name: &'static str,
    pub desc: &'static str,
    pub primary_group: LintGroup,
    /// From the given edition on, the lint's default becomes the given level.
    pub edition_lint_opts: Option<(Edition, LintLevel)>,
    pub feature_gate: Option<Gated>,
    /// Markdown text for the lint's documentation; an undocumented lint has none.
    pub docs: Option<&'static str>,
}

pub open spec fn lint_names(lints: Seq<Lint>) -> Seq<Seq<char>> {
    lints.map_values(|l: Lint| l.name@)
}

pub open spec fn group_names(groups: Seq<LintGroup>) -> Seq<Seq<char>> {
    groups.map_values(|g: LintGroup| g.name@)
}

pub open spec fn dynamic_group_names(groups: Seq<DynamicLintGroup>) -> Seq<Seq<char>> {
    groups.map_values(|g: DynamicLintGroup| g.name@)
}

/// The known lints, groups and dynamic groups.
#[derive(Clone, Debug)]
pub struct LintCatalog {
    pub lints: Vec<Lint>,
    pub groups: Vec<LintGroup>,
    pub dynamic_groups: Vec<DynamicLintGroup>,
}

impl LintCatalog {
    /// The first lint of the catalog with the given name.
    pub open spec fn spec_find_lint(&self, name: Seq<char>) -> Option<Lint> {
        match first_named(lint_names(self.lints@), name) {
            Some(i) => Some(self.lints@[i]),
            None => None,
        }
    }

    /// The first group of the catalog with the given name.
    pub open spec fn spec_find_group(&self, name: Seq<char>) -> Option<LintGroup> {
        match first_named(group_names(self.groups@), name) {
            Some(i) => Some(self.groups@[i]),
            None => None,
        }
    }

    /// The first dynamic group of the catalog with the given name.
    pub open spec fn spec_find_dynamic_group(&self, name: Seq<char>) -> Option<DynamicLintGroup> {
        match first_named(dynamic_group_names(self.dynamic_groups@), name) {
            Some(i) => Some(self.dynamic_groups@[i]),
            None => None,
        }
    }

    /// The catalog that the library ships with.
    pub fn builtin() -> (r: LintCatalog)
        ensures
            r.lints@ == spec_lints(),
            r.groups@ == spec_lint_groups(),
            r.dynamic_groups@ == spec_dynamic_lint_groups(),
    {
        LintCatalog { lints: lints(), groups: lint_groups(), dynamic_groups: dynamic_lint_groups() }
    }

    /// The lint of the given name, if the catalog has one.
    pub fn find_lint(&self, name: &str) -> (r: Option<Lint>)
        ensures
            r == self.spec_find_lint(name@),
    {
        let mut i: usize = 0;
        while i < self.lints.len()
            invariant
                i <= self.lints@.len(),
                forall|j: int| 0 <= j < i ==> lint_names(self.lints@)[j] != name@,
            decreases self.lints@.len() - i,
        {
            if same_text(self.lints[i].name, name) {
                proof {
                    lemma_first_named_at(lint_names(self.lints@), name@, i as int);
                }
                return Some(self.lints[i]);
            }
            i = i + 1;
        }
        proof {
            lemma_first_named_none(lint_names(self.lints@), name@);
        }
        None
    }

    /// The group of the given name, if the catalog has one.
    pub fn find_group(&self, name: &str) -> (r: Option<LintGroup>)
        ensures
            r == self.spec_find_group(name@),
    {
        let mut i: usize = 0;
        while i < self.groups.len()
            invariant
                i <= self.groups@.len(),
                forall|j: int| 0 <= j < i ==> group_names(self.groups@)[j] != name@,
            decreases self.groups@.len() - i,
        {
            if same_text(self.groups[i].name, name) {
                proof {
                    lemma_first_named_at(group_names(self.groups@), name@, i as int);
                }
                return Some(self.groups[i]);
            }
            i = i + 1;
        }
        proof {
            lemma_first_named_none(group_names(self.groups@), name@);
        }
        None
    }

    /// The dynamic group of the given name, if the catalog has one.
    pub fn find_dynamic_group(&self, name: &str) -> (r: Option<DynamicLintGroup>)
        ensures
            r == self.spec_find_dynamic_group(name@),
    {
        let mut i: usize = 0;
        while i < self.dynamic_groups.len()
            invariant
                i <= self.dynamic_groups@.len(),
                forall|j: int| 0 <= j < i ==> dynamic_group_names(self.dynamic_groups@)[j] != name@,
            decreases self.dynamic_groups@.len() - i,
        {
            if same_text(self.dynamic_groups[i].name, name) {
                proof {
                    lemma_first_named_at(dynamic_group_names(self.dynamic_groups@), name@, i as int);
                }
                return Some(self.dynamic_groups[i]);
            }
            i = i + 1;
        }
        proof {
            lemma_first_named_none(dynamic_group_names(self.dynamic_groups@), name@);
        }
        None
    }
}

pub open spec fn spec_complexity() -> LintGroup {
    LintGroup {
        name: "complexity",
        desc: "code that does something simple but in a complex way",
        default_level: LintLevel::Warn,
        feature_gate: None,
        hidden: false,
    }
}

pub fn complexity() -> (r: LintGroup)
    ensures
        r == spec_complexity(),
{
    LintGroup {
        name: "complexity",
        desc: "code that does something simple but in a complex way",
        default_level: LintLevel::Warn,
        feature_gate: None,
        hidden: false,
    }
}

pub open spec fn spec_correctness() -> LintGroup {
    LintGroup {
        name: "correctness",
        desc: "code that is outright wrong or useless",
        default_level: LintLevel::Deny,
        feature_gate: None,
        hidden: false,
    }
}

pub fn correctness() -> (r: LintGroup)
    ensures
        r == spec_correctness(),
{
    LintGroup {
        name: "correctness",
        desc: "code that is outright wrong or useless",
        default_level: LintLevel::Deny,
        feature_gate: None,
        hidden: false,
    }
}

pub open spec fn spec_nursery() -> LintGroup {
    LintGroup {
        name: "nursery",
        desc: "new lints that are still under development",
        default_level: LintLevel::Allow,
        feature_gate: None,
        hidden: false,
    }
}

pub fn nursery() -> (r: LintGroup)
    ensures
        r == spec_nursery(),
{
    LintGroup {
        name: "nursery",
        desc: "new lints that are still under development",
        default_level: LintLevel::Allow,
        feature_gate: None,
        hidden: false,
    }
}

pub open spec fn spec_pedantic() -> LintGroup {
    LintGroup {
        name: "pedantic",
        desc: "lints which are rather strict or have occasional false positives",
        default_level: LintLevel::Allow,
        feature_gate: None,
        hidden: false,
    }
}

pub fn pedantic() -> (r: LintGroup)
    ensures
        r == spec_pedantic(),
{
    LintGroup {
        name: "pedantic",
        desc: "lints which are rather strict or have occasional false positives",
        default_level: LintLevel::Allow,
        feature_gate: None,
        hidden: false,
    }
}

pub open spec fn spec_perf() -> LintGroup {
    LintGroup {
        name: "perf",
        desc: "code that can be written to run faster",
        default_level: LintLevel::Warn,
        feature_gate: None,
        hidden: false,
    }
}

pub fn perf() -> (r: LintGroup)
    ensures
        r == spec_perf(),
{
    LintGroup {
        name: "perf",
        desc: "code that can be written to run faster",
        default_level: LintLevel::Warn,
        feature_gate: None,
        hidden: false,
    }
}

pub open spec fn spec_restriction() -> LintGroup {
    LintGroup {
        name: "restriction",
        desc: "lints which prevent the use of Cargo features",
        default_level: LintLevel::Allow,
        feature_gate: None,
        hidden: false,
    }
}

pub fn restriction() -> (r: LintGroup)
    ensures
        r == spec_restriction(),
{
    LintGroup {
        name: "restriction",
        desc: "lints which prevent the use of Cargo features",
        default_level: LintLevel::Allow,
        feature_gate: None,
        hidden: false,
    }
}

pub open spec fn spec_style() -> LintGroup {
    LintGroup {
        name: "style",
        desc: "code that should be written in a more idiomatic way",
        default_level: LintLevel::Warn,
        feature_gate: None,
        hidden: false,
    }
}

pub fn style() -> (r: LintGroup)
    ensures
        r == spec_style(),
{
    LintGroup {
        name: "style",
        desc: "code that should be written in a more idiomatic way",
        default_level: LintLevel::Warn,
        feature_gate: None,
        hidden: false,
    }
}

pub open spec fn spec_suspicious() -> LintGroup {
    LintGroup {
        name: "suspicious",
        desc: "code that is most likely wrong or useless",
        default_level: LintLevel::Warn,
        feature_gate: None,
        hidden: false,
    }
}

pub fn suspicious() -> (r: LintGroup)
    ensures
        r == spec_suspicious(),
{
    LintGroup {
        name: "suspicious",
        desc: "code that is most likely wrong or useless",
        default_level: LintLevel::Warn,
        feature_gate: None,
        hidden: false,
    }
}

pub open spec fn spec_test_dummy_unstable() -> LintGroup {
    LintGroup {
        name: "test_dummy_unstable",
        desc: "test_dummy_unstable is meant to only be used in tests",
        default_level: LintLevel::Allow,
        feature_gate: Some(Gated::Feature(Feature::spec_test_dummy_unstable())),
        hidden: true,
    }
}

/// A group that exists only to exercise feature gates.
pub fn test_dummy_unstable() -> (r: LintGroup)
    ensures
        r == spec_test_dummy_unstable(),
{
    LintGroup {
        name: "test_dummy_unstable",
        desc: "test_dummy_unstable is meant to only be used in tests",
        default_level: LintLevel::Allow,
        feature_gate: Some(Gated::Feature(Feature::test_dummy_unstable())),
        hidden: true,
    }
}

pub open spec fn spec_lint_groups() -> Seq<LintGroup> {
    seq![
        spec_complexity(),
        spec_correctness(),
        spec_nursery(),
        spec_pedantic(),
        spec_perf(),
        spec_restriction(),
        spec_style(),
        spec_suspicious(),
        spec_test_dummy_unstable(),
    ]
}

/// The known lint groups, sorted by name.
pub fn lint_groups() -> (r: Vec<LintGroup>)
    ensures
        r@ == spec_lint_groups(),
{
    let mut r = Vec::new();
    r.push(complexity());
    r.push(correctness());
    r.push(nursery());
    r.push(pedantic());
    r.push(perf());
    r.push(restriction());
    r.push(style());
    r.push(suspicious());
    r.push(test_dummy_unstable());
    assert(r@ =~= spec_lint_groups());
    r
}

pub open spec fn spec_warnings() -> DynamicLintGroup {
    DynamicLintGroup { name: "warnings", desc: "All lints that are set to issue warnings" }
}

pub fn warnings() -> (r: DynamicLintGroup)
    ensures
        r == spec_warnings(),
{
    DynamicLintGroup { name: "warnings", desc: "All lints that are set to issue warnings" }
}

pub open spec fn spec_dynamic_lint_groups() -> Seq<DynamicLintGroup> {
    seq![spec_warnings()]
}

/// The known dynamic lint groups, sorted by name.
pub fn dynamic_lint_groups() -> (r: Vec<DynamicLintGroup>)
    ensures
        r@ == spec_dynamic_lint_groups(),
{
    let mut r = Vec::new();
    r.push(warnings());
    assert(r@ =~= spec_dynamic_lint_groups());
    r
}

pub open spec fn spec_im_a_teapot() -> Lint {
    Lint {
        name: "im_a_teapot",
        desc: "`im_a_teapot` is specified",
        primary_group: spec_test_dummy_unstable(),
        edition_lint_opts: None,
        feature_gate: Some(Gated::Feature(Feature::spec_test_dummy_unstable())),
        docs: None,
    }
}

/// A lint that exists only to exercise feature gates: it fires on
/// `package.im-a-teapot`.
pub fn im_a_teapot() -> (r: Lint)
    ensures
        r == spec_im_a_teapot(),
{
    Lint {
        name: "im_a_teapot",
        desc: "`im_a_teapot` is specified",
        primary_group: test_dummy_unstable(),
        edition_lint_opts: None,
        feature_gate: Some(Gated::Feature(Feature::test_dummy_unstable())),
        docs: None,
    }
}

pub open spec fn spec_unknown_lints() -> Lint {
    Lint {
        name: "unknown_lints",
        desc: "unknown lint",
        primary_group: spec_suspicious(),
        edition_lint_opts: None,
        feature_gate: None,
        docs: Some(UNKNOWN_LINTS_DOCS),
    }
}

pub const UNKNOWN_LINTS_DOCS: &'static str = "
### What it does
Checks for unknown lints in the `[lints.cargo]` table

### Why it is bad
- The lint name could be misspelled, leading to confusion as to why it is
  not working as expected
- The unknown lint could end up causing an error if `cargo` decides to make
  a lint with the same name in the future

### Example
```toml
[lints.cargo]
this-lint-does-not-exist = \"warn\"
```
";

/// The lint under which names that match no lint or group are reported.
pub fn unknown_lints() -> (r: Lint)
    ensures
        r == spec_unknown_lints(),
{
    Lint {
        name: "unknown_lints",
        desc: "unknown lint",
        primary_group: suspicious(),
        edition_lint_opts: None,
        feature_gate: None,
        docs: Some(UNKNOWN_LINTS_DOCS),
    }
}

pub open spec fn spec_lints() -> Seq<Lint> {
    seq![spec_im_a_teapot(), spec_unknown_lints()]
}

/// The known lints, sorted by name.
pub fn lints() -> (r: Vec<Lint>)
    ensures
        r@ == spec_lints(),
{
    let mut r = Vec::new();
    r.push(im_a_teapot());
    r.push(unknown_lints());
    assert(r@ =~= spec_lints());
    r
}

/// The character in ASCII uppercase.
pub open spec fn upper_char(c: char) -> char {
    if 'a' <= c <= 'z' {
        ((c as u32) - 32) as char
    } else {
        c
    }
}

pub open spec fn upper(s: Seq<char>) -> Seq<char> {
    s.map_values(|c: char| upper_char(c))
}

/// Lexicographic order on character sequences, as `str` orders them.
pub open spec fn text_le(a: Seq<char>, b: Seq<char>) -> bool
    decreases a.len(),
{
    if a.len() == 0 {
        true
    } else if b.len() == 0 {
        false
    } else if a[0] != b[0] {
        a[0] < b[0]
    } else {
        text_le(a.drop_first(), b.drop_first())
    }
}

/// Each name is at most every later one, once both are uppercased.
pub open spec fn sorted_by_upper_name(names: Seq<Seq<char>>) -> bool {
    forall|i: int, j: int|
        0 <= i < j < names.len() ==> text_le(upper(#[trigger] names[i]), upper(#[trigger] names[j]))
}

/// Each name is at most the next one, once both are uppercased.
pub open spec fn adjacent_sorted_by_upper_name(names: Seq<Seq<char>>) -> bool {
    forall|i: int| 0 <= i < names.len() - 1 ==> text_le(upper(#[trigger] names[i]), upper(names[i + 1]))
}

proof fn lemma_text_le_transitive(a: Seq<char>, b: Seq<char>, c: Seq<char>)
    requires
        text_le(a, b),
        text_le(b, c),
    ensures
        text_le(a, c),
    decreases a.len(),
{
    if a.len() > 0 && b.len() > 0 && c.len() > 0 && a[0] == b[0] && b[0] == c[0] {
        lemma_text_le_transitive(a.drop_first(), b.drop_first(), c.drop_first());
    }
}

proof fn lemma_sorted_from_adjacent(names: Seq<Seq<char>>)
    requires
        adjacent_sorted_by_upper_name(names),
    ensures
        sorted_by_upper_name(names),
{
    assert forall|i: int, j: int| 0 <= i < j < names.len() implies text_le(
        upper(#[trigger] names[i]),
        upper(#[trigger] names[j]),
    ) by {
        lemma_sorted_upto(names, i, j);
    }
}

proof fn lemma_sorted_upto(names: Seq<Seq<char>>, i: int, j: int)
    requires
        adjacent_sorted_by_upper_name(names),
        0 <= i < j < names.len(),
    ensures
        text_le(upper(names[i]), upper(names[j])),
    decreases j - i,
{
    if j > i + 1 {
        lemma_sorted_upto(names, i, j - 1);
        assert(text_le(upper(names[j - 1]), upper(names[j])));
        lemma_text_le_transitive(upper(names[i]), upper(names[j - 1]), upper(names[j]));
    }
}

/// The built-in lints, groups and dynamic groups are each sorted by their
/// uppercased names: every name is at most every later one.
pub proof fn lemma_builtin_catalog_sorted()
    ensures
        sorted_by_upper_name(lint_names(spec_lints())),
        sorted_by_upper_name(group_names(spec_lint_groups())),
        sorted_by_upper_name(dynamic_group_names(spec_dynamic_lint_groups())),
{
    reveal_strlit("im_a_teapot");
    reveal_strlit("unknown_lints");
    reveal_strlit("complexity");
    reveal_strlit("correctness");
    reveal_strlit("nursery");
    reveal_strlit("pedantic");
    reveal_strlit("perf");
    reveal_strlit("restriction");
    reveal_strlit("style");
    reveal_strlit("suspicious");
    reveal_strlit("test_dummy_unstable");
    reveal_with_fuel(text_le, 4);
    let lints = lint_names(spec_lints());
    assert(text_le(upper(lints[0]), upper(lints[1])));
    let groups = group_names(spec_lint_groups());
    assert(text_le(upper(groups[0]), upper(groups[1])));
    assert(text_le(upper(groups[1]), upper(groups[2])));
    assert(text_le(upper(groups[2]), upper(groups[3])));
    assert(text_le(upper(groups[3]), upper(groups[4])));
    assert(text_le(upper(groups[4]), upper(groups[5])));
    assert(text_le(upper(groups[5]), upper(groups[6])));
    assert(text_le(upper(groups[6]), upper(groups[7])));
    assert(text_le(upper(groups[7]), upper(groups[8])));
    lemma_sorted_from_adjacent(lints);
    lemma_sorted_from_adjacent(groups);
    lemma_sorted_from_adjacent(dynamic_group_names(spec_dynamic_lint_groups()));
}

} // verus!
