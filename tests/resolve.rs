use manifest_lints::catalog::{im_a_teapot, suspicious, unknown_lints};
use manifest_lints::{
    CliUnstable, CliUnstableFlag, DeclaredLint, Edition, Features, Gated, Lint, LintGroup, LintLevel,
    LintLevelReason, LintsTable, Severity,
};

fn table(entries: &[(&str, LintLevel, i8)]) -> LintsTable {
    let mut t = LintsTable::new();
    for (name, level, priority) in entries {
        t.insert(name.to_string(), DeclaredLint { level: *level, priority: *priority });
    }
    t
}

fn group(name: &'static str, default_level: LintLevel) -> LintGroup {
    LintGroup { name, default_level, desc: "a group", feature_gate: None, hidden: false }
}

fn lint(name: &'static str, primary_group: LintGroup) -> Lint {
    Lint {
        name,
        desc: "a lint",
        primary_group,
        edition_lint_opts: None,
        feature_gate: None,
        docs: None,
    }
}

fn dummy_enabled() -> Features {
    let mut f = Features::new();
    f.enable("test_dummy_unstable".to_string());
    f
}

#[test]
fn level_names_and_properties() {
    assert_eq!(LintLevel::Allow.as_str(), "allow");
    assert_eq!(LintLevel::Warn.as_str(), "warn");
    assert_eq!(LintLevel::Deny.as_str(), "deny");
    assert_eq!(LintLevel::Forbid.as_str(), "forbid");
    assert!(!LintLevel::Allow.is_error());
    assert!(!LintLevel::Warn.is_error());
    assert!(LintLevel::Deny.is_error());
    assert!(LintLevel::Forbid.is_error());
    assert!(!LintLevel::Allow.force());
    assert!(LintLevel::Warn.force());
    assert!(LintLevel::Deny.force());
    assert!(LintLevel::Forbid.force());
    assert_eq!(LintLevel::Warn.to_diagnostic_level(), Severity::Warning);
    assert_eq!(LintLevel::Deny.to_diagnostic_level(), Severity::Error);
    assert_eq!(LintLevel::Forbid.to_diagnostic_level(), Severity::Error);
}

#[test]
fn reason_phrases() {
    assert_eq!(LintLevelReason::Default.to_text(), "by default");
    assert_eq!(LintLevelReason::Package.to_text(), "in `[lints]`");
    assert_eq!(LintLevelReason::Edition(Edition::Edition2024).to_text(), "in edition 2024");
    assert_eq!(LintLevelReason::Edition(Edition::EditionFuture).to_text(), "in edition future");
}

#[test]
fn editions_are_ordered() {
    assert!(Edition::Edition2021.at_least(&Edition::Edition2018));
    assert!(Edition::Edition2021.at_least(&Edition::Edition2021));
    assert!(!Edition::Edition2015.at_least(&Edition::Edition2024));
    assert!(Edition::EditionFuture.at_least(&Edition::Edition2024));
}

#[test]
fn emitted_source_text() {
    let u = unknown_lints();
    assert_eq!(
        u.emitted_source(LintLevel::Warn, LintLevelReason::Default),
        "`cargo::unknown_lints` is set to `warn` by default"
    );
    assert_eq!(
        u.emitted_source(LintLevel::Deny, LintLevelReason::Package),
        "`cargo::unknown_lints` is set to `deny` in `[lints]`"
    );
    assert_eq!(
        u.emitted_source(LintLevel::Forbid, LintLevelReason::Edition(Edition::Edition2021)),
        "`cargo::unknown_lints` is set to `forbid` in edition 2021"
    );
}

#[test]
fn undeclared_lint_takes_group_default() {
    let r = unknown_lints().level(&LintsTable::new(), Edition::Edition2021, &Features::new(), &CliUnstable::new());
    assert_eq!(r, (LintLevel::Warn, LintLevelReason::Default));
}

#[test]
fn gated_lint_declared_forbid_is_allowed() {
    let t = table(&[("im_a_teapot", LintLevel::Forbid, 0), ("test_dummy_unstable", LintLevel::Forbid, 0)]);
    let r = im_a_teapot().level(&t, Edition::Edition2021, &Features::new(), &CliUnstable::new());
    assert_eq!(r, (LintLevel::Allow, LintLevelReason::Default));
}

#[test]
fn gated_lint_with_feature_enabled_follows_declaration() {
    let t = table(&[("im_a_teapot", LintLevel::Deny, 0)]);
    let r = im_a_teapot().level(&t, Edition::Edition2021, &dummy_enabled(), &CliUnstable::new());
    assert_eq!(r, (LintLevel::Deny, LintLevelReason::Package));
}

#[test]
fn cli_gate_silences_lint_when_flag_given() {
    let mut l = lint("noisy", group("style", LintLevel::Warn));
    l.feature_gate = Some(Gated::Cli(CliUnstableFlag { name: "quiet-noisy" }));
    let t = table(&[("noisy", LintLevel::Deny, 0)]);
    let mut cli = CliUnstable::new();
    assert_eq!(l.level(&t, Edition::Edition2021, &Features::new(), &cli), (LintLevel::Deny, LintLevelReason::Package));
    cli.enable("quiet-noisy".to_string());
    assert_eq!(l.level(&t, Edition::Edition2021, &Features::new(), &cli), (LintLevel::Allow, LintLevelReason::Default));
}

#[test]
fn forbid_group_default_dominates() {
    let l = lint("strict", group("locked", LintLevel::Forbid));
    let none = l.level(&LintsTable::new(), Edition::Edition2021, &Features::new(), &CliUnstable::new());
    assert_eq!(none, (LintLevel::Forbid, LintLevelReason::Default));
    let t = table(&[("strict", LintLevel::Allow, 10)]);
    let allowed = l.level(&t, Edition::Edition2021, &Features::new(), &CliUnstable::new());
    assert_eq!(allowed.0, LintLevel::Forbid);
}

#[test]
fn forbid_declared_on_group_beats_lint_allow() {
    let l = lint("strict", group("style", LintLevel::Warn));
    let t = table(&[("strict", LintLevel::Allow, 5), ("style", LintLevel::Forbid, 0)]);
    let r = l.level(&t, Edition::Edition2021, &Features::new(), &CliUnstable::new());
    assert_eq!(r, (LintLevel::Forbid, LintLevelReason::Package));
}

#[test]
fn equal_priority_prefers_lint() {
    let l = lint("strict", group("style", LintLevel::Warn));
    let t = table(&[("strict", LintLevel::Allow, 0), ("style", LintLevel::Deny, 0)]);
    let r = l.level(&t, Edition::Edition2021, &Features::new(), &CliUnstable::new());
    assert_eq!(r, (LintLevel::Allow, LintLevelReason::Package));
}

#[test]
fn higher_group_priority_wins() {
    let l = lint("strict", group("style", LintLevel::Warn));
    let t = table(&[("strict", LintLevel::Allow, 0), ("style", LintLevel::Deny, 1)]);
    let r = l.level(&t, Edition::Edition2021, &Features::new(), &CliUnstable::new());
    assert_eq!(r, (LintLevel::Deny, LintLevelReason::Package));
    let t = table(&[("strict", LintLevel::Allow, 2), ("style", LintLevel::Deny, 1)]);
    let r = l.level(&t, Edition::Edition2021, &Features::new(), &CliUnstable::new());
    assert_eq!(r, (LintLevel::Allow, LintLevelReason::Package));
}

#[test]
fn only_group_declared() {
    let l = lint("strict", group("style", LintLevel::Warn));
    let t = table(&[("style", LintLevel::Allow, 0)]);
    let r = l.level(&t, Edition::Edition2021, &Features::new(), &CliUnstable::new());
    assert_eq!(r, (LintLevel::Allow, LintLevelReason::Package));
}

#[test]
fn edition_override_applies_from_its_edition() {
    let mut l = lint("modern", group("style", LintLevel::Warn));
    l.edition_lint_opts = Some((Edition::Edition2024, LintLevel::Deny));
    let empty = LintsTable::new();
    let f = Features::new();
    let c = CliUnstable::new();
    assert_eq!(l.level(&empty, Edition::Edition2021, &f, &c), (LintLevel::Warn, LintLevelReason::Default));
    assert_eq!(
        l.level(&empty, Edition::Edition2024, &f, &c),
        (LintLevel::Deny, LintLevelReason::Edition(Edition::Edition2024))
    );
    let t = table(&[("modern", LintLevel::Allow, 0)]);
    assert_eq!(l.level(&t, Edition::Edition2024, &f, &c), (LintLevel::Allow, LintLevelReason::Package));
}

#[test]
fn edition_forbid_beats_declared_allow() {
    let mut l = lint("modern", group("style", LintLevel::Warn));
    l.edition_lint_opts = Some((Edition::Edition2021, LintLevel::Forbid));
    let t = table(&[("modern", LintLevel::Allow, 0)]);
    let r = l.level(&t, Edition::Edition2024, &Features::new(), &CliUnstable::new());
    assert_eq!(r, (LintLevel::Forbid, LintLevelReason::Edition(Edition::Edition2024)));
}

#[test]
fn resolving_twice_gives_the_same_result() {
    let l = lint("strict", group("style", LintLevel::Warn));
    let t = table(&[("strict", LintLevel::Deny, 3), ("style", LintLevel::Allow, 1)]);
    let f = Features::new();
    let c = CliUnstable::new();
    let first = l.level(&t, Edition::Edition2018, &f, &c);
    let second = l.level(&t, Edition::Edition2018, &f, &c);
    assert_eq!(first, second);
    assert_eq!(first, (LintLevel::Deny, LintLevelReason::Package));
}

#[test]
fn table_insert_replaces_earlier_setting() {
    let mut t = table(&[("a", LintLevel::Warn, 0), ("b", LintLevel::Deny, 1)]);
    t.insert("a".to_string(), DeclaredLint { level: LintLevel::Allow, priority: 4 });
    assert_eq!(t.len(), 2);
    assert_eq!(t.name_at(0), "a");
    assert_eq!(t.get("a"), Some(DeclaredLint { level: LintLevel::Allow, priority: 4 }));
    assert_eq!(t.get("b").unwrap().level(), LintLevel::Deny);
    assert_eq!(t.get("b").unwrap().priority(), 1);
    assert_eq!(t.get("c"), None);
}

#[test]
fn suspicious_group_defaults_to_warn() {
    assert_eq!(suspicious().default_level, LintLevel::Warn);
}
