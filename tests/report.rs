use std::ops::Range;

use manifest_lints::catalog::{lints, lint_groups, dynamic_lint_groups};
use manifest_lints::{
    analyze_cargo_lints_table, check_im_a_teapot, get_key_value, get_key_value_span, output_unknown_lints,
    report_feature_not_enabled, report_lint_on_key, AnnotationKind, CliUnstable, DeclaredLint, DocEntry,
    DocItem, DocTable, DocValue, Edition, Element, Feature, Features, Lint, LintCatalog, LintGroup, LintLevel,
    LintsTable, Manifest, ManifestFor, Report, Severity, TitleKind,
};

/// The byte range of the first `needle` at or after `from` in `text`.
fn span(text: &str, needle: &str, from: usize) -> Range<usize> {
    let start = from + text[from..].find(needle).unwrap();
    start..start + needle.len()
}

fn entry(text: &str, key: &str, value: DocValue, value_text: &str, from: usize) -> DocEntry {
    let key_span = span(text, key, from);
    let value_span = span(text, value_text, key_span.end);
    DocEntry { key: key.to_string(), key_span, item: DocItem { value, span: value_span } }
}

fn table_entry(key: &str, entries: Vec<DocEntry>) -> DocEntry {
    DocEntry {
        key: key.to_string(),
        key_span: 0..0,
        item: DocItem { value: DocValue::Table(DocTable { entries }), span: 0..0 },
    }
}

fn string(s: &str) -> DocValue {
    DocValue::String(s.to_string())
}

fn declared(entries: &[(&str, LintLevel)]) -> LintsTable {
    let mut t = LintsTable::new();
    for (name, level) in entries {
        t.insert(name.to_string(), DeclaredLint { level: *level, priority: 0 });
    }
    t
}

fn manifest(text: &str, document: DocTable, features: Features) -> Manifest {
    Manifest {
        contents: Some(text.to_string()),
        document: Some(document),
        edition: Edition::Edition2021,
        unstable_features: features,
    }
}

fn dummy_enabled() -> Features {
    let mut f = Features::new();
    f.enable("test_dummy_unstable".to_string());
    f
}

fn group_elements(report: &Report, g: usize) -> &Vec<Element> {
    &report.groups[g].elements
}

fn snippet_span(element: &Element) -> (String, Range<usize>, AnnotationKind, Option<String>) {
    match element {
        Element::Snippet(s) => {
            assert_eq!(s.annotations.len(), 1);
            let a = &s.annotations[0];
            (s.path.clone(), a.span.clone(), a.kind, a.label.clone())
        }
        Element::Message(..) => panic!("expected a snippet"),
    }
}

fn message(element: &Element) -> (Severity, String) {
    match element {
        Element::Message(l, m) => (*l, m.clone()),
        Element::Snippet(_) => panic!("expected a message"),
    }
}

const UNKNOWN_PKG: &str = "[package]\nname = \"foo\"\n\n[lints.cargo]\nthis-lint-does-not-exist = \"warn\"\n";

fn unknown_pkg_doc() -> DocTable {
    let t = UNKNOWN_PKG;
    DocTable {
        entries: vec![
            table_entry("package", vec![entry(t, "name", string("foo"), "\"foo\"", 0)]),
            table_entry(
                "lints",
                vec![table_entry(
                    "cargo",
                    vec![entry(t, "this-lint-does-not-exist", string("warn"), "\"warn\"", 0)],
                )],
            ),
        ],
    }
}

#[test]
fn span_lookup_follows_tables() {
    let doc = unknown_pkg_doc();
    let s = get_key_value_span(&doc, &["lints", "cargo", "this-lint-does-not-exist"]).unwrap();
    assert_eq!(s.key, span(UNKNOWN_PKG, "this-lint-does-not-exist", 0));
    assert_eq!(s.value, span(UNKNOWN_PKG, "\"warn\"", 0));
    assert!(get_key_value_span(&doc, &["lints", "cargo", "missing"]).is_none());
    assert!(get_key_value_span(&doc, &["nothing"]).is_none());
    assert!(get_key_value_span(&doc, &[]).is_none());
    let (key, item) = get_key_value(&doc, &["package", "name"]).unwrap();
    assert_eq!(key.key, "name");
    assert!(matches!(&item.value, DocValue::String(s) if s == "foo"));
}

#[test]
fn span_lookup_matches_array_element() {
    let text = "[target]\nmembers = [\"a\", \"b\"]\n";
    let a = span(text, "\"a\"", 0);
    let b = span(text, "\"b\"", 0);
    let members = DocEntry {
        key: "members".to_string(),
        key_span: span(text, "members", 0),
        item: DocItem {
            value: DocValue::Array(vec![
                DocItem { value: DocValue::Boolean(true), span: 0..0 },
                DocItem { value: string("a"), span: a.clone() },
                DocItem { value: string("b"), span: b.clone() },
            ]),
            span: 19..29,
        },
    };
    let doc = DocTable { entries: vec![table_entry("target", vec![members])] };
    let s = get_key_value_span(&doc, &["target", "members", "b"]).unwrap();
    assert_eq!(s.key, span(text, "members", 0));
    assert_eq!(s.value, b);
    assert!(get_key_value_span(&doc, &["target", "members", "c"]).is_none());
    let whole = get_key_value_span(&doc, &["target", "members"]).unwrap();
    assert_eq!(whole.value, 19..29);
}

#[test]
fn span_lookup_stops_below_a_scalar() {
    let text = "a = 1\nb = 2\n";
    let doc = DocTable {
        entries: vec![
            entry(text, "a", DocValue::Other, "1", 0),
            entry(text, "b", DocValue::Other, "2", 0),
        ],
    };
    assert!(get_key_value_span(&doc, &["a", "b"]).is_none());
    assert!(get_key_value_span(&doc, &["b"]).is_some());
}

#[test]
fn unknown_lint_default_config() {
    let pkg = manifest(UNKNOWN_PKG, unknown_pkg_doc(), Features::new());
    let table = declared(&[("this-lint-does-not-exist", LintLevel::Warn)]);
    let mut errors: usize = 0;
    let reports = analyze_cargo_lints_table(
        ManifestFor::Package(&pkg),
        "Cargo.toml",
        &table,
        &mut errors,
        None,
        &LintCatalog::builtin(),
        &CliUnstable::new(),
    );
    assert_eq!(errors, 0);
    assert_eq!(reports.len(), 1);
    let r = &reports[0];
    assert!(r.force);
    assert_eq!(r.groups.len(), 1);
    assert_eq!(r.groups[0].level, Severity::Warning);
    assert_eq!(r.groups[0].title_kind, TitleKind::Primary);
    assert_eq!(r.groups[0].title, "unknown lint: `this-lint-does-not-exist`");
    let els = group_elements(r, 0);
    assert_eq!(els.len(), 2);
    let (path, sp, kind, label) = snippet_span(&els[0]);
    assert_eq!(path, "Cargo.toml");
    assert_eq!(sp, span(UNKNOWN_PKG, "this-lint-does-not-exist", 0));
    assert_eq!(kind, AnnotationKind::Primary);
    assert_eq!(label, None);
    assert_eq!(
        message(&els[1]),
        (Severity::Note, "`cargo::unknown_lints` is set to `warn` by default".to_string())
    );
}

#[test]
fn unknown_lints_denied_counts_errors() {
    let pkg = manifest(UNKNOWN_PKG, unknown_pkg_doc(), Features::new());
    let table = declared(&[("this-lint-does-not-exist", LintLevel::Warn), ("unknown_lints", LintLevel::Deny)]);
    let mut errors: usize = 2;
    let reports = analyze_cargo_lints_table(
        ManifestFor::Package(&pkg),
        "Cargo.toml",
        &table,
        &mut errors,
        None,
        &LintCatalog::builtin(),
        &CliUnstable::new(),
    );
    assert_eq!(errors, 3);
    assert_eq!(reports.len(), 1);
    assert_eq!(reports[0].groups[0].level, Severity::Error);
    assert_eq!(
        message(&group_elements(&reports[0], 0)[1]).1,
        "`cargo::unknown_lints` is set to `deny` in `[lints]`"
    );
}

#[test]
fn unknown_lints_allowed_reports_nothing() {
    let pkg = manifest(UNKNOWN_PKG, unknown_pkg_doc(), Features::new());
    let table = declared(&[("this-lint-does-not-exist", LintLevel::Warn), ("suspicious", LintLevel::Allow)]);
    let mut errors: usize = 0;
    let reports = analyze_cargo_lints_table(
        ManifestFor::Package(&pkg),
        "Cargo.toml",
        &table,
        &mut errors,
        None,
        &LintCatalog::builtin(),
        &CliUnstable::new(),
    );
    assert!(reports.is_empty());
    assert_eq!(errors, 0);
}

const TWO_UNKNOWN: &str = "[lints.cargo]\nwild-lints = \"warn\"\nim-a-teapot = \"warn\"\nzzz = \"warn\"\n";

fn two_unknown_doc() -> DocTable {
    let t = TWO_UNKNOWN;
    DocTable {
        entries: vec![table_entry(
            "lints",
            vec![table_entry(
                "cargo",
                vec![
                    entry(t, "wild-lints", string("warn"), "\"warn\"", 0),
                    entry(t, "im-a-teapot", string("warn"), "\"warn\"", 0),
                    entry(t, "zzz", string("warn"), "\"warn\"", 0),
                ],
            )],
        )],
    }
}

#[test]
fn close_match_suggestion() {
    let mut catalog = LintCatalog { lints: lints(), groups: lint_groups(), dynamic_groups: dynamic_lint_groups() };
    catalog.lints.push(Lint {
        name: "wild_lints",
        desc: "wild",
        primary_group: lint_groups()[7],
        edition_lint_opts: None,
        feature_gate: None,
        docs: None,
    });
    let pkg = manifest(TWO_UNKNOWN, two_unknown_doc(), Features::new());
    let table = declared(&[("wild-lints", LintLevel::Warn), ("im-a-teapot", LintLevel::Warn), ("zzz", LintLevel::Warn)]);
    let mut errors: usize = 0;
    let reports = analyze_cargo_lints_table(
        ManifestFor::Package(&pkg),
        "Cargo.toml",
        &table,
        &mut errors,
        None,
        &catalog,
        &CliUnstable::new(),
    );
    assert_eq!(reports.len(), 3);
    // The first report carries the note on the level; later ones do not.
    let first = group_elements(&reports[0], 0);
    assert_eq!(first.len(), 3);
    assert_eq!(message(&first[1]).0, Severity::Note);
    assert_eq!(
        message(&first[2]),
        (Severity::Help, "there is a lint with a similar name: `wild_lints`".to_string())
    );
    let second = group_elements(&reports[1], 0);
    assert_eq!(second.len(), 2);
    assert_eq!(
        message(&second[1]),
        (Severity::Help, "there is a lint with a similar name: `im_a_teapot`".to_string())
    );
    assert_eq!(group_elements(&reports[2], 0).len(), 1);
    assert_eq!(snippet_span(&group_elements(&reports[2], 0)[0]).1, span(TWO_UNKNOWN, "zzz", 0));
}

#[test]
fn group_suggestion() {
    let text = "[lints.cargo]\ntest-dummy-unstable = \"warn\"\n";
    let doc = DocTable {
        entries: vec![table_entry(
            "lints",
            vec![table_entry("cargo", vec![entry(text, "test-dummy-unstable", string("warn"), "\"warn\"", 0)])],
        )],
    };
    let pkg = manifest(text, doc, Features::new());
    let names = vec!["test-dummy-unstable".to_string()];
    let mut errors: usize = 0;
    let reports = output_unknown_lints(
        &names,
        &ManifestFor::Package(&pkg),
        "Cargo.toml",
        &LintsTable::new(),
        &mut errors,
        None,
        &LintCatalog::builtin(),
        &CliUnstable::new(),
    );
    assert_eq!(reports.len(), 1);
    assert_eq!(
        message(&group_elements(&reports[0], 0)[2]).1,
        "there is a group with a similar name: `test_dummy_unstable`"
    );
}

const TEAPOT_PKG: &str = "[package]\nname = \"foo\"\nim-a-teapot = true\n";

fn teapot_doc() -> DocTable {
    let t = TEAPOT_PKG;
    DocTable {
        entries: vec![table_entry(
            "package",
            vec![
                entry(t, "name", string("foo"), "\"foo\"", 0),
                entry(t, "im-a-teapot", DocValue::Boolean(true), "true", 0),
            ],
        )],
    }
}

#[test]
fn gated_lint_disabled() {
    let pkg = manifest(TEAPOT_PKG, teapot_doc(), Features::new());
    let table = declared(&[("im_a_teapot", LintLevel::Forbid)]);
    let mut errors: usize = 0;
    let r = check_im_a_teapot(&pkg, "Cargo.toml", &table, &CliUnstable::new(), &mut errors);
    assert!(r.is_none());
    assert_eq!(errors, 0);
}

#[test]
fn gated_lint_enabled_declared_deny() {
    let pkg = manifest(TEAPOT_PKG, teapot_doc(), dummy_enabled());
    let table = declared(&[("im_a_teapot", LintLevel::Deny)]);
    let mut errors: usize = 0;
    let r = check_im_a_teapot(&pkg, "Cargo.toml", &table, &CliUnstable::new(), &mut errors).unwrap();
    assert_eq!(errors, 1);
    assert!(r.force);
    assert_eq!(r.groups[0].level, Severity::Error);
    assert_eq!(r.groups[0].title, "`im_a_teapot` is specified");
    let els = group_elements(&r, 0);
    let start = span(TEAPOT_PKG, "im-a-teapot", 0).start;
    let end = span(TEAPOT_PKG, "true", 0).end;
    assert_eq!(snippet_span(&els[0]).1, start..end);
    assert_eq!(message(&els[1]).1, "`cargo::im_a_teapot` is set to `deny` in `[lints]`");
}

#[test]
fn gated_lint_enabled_forbid_group_default() {
    let locked = LintGroup {
        name: "test_dummy_unstable",
        default_level: LintLevel::Forbid,
        desc: "locked",
        feature_gate: None,
        hidden: true,
    };
    let mut teapot = manifest_lints::catalog::im_a_teapot();
    teapot.primary_group = locked;
    let pkg = manifest(TEAPOT_PKG, teapot_doc(), dummy_enabled());
    let mut errors: usize = 0;
    let r = report_lint_on_key(
        &teapot,
        &pkg,
        "Cargo.toml",
        &["package", "im-a-teapot"],
        &LintsTable::new(),
        &CliUnstable::new(),
        &mut errors,
    )
    .unwrap();
    assert_eq!(errors, 1);
    assert_eq!(r.groups[0].level, Severity::Error);
    assert_eq!(message(&group_elements(&r, 0)[1]).1, "`cargo::im_a_teapot` is set to `forbid` by default");
}

#[test]
fn gated_lint_enabled_default_allow_is_silent() {
    let pkg = manifest(TEAPOT_PKG, teapot_doc(), dummy_enabled());
    let mut errors: usize = 0;
    let r = check_im_a_teapot(&pkg, "Cargo.toml", &LintsTable::new(), &CliUnstable::new(), &mut errors);
    assert!(r.is_none());
    assert_eq!(errors, 0);
}

const GATED_PKG: &str = "[lints.cargo]\nim_a_teapot = \"warn\"\n";

fn gated_doc() -> DocTable {
    DocTable {
        entries: vec![table_entry(
            "lints",
            vec![table_entry("cargo", vec![entry(GATED_PKG, "im_a_teapot", string("warn"), "\"warn\"", 0)])],
        )],
    }
}

#[test]
fn unstable_lint_without_feature_is_an_error() {
    let pkg = manifest(GATED_PKG, gated_doc(), Features::new());
    let table = declared(&[("im_a_teapot", LintLevel::Warn)]);
    let mut errors: usize = 0;
    let reports = analyze_cargo_lints_table(
        ManifestFor::Package(&pkg),
        "Cargo.toml",
        &table,
        &mut errors,
        None,
        &LintCatalog::builtin(),
        &CliUnstable::new(),
    );
    assert_eq!(errors, 1);
    assert_eq!(reports.len(), 1);
    let r = &reports[0];
    assert_eq!(r.groups[0].level, Severity::Error);
    assert_eq!(r.groups[0].title, "use of unstable lint `im_a_teapot`");
    let els = group_elements(r, 0);
    let (_, sp, kind, label) = snippet_span(&els[0]);
    assert_eq!(sp, span(GATED_PKG, "im_a_teapot", 0));
    assert_eq!(kind, AnnotationKind::Primary);
    assert_eq!(label.unwrap(), "this is behind `test-dummy-unstable`, which is not enabled");
    assert_eq!(
        message(&els[1]),
        (
            Severity::Help,
            "consider adding `cargo-features = [\"test-dummy-unstable\"]` to the top of the manifest".to_string()
        )
    );
}

#[test]
fn unstable_lint_with_feature_is_accepted() {
    let pkg = manifest(GATED_PKG, gated_doc(), dummy_enabled());
    let table = declared(&[("im_a_teapot", LintLevel::Warn)]);
    let mut errors: usize = 0;
    let reports = analyze_cargo_lints_table(
        ManifestFor::Package(&pkg),
        "Cargo.toml",
        &table,
        &mut errors,
        None,
        &LintCatalog::builtin(),
        &CliUnstable::new(),
    );
    assert!(reports.is_empty());
    assert_eq!(errors, 0);
}

#[test]
fn unstable_lint_without_document_reports_help_only() {
    let pkg = Manifest {
        contents: None,
        document: None,
        edition: Edition::Edition2021,
        unstable_features: Features::new(),
    };
    let r = report_feature_not_enabled(
        "test_dummy_unstable",
        &Feature::test_dummy_unstable(),
        &ManifestFor::Package(&pkg),
        "Cargo.toml",
        None,
    )
    .unwrap();
    assert_eq!(r.groups.len(), 1);
    assert_eq!(r.groups[0].title, "use of unstable lint `test_dummy_unstable`");
    assert_eq!(group_elements(&r, 0).len(), 1);
    assert_eq!(message(&group_elements(&r, 0)[0]).0, Severity::Help);
}

#[test]
fn unstable_lint_declared_elsewhere_is_skipped() {
    let pkg = manifest(UNKNOWN_PKG, unknown_pkg_doc(), Features::new());
    let r = report_feature_not_enabled(
        "im_a_teapot",
        &Feature::test_dummy_unstable(),
        &ManifestFor::Package(&pkg),
        "Cargo.toml",
        None,
    );
    assert!(r.is_none());
}

const WS: &str = "[workspace]\nmembers = [\"foo\"]\n\n[workspace.lints.cargo]\nthis-lint-does-not-exist = \"warn\"\n";
const INHERITING_PKG: &str = "[package]\nname = \"foo\"\n\n[lints]\nworkspace = true\n";

#[test]
fn workspace_inheritance_provenance() {
    let ws_doc = DocTable {
        entries: vec![table_entry(
            "workspace",
            vec![
                entry(WS, "members", DocValue::Array(vec![]), "[\"foo\"]", 0),
                table_entry(
                    "lints",
                    vec![table_entry(
                        "cargo",
                        vec![entry(WS, "this-lint-does-not-exist", string("warn"), "\"warn\"", 0)],
                    )],
                ),
            ],
        )],
    };
    let ws = manifest(WS, ws_doc, Features::new());
    let inherit_from = INHERITING_PKG.find("workspace = true").unwrap();
    let pkg_doc = DocTable {
        entries: vec![
            table_entry("package", vec![entry(INHERITING_PKG, "name", string("foo"), "\"foo\"", 0)]),
            table_entry(
                "lints",
                vec![entry(INHERITING_PKG, "workspace", DocValue::Boolean(true), "true", inherit_from)],
            ),
        ],
    };
    let pkg = manifest(INHERITING_PKG, pkg_doc, Features::new());
    let table = declared(&[("this-lint-does-not-exist", LintLevel::Warn)]);
    let mut errors: usize = 0;
    let reports = analyze_cargo_lints_table(
        ManifestFor::Package(&pkg),
        "foo/Cargo.toml",
        &table,
        &mut errors,
        Some((&ws, "Cargo.toml")),
        &LintCatalog::builtin(),
        &CliUnstable::new(),
    );
    assert_eq!(reports.len(), 1);
    let r = &reports[0];
    assert_eq!(r.groups.len(), 2);
    let (path, sp, kind, _) = snippet_span(&group_elements(r, 0)[0]);
    assert_eq!(path, "Cargo.toml");
    assert_eq!(sp, span(WS, "this-lint-does-not-exist", 0));
    assert_eq!(kind, AnnotationKind::Primary);
    assert_eq!(r.groups[1].level, Severity::Note);
    assert_eq!(r.groups[1].title_kind, TitleKind::Secondary);
    assert_eq!(r.groups[1].title, "`cargo::this-lint-does-not-exist` was inherited");
    let (path, sp, kind, _) = snippet_span(&group_elements(r, 1)[0]);
    assert_eq!(path, "foo/Cargo.toml");
    assert_eq!(sp, inherit_from..inherit_from + "workspace = true".len());
    assert_eq!(kind, AnnotationKind::Context);
}

#[test]
fn workspace_scope_uses_workspace_key_path() {
    let ws_doc = DocTable {
        entries: vec![table_entry(
            "workspace",
            vec![table_entry(
                "lints",
                vec![table_entry(
                    "cargo",
                    vec![entry(WS, "this-lint-does-not-exist", string("warn"), "\"warn\"", 0)],
                )],
            )],
        )],
    };
    let ws = manifest(WS, ws_doc, Features::new());
    assert_eq!(ManifestFor::Workspace(&ws).contents(), Some(WS));
    let table = declared(&[("this-lint-does-not-exist", LintLevel::Warn)]);
    let mut errors: usize = 0;
    let reports = analyze_cargo_lints_table(
        ManifestFor::Workspace(&ws),
        "Cargo.toml",
        &table,
        &mut errors,
        None,
        &LintCatalog::builtin(),
        &CliUnstable::new(),
    );
    assert_eq!(reports.len(), 1);
    assert_eq!(reports[0].groups.len(), 1);
    assert_eq!(snippet_span(&group_elements(&reports[0], 0)[0]).1, span(WS, "this-lint-does-not-exist", 0));
}

#[test]
fn manifest_for_accessors() {
    let pkg = manifest(TEAPOT_PKG, teapot_doc(), dummy_enabled());
    let scope = ManifestFor::Package(&pkg);
    assert_eq!(scope.contents(), Some(TEAPOT_PKG));
    assert_eq!(scope.edition(), Edition::Edition2021);
    assert!(scope.unstable_features().is_enabled(&Feature::test_dummy_unstable()));
    assert_eq!(scope.document().unwrap().entries.len(), 1);
    let bare = Manifest { contents: None, document: None, edition: Edition::Edition2015, unstable_features: Features::new() };
    let ws = ManifestFor::Workspace(&bare);
    assert!(ws.contents().is_none());
    assert!(ws.document().is_none());
    assert_eq!(ws.edition(), Edition::Edition2015);
    let level = scope.lint_level(&LintsTable::new(), manifest_lints::catalog::unknown_lints(), &CliUnstable::new());
    assert_eq!(level.0, LintLevel::Warn);
}
