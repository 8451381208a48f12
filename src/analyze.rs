//! The validation pass over a manifest's `[lints.cargo]` table: feature-gate
//! errors for gated lints that are not unlocked, and reports of unknown names.
use vstd::prelude::*;

use core::ops::Range;

use crate::catalog::{spec_unknown_lints, unknown_lints, Gated, LintCatalog};
use crate::document::{find_span, get_key_value_span};
use crate::features::{CliUnstable, Feature, Features};
use crate::level::{LintLevel, LintLevelReason, Severity};
use crate::manifest::{Manifest, ManifestFor};
use crate::report::{
    one_span_snippet, reports_view, snippet_with, AnnotationKind, Element, ElementView, Group,
    GroupView, Report, ReportView, TitleKind,
};
use crate::resolve::{spec_emitted_source, spec_level};
use crate::settings::{entry_names, LintsTable};
use crate::text::{dashed, str_views, to_dashed, to_underscored, underscored};

verus! {

/// Where a scope declares the lint `name`.
pub open spec fn own_key_path(scope: ManifestFor, name: Seq<char>) -> Seq<Seq<char>> {
    match scope {
        ManifestFor::Package(_) => seq!["lints"@, "cargo"@, name],
        ManifestFor::Workspace(_) => seq!["workspace"@, "lints"@, "cargo"@, name],
    }
}

pub open spec fn workspace_key_path(name: Seq<char>) -> Seq<Seq<char>> {
    seq!["workspace"@, "lints"@, "cargo"@, name]
}

/// The span of `path` in a manifest, paired with the manifest's text, where
/// the manifest has a tree and a text and the path is found.
pub open spec fn span_in(m: Manifest, path: Seq<Seq<char>>) -> Option<(Seq<char>, Range<usize>)> {
    match (m.document, m.contents) {
        (Some(d), Some(c)) => match find_span(d, path) {
            Some((k, _)) => Some((c@, k)),
            None => None,
        },
        _ => None,
    }
}

/// Where `name` was written: the source text, the path to show, and the span
/// of the key. The scope's own manifest is tried first, then the workspace's.
pub open spec fn spec_locate(
    scope: ManifestFor,
    manifest_path: Seq<char>,
    workspace: Option<(&Manifest, &str)>,
    name: Seq<char>,
) -> Option<(Seq<char>, Seq<char>, Range<usize>)> {
    match span_in(*scope.spec_manifest(), own_key_path(scope, name)) {
        Some((c, k)) => Some((c, manifest_path, k)),
        None => match workspace {
            Some((w, wp)) => match span_in(*w, workspace_key_path(name)) {
                Some((c, k)) => Some((c, wp@, k)),
                None => None,
            },
            None => None,
        },
    }
}

/// The note that points at a package's `lints.workspace` declaration, for a
/// package that inherits its lints.
pub open spec fn spec_inherit_group(
    scope: ManifestFor,
    manifest_path: Seq<char>,
    name: Seq<char>,
) -> Option<GroupView> {
    match scope {
        ManifestFor::Package(m) => match (m.document, m.contents) {
            (Some(d), Some(c)) => match find_span(d, seq!["lints"@, "workspace"@]) {
                Some((k, v)) => Some(
                    GroupView {
                        level: Severity::Note,
                        title_kind: TitleKind::Secondary,
                        title: "`cargo::"@ + name + "` was inherited"@,
                        elements: seq![
                            one_span_snippet(
                                c@,
                                manifest_path,
                                AnnotationKind::Context,
                                Range { start: k.start, end: v.end },
                                None,
                            ),
                        ],
                    },
                ),
                None => None,
            },
            _ => None,
        },
        ManifestFor::Workspace(_) => None,
    }
}

pub open spec fn with_inherit(first: GroupView, inherit: Option<GroupView>) -> Seq<GroupView> {
    match inherit {
        Some(g) => seq![first, g],
        None => seq![first],
    }
}

pub open spec fn unstable_title(name: Seq<char>) -> Seq<char> {
    "use of unstable lint `"@ + name + "`"@
}

pub open spec fn unstable_label(feature: Seq<char>) -> Seq<char> {
    "this is behind `"@ + dashed(feature) + "`, which is not enabled"@
}

pub open spec fn unstable_help(feature: Seq<char>) -> Seq<char> {
    "consider adding `cargo-features = [\""@ + dashed(feature) + "\"]` to the top of the manifest"@
}

/// The error for the lint or group `name`, gated behind `feature`, which the
/// manifest does not enable. There is none where the manifest has a tree and
/// a text but `name` is found in neither manifest: it was declared at the
/// other scope, which reports it itself.
pub open spec fn spec_feature_report(
    scope: ManifestFor,
    manifest_path: Seq<char>,
    workspace: Option<(&Manifest, &str)>,
    name: Seq<char>,
    feature: Feature,
) -> Option<ReportView> {
    let m = scope.spec_manifest();
    let help = ElementView::Message(Severity::Help, unstable_help(feature.name@));
    match spec_locate(scope, manifest_path, workspace, name) {
        Some((src, p, k)) => Some(
            ReportView {
                groups: with_inherit(
                    GroupView {
                        level: Severity::Error,
                        title_kind: TitleKind::Primary,
                        title: unstable_title(name),
                        elements: seq![
                            one_span_snippet(
                                src,
                                p,
                                AnnotationKind::Primary,
                                k,
                                Some(unstable_label(feature.name@)),
                            ),
                            help,
                        ],
                    },
                    spec_inherit_group(scope, manifest_path, name),
                ),
                force: true,
            },
        ),
        None => if m.document is Some && m.contents is Some {
            None
        } else {
            Some(
                ReportView {
                    groups: seq![
                        GroupView {
                            level: Severity::Error,
                            title_kind: TitleKind::Primary,
                            title: unstable_title(name),
                            elements: seq![help],
                        },
                    ],
                    force: true,
                },
            )
        },
    }
}

fn span_of<'a>(m: &'a Manifest, path: &[&str]) -> (r: Option<(&'a str, Range<usize>)>)
    ensures
        r matches Some((c, k)) ==> span_in(*m, str_views(path@)) == Some((c@, k)),
        r is None ==> span_in(*m, str_views(path@)) is None,
{
    match (&m.document, &m.contents) {
        (Some(d), Some(c)) => match get_key_value_span(d, path) {
            Some(s) => Some((c.as_str(), s.key)),
            None => None,
        },
        _ => None,
    }
}

fn locate<'a>(
    scope: &ManifestFor<'a>,
    manifest_path: &'a str,
    workspace: Option<(&'a Manifest, &'a str)>,
    name: &str,
) -> (r: Option<(&'a str, &'a str, Range<usize>)>)
    ensures
        r matches Some((c, p, k)) ==> spec_locate(*scope, manifest_path@, workspace, name@) == Some(
            (c@, p@, k),
        ),
        r is None ==> spec_locate(*scope, manifest_path@, workspace, name@) is None,
{
    let m = match scope {
        ManifestFor::Package(p) => *p,
        ManifestFor::Workspace(p) => *p,
    };
    let own = match scope {
        ManifestFor::Package(_) => {
            let path = ["lints", "cargo", name];
            assert(str_views(path@) =~= own_key_path(*scope, name@));
            span_of(m, &path)
        },
        ManifestFor::Workspace(_) => {
            let path = ["workspace", "lints", "cargo", name];
            assert(str_views(path@) =~= own_key_path(*scope, name@));
            span_of(m, &path)
        },
    };
    if let Some((c, k)) = own {
        return Some((c, manifest_path, k));
    }
    match workspace {
        Some((w, wp)) => {
            let path = ["workspace", "lints", "cargo", name];
            assert(str_views(path@) =~= workspace_key_path(name@));
            match span_of(w, &path) {
                Some((c, k)) => Some((c, wp, k)),
                None => None,
            }
        },
        None => None,
    }
}

fn concat3(a: &str, b: &str, c: &str) -> (r: String)
    ensures
        r@ == a@ + b@ + c@,
{
    let s = String::from_str(a);
    let s = s.concat(b);
    s.concat(c)
}

fn inherit_group(scope: &ManifestFor, manifest_path: &str, name: &str) -> (r: Option<Group>)
    ensures
        r matches Some(g) ==> spec_inherit_group(*scope, manifest_path@, name@) == Some(g@),
        r is None ==> spec_inherit_group(*scope, manifest_path@, name@) is None,
{
    match scope {
        ManifestFor::Package(m) => {
            match (&m.document, &m.contents) {
                (Some(d), Some(c)) => {
                    let path = ["lints", "workspace"];
                    assert(str_views(path@) =~= seq!["lints"@, "workspace"@]);
                    match get_key_value_span(d, &path) {
                        Some(s) => {
                            let mut elements = Vec::new();
                            elements.push(
                                snippet_with(
                                    c.as_str(),
                                    manifest_path,
                                    AnnotationKind::Context,
                                    Range { start: s.key.start, end: s.value.end },
                                    None,
                                ),
                            );
                            let g = Group {
                                level: Severity::Note,
                                title_kind: TitleKind::Secondary,
                                title: concat3("`cargo::", name, "` was inherited"),
                                elements,
                            };
                            assert(g@.elements =~= spec_inherit_group(
                                *scope,
                                manifest_path@,
                                name@,
                            )->0.elements);
                            Some(g)
                        },
                        None => None,
                    }
                },
                _ => None,
            }
        },
        ManifestFor::Workspace(_) => None,
    }
}

fn report_of(first: Group, inherit: Option<Group>, force: bool) -> (r: Report)
    ensures
        r@ == (ReportView {
            groups: with_inherit(
                first@,
                match inherit {
                    Some(g) => Some(g@),
                    None => None,
                },
            ),
            force,
        }),
{
    let ghost first_view = first@;
    let ghost inherit_view = match &inherit {
        Some(g) => Some(g@),
        None => None::<GroupView>,
    };
    let mut groups = Vec::new();
    groups.push(first);
    match inherit {
        Some(g) => groups.push(g),
        None => {},
    }
    let r = Report { groups, force };
    assert(r@.groups =~= with_inherit(first_view, inherit_view));
    r
}

/// The error for the lint or group `lint_name` gated behind `feature_gate`,
/// which the manifest does not enable; see [`spec_feature_report`].
pub fn report_feature_not_enabled(
    lint_name: &str,
    feature_gate: &Feature,
    manifest: &ManifestFor,
    manifest_path: &str,
    workspace: Option<(&Manifest, &str)>,
) -> (r: Option<Report>)
    ensures
        r matches Some(rep) ==> spec_feature_report(
            *manifest,
            manifest_path@,
            workspace,
            lint_name@,
            *feature_gate,
        ) == Some(rep@),
        r is None ==> spec_feature_report(
            *manifest,
            manifest_path@,
            workspace,
            lint_name@,
            *feature_gate,
        ) is None,
{
    let dash_feature_name = to_dashed(feature_gate.name());
    let title = concat3("use of unstable lint `", lint_name, "`");
    let label = concat3("this is behind `", dash_feature_name.as_str(), "`, which is not enabled");
    let help = concat3(
        "consider adding `cargo-features = [\"",
        dash_feature_name.as_str(),
        "\"]` to the top of the manifest",
    );
    let ghost help_view = ElementView::Message(Severity::Help, help@);
    match locate(manifest, manifest_path, workspace, lint_name) {
        Some((contents, path, span)) => {
            let ghost label_view = label@;
            let mut elements = Vec::new();
            elements.push(snippet_with(contents, path, AnnotationKind::Primary, span, Some(label)));
            elements.push(Element::Message(Severity::Help, help));
            let first = Group {
                level: Severity::Error,
                title_kind: TitleKind::Primary,
                title,
                elements,
            };
            assert(first@.elements =~= seq![
                one_span_snippet(contents@, path@, AnnotationKind::Primary, span, Some(label_view)),
                help_view,
            ]);
            let inherit = inherit_group(manifest, manifest_path, lint_name);
            Some(report_of(first, inherit, true))
        },
        None => {
            if manifest.document().is_some() && manifest.contents().is_some() {
                // Declared at the other scope, which reports it.
                return None;
            }
            let mut elements = Vec::new();
            elements.push(Element::Message(Severity::Help, help));
            let first = Group {
                level: Severity::Error,
                title_kind: TitleKind::Primary,
                title,
                elements,
            };
            assert(first@.elements =~= seq![help_view]);
            let mut groups = Vec::new();
            groups.push(first);
            let r = Report { groups, force: true };
            assert(r@.groups =~= seq![first@]);
            Some(r)
        },
    }
}

/// How the catalog knows `name`: as a lint or a group, with its gate, or as a
/// dynamic group, which has none. Unknown names give `None`.
pub open spec fn spec_gate_of(catalog: LintCatalog, name: Seq<char>) -> Option<Option<Gated>> {
    match catalog.spec_find_lint(name) {
        Some(l) => Some(l.feature_gate),
        None => match catalog.spec_find_group(name) {
            Some(g) => Some(g.feature_gate),
            None => match catalog.spec_find_dynamic_group(name) {
                Some(_) => Some(None),
                None => None,
            },
        },
    }
}

/// The manifest feature that `name` is gated behind and that `features` does
/// not enable, if any.
pub open spec fn spec_missing_feature(
    catalog: LintCatalog,
    features: Features,
    name: Seq<char>,
) -> Option<Feature> {
    match spec_gate_of(catalog, name) {
        Some(Some(Gated::Feature(f))) => if !features.spec_is_enabled(f.name@) {
            Some(f)
        } else {
            None
        },
        _ => None,
    }
}

/// The feature-gate errors for `names`, in order.
pub open spec fn spec_feature_reports(
    scope: ManifestFor,
    manifest_path: Seq<char>,
    workspace: Option<(&Manifest, &str)>,
    catalog: LintCatalog,
    names: Seq<Seq<char>>,
) -> Seq<ReportView>
    decreases names.len(),
{
    if names.len() == 0 {
        seq![]
    } else {
        let before = spec_feature_reports(scope, manifest_path, workspace, catalog, names.drop_last());
        match spec_missing_feature(catalog, scope.spec_manifest().unstable_features, names.last()) {
            Some(f) => match spec_feature_report(scope, manifest_path, workspace, names.last(), f) {
                Some(r) => before.push(r),
                None => before,
            },
            None => before,
        }
    }
}

/// The names among `names` that the catalog does not know, in order.
pub open spec fn spec_unknown_names(catalog: LintCatalog, names: Seq<Seq<char>>) -> Seq<Seq<char>>
    decreases names.len(),
{
    if names.len() == 0 {
        seq![]
    } else {
        let before = spec_unknown_names(catalog, names.drop_last());
        if spec_gate_of(catalog, names.last()) is None {
            before.push(names.last())
        } else {
            before
        }
    }
}

/// A known lint or group that `name` spells with `-` for `_`: its name, and
/// whether it is a lint or a group.
pub open spec fn spec_similar_name(catalog: LintCatalog, name: Seq<char>) -> Option<(Seq<char>, Seq<char>)> {
    match catalog.spec_find_lint(underscored(name)) {
        Some(l) => Some((l.name@, "lint"@)),
        None => match catalog.spec_find_group(underscored(name)) {
            Some(g) => Some((g.name@, "group"@)),
            None => None,
        },
    }
}

pub open spec fn unknown_title(name: Seq<char>) -> Seq<char> {
    spec_unknown_lints().desc@ + ": `"@ + name + "`"@
}

pub open spec fn similar_help(kind: Seq<char>, similar: Seq<char>) -> Seq<char> {
    "there is a "@ + kind + " with a similar name: `"@ + similar + "`"@
}

/// The level of the lint that unknown names are reported under.
pub open spec fn spec_unknown_level(
    scope: ManifestFor,
    table: LintsTable,
    cli: CliUnstable,
) -> (LintLevel, LintLevelReason) {
    spec_level(
        spec_unknown_lints(),
        table,
        scope.spec_manifest().edition,
        scope.spec_manifest().unstable_features,
        cli,
    )
}

/// The report of the unknown name `name` at `level`, with `note` where one is
/// given; none where `name` is found in neither manifest.
pub open spec fn spec_unknown_report(
    scope: ManifestFor,
    manifest_path: Seq<char>,
    workspace: Option<(&Manifest, &str)>,
    catalog: LintCatalog,
    name: Seq<char>,
    level: LintLevel,
    note: Option<Seq<char>>,
) -> Option<ReportView> {
    match spec_locate(scope, manifest_path, workspace, name) {
        Some((src, p, k)) => Some(
            ReportView {
                groups: with_inherit(
                    GroupView {
                        level: level.spec_severity(),
                        title_kind: TitleKind::Primary,
                        title: unknown_title(name),
                        elements: seq![one_span_snippet(src, p, AnnotationKind::Primary, k, None)]
                            + match note {
                            Some(n) => seq![ElementView::Message(Severity::Note, n)],
                            None => seq![],
                        } + match spec_similar_name(catalog, name) {
                            Some((similar, kind)) => seq![
                                ElementView::Message(Severity::Help, similar_help(kind, similar)),
                            ],
                            None => seq![],
                        },
                    },
                    spec_inherit_group(scope, manifest_path, name),
                ),
                force: level.spec_force(),
            },
        ),
        None => None,
    }
}

/// The reports of the unknown names `names` at `level`; the first report
/// carries the note `source`, which says where the level comes from.
pub open spec fn spec_unknown_reports(
    scope: ManifestFor,
    manifest_path: Seq<char>,
    workspace: Option<(&Manifest, &str)>,
    catalog: LintCatalog,
    names: Seq<Seq<char>>,
    level: LintLevel,
    source: Seq<char>,
) -> Seq<ReportView>
    decreases names.len(),
{
    if names.len() == 0 {
        seq![]
    } else {
        let before = spec_unknown_reports(
            scope,
            manifest_path,
            workspace,
            catalog,
            names.drop_last(),
            level,
            source,
        );
        let note = if before.len() == 0 {
            Some(source)
        } else {
            None
        };
        match spec_unknown_report(scope, manifest_path, workspace, catalog, names.last(), level, note) {
            Some(r) => before.push(r),
            None => before,
        }
    }
}

/// The reports of the unknown names `names`: none where unknown names are
/// allowed, else one for each name that is found in either manifest.
pub open spec fn spec_output_unknown_lints(
    scope: ManifestFor,
    manifest_path: Seq<char>,
    workspace: Option<(&Manifest, &str)>,
    catalog: LintCatalog,
    table: LintsTable,
    cli: CliUnstable,
    names: Seq<Seq<char>>,
) -> Seq<ReportView> {
    let (level, reason) = spec_unknown_level(scope, table, cli);
    if level == LintLevel::Allow {
        seq![]
    } else {
        spec_unknown_reports(
            scope,
            manifest_path,
            workspace,
            catalog,
            names,
            level,
            spec_emitted_source(spec_unknown_lints(), level, reason),
        )
    }
}

pub open spec fn strings_view(v: Seq<String>) -> Seq<Seq<char>> {
    v.map_values(|s: String| s@)
}

fn similar_name(catalog: &LintCatalog, name: &str) -> (r: Option<(&'static str, &'static str)>)
    ensures
        r matches Some((similar, kind)) ==> spec_similar_name(*catalog, name@) == Some(
            (similar@, kind@),
        ),
        r is None ==> spec_similar_name(*catalog, name@) is None,
{
    let underscore_lint_name = to_underscored(name);
    if let Some(lint) = catalog.find_lint(underscore_lint_name.as_str()) {
        Some((lint.name, "lint"))
    } else if let Some(group) = catalog.find_group(underscore_lint_name.as_str()) {
        Some((group.name, "group"))
    } else {
        None
    }
}

fn unknown_report(
    manifest: &ManifestFor,
    manifest_path: &str,
    workspace: Option<(&Manifest, &str)>,
    catalog: &LintCatalog,
    lint_name: &str,
    lint_level: LintLevel,
    note: Option<String>,
) -> (r: Option<Report>)
    requires
        lint_level != LintLevel::Allow,
    ensures
        r matches Some(rep) ==> spec_unknown_report(
            *manifest,
            manifest_path@,
            workspace,
            *catalog,
            lint_name@,
            lint_level,
            match note {
                Some(n) => Some(n@),
                None => None,
            },
        ) == Some(rep@),
        r is None ==> spec_unknown_report(
            *manifest,
            manifest_path@,
            workspace,
            *catalog,
            lint_name@,
            lint_level,
            match note {
                Some(n) => Some(n@),
                None => None,
            },
        ) is None,
{
    let ghost note_view = match &note {
        Some(n) => Some(n@),
        None => None::<Seq<char>>,
    };
    let (contents, path, span) = match locate(manifest, manifest_path, workspace, lint_name) {
        Some(found) => found,
        None => return None,
    };
    let title = concat3(unknown_lints().desc, ": `", lint_name);
    let title = title.concat("`");
    let mut elements = Vec::new();
    elements.push(snippet_with(contents, path, AnnotationKind::Primary, span, None));
    let ghost first_view = elements@[0]@;
    if let Some(n) = note {
        elements.push(Element::Message(Severity::Note, n));
    }
    let ghost with_note = elements@.map_values(|e: Element| e@);
    let similar = similar_name(catalog, lint_name);
    if let Some((similar, kind)) = similar {
        let help = concat3("there is a ", kind, " with a similar name: `");
        let help = help.concat(similar);
        let help = help.concat("`");
        elements.push(Element::Message(Severity::Help, help));
    }
    let first = Group {
        level: lint_level.to_diagnostic_level(),
        title_kind: TitleKind::Primary,
        title,
        elements,
    };
    assert(with_note =~= seq![first_view] + match note_view {
        Some(n) => seq![ElementView::Message(Severity::Note, n)],
        None => seq![],
    });
    assert(first@.elements =~= seq![first_view] + match note_view {
        Some(n) => seq![ElementView::Message(Severity::Note, n)],
        None => seq![],
    } + match spec_similar_name(*catalog, lint_name@) {
        Some((similar, kind)) => seq![
            ElementView::Message(Severity::Help, similar_help(kind, similar)),
        ],
        None => seq![],
    });
    let inherit = inherit_group(manifest, manifest_path, lint_name);
    Some(report_of(first, inherit, lint_level.force()))
}

/// Reports each of the unknown names `unknown_lints` under the level that the
/// `unknown_lints` lint resolves to, and counts the reports at an error level.
pub fn output_unknown_lints(
    unknown_lints: &Vec<String>,
    manifest: &ManifestFor,
    manifest_path: &str,
    cargo_lints: &LintsTable,
    error_count: &mut usize,
    workspace: Option<(&Manifest, &str)>,
    catalog: &LintCatalog,
    cli_unstable: &CliUnstable,
) -> (r: Vec<Report>)
    requires
        *old(error_count) + unknown_lints@.len() <= usize::MAX,
    ensures
        reports_view(r@) == spec_output_unknown_lints(
            *manifest,
            manifest_path@,
            workspace,
            *catalog,
            *cargo_lints,
            *cli_unstable,
            strings_view(unknown_lints@),
        ),
        *final(error_count) == *old(error_count) + if spec_unknown_level(
            *manifest,
            *cargo_lints,
            *cli_unstable,
        ).0.spec_is_error() {
            r@.len() as int
        } else {
            0
        },
{
    let unknown = crate::catalog::unknown_lints();
    let (lint_level, reason) = manifest.lint_level(cargo_lints, unknown, cli_unstable);
    let mut reports: Vec<Report> = Vec::new();
    if lint_level == LintLevel::Allow {
        assert(reports_view(reports@) =~= seq![]);
        return reports;
    }
    let source = unknown.emitted_source(lint_level, reason);
    let ghost names = strings_view(unknown_lints@);
    let mut i: usize = 0;
    while i < unknown_lints.len()
        invariant
            names == strings_view(unknown_lints@),
            i <= unknown_lints@.len(),
            lint_level != LintLevel::Allow,
            reports@.len() <= i,
            *old(error_count) + unknown_lints@.len() <= usize::MAX,
            reports_view(reports@) == spec_unknown_reports(
                *manifest,
                manifest_path@,
                workspace,
                *catalog,
                names.subrange(0, i as int),
                lint_level,
                source@,
            ),
            *error_count == *old(error_count) + if lint_level.spec_is_error() {
                reports@.len() as int
            } else {
                0
            },
        decreases unknown_lints@.len() - i,
    {
        let lint_name = unknown_lints[i].as_str();
        let note = if reports.len() == 0 {
            Some(source.clone())
        } else {
            None
        };
        let found = unknown_report(manifest, manifest_path, workspace, catalog, lint_name, lint_level, note);
        assert(names.subrange(0, i + 1).drop_last() =~= names.subrange(0, i as int));
        assert(names.subrange(0, i + 1).last() == lint_name@);
        if let Some(report) = found {
            if lint_level.is_error() {
                *error_count = *error_count + 1;
            }
            let ghost before = reports@;
            reports.push(report);
            assert(reports_view(reports@) =~= reports_view(before).push(reports@.last()@));
        }
        i = i + 1;
    }
    assert(names.subrange(0, names.len() as int) =~= names);
    reports
}

/// How the catalog knows `name`; see [`spec_gate_of`].
fn gate_of(catalog: &LintCatalog, name: &str) -> (r: Option<Option<Gated>>)
    ensures
        r == spec_gate_of(*catalog, name@),
{
    if let Some(lint) = catalog.find_lint(name) {
        Some(lint.feature_gate)
    } else if let Some(group) = catalog.find_group(name) {
        Some(group.feature_gate)
    } else if let Some(_) = catalog.find_dynamic_group(name) {
        Some(None)
    } else {
        None
    }
}

/// Validates the `[lints.cargo]` table `cargo_lints` of the manifest at scope
/// `manifest`, shown under `manifest_path`.
///
/// Each declared name that the catalog knows as a lint or group gated behind a
/// manifest feature that the manifest does not enable gets an error report,
/// and adds one to `error_count`. The names that the catalog does not know are
/// reported after them, as [`output_unknown_lints`] does. Names are looked up
/// in the scope's own manifest first, then in `workspace`, the workspace
/// manifest and the path to show for it, where one is given.
pub fn analyze_cargo_lints_table(
    manifest: ManifestFor,
    manifest_path: &str,
    cargo_lints: &LintsTable,
    error_count: &mut usize,
    workspace: Option<(&Manifest, &str)>,
    catalog: &LintCatalog,
    cli_unstable: &CliUnstable,
) -> (r: Vec<Report>)
    requires
        *old(error_count) + cargo_lints@.len() <= usize::MAX,
    ensures
        ({
            let names = entry_names(cargo_lints@);
            let gated = spec_feature_reports(manifest, manifest_path@, workspace, *catalog, names);
            let unknown = spec_output_unknown_lints(
                manifest,
                manifest_path@,
                workspace,
                *catalog,
                *cargo_lints,
                *cli_unstable,
                spec_unknown_names(*catalog, names),
            );
            &&& reports_view(r@) == gated + unknown
            &&& *final(error_count) == *old(error_count) + gated.len() + if spec_unknown_level(
                manifest,
                *cargo_lints,
                *cli_unstable,
            ).0.spec_is_error() {
                unknown.len() as int
            } else {
                0
            }
        }),
{
    let ghost names = entry_names(cargo_lints@);
    let mut reports: Vec<Report> = Vec::new();
    let mut unknown_lints: Vec<String> = Vec::new();
    let mut i: usize = 0;
    while i < cargo_lints.len()
        invariant
            names == entry_names(cargo_lints@),
            i <= cargo_lints@.len(),
            reports@.len() + unknown_lints@.len() <= i,
            *old(error_count) + cargo_lints@.len() <= usize::MAX,
            reports_view(reports@) == spec_feature_reports(
                manifest,
                manifest_path@,
                workspace,
                *catalog,
                names.subrange(0, i as int),
            ),
            strings_view(unknown_lints@) == spec_unknown_names(*catalog, names.subrange(0, i as int)),
            *error_count == *old(error_count) + reports@.len(),
        decreases cargo_lints@.len() - i,
    {
        let lint_name = cargo_lints.name_at(i);
        assert(names[i as int] == lint_name@);
        assert(names.subrange(0, i + 1).drop_last() =~= names.subrange(0, i as int));
        assert(names.subrange(0, i + 1).last() == lint_name@);
        match gate_of(catalog, lint_name.as_str()) {
            None => {
                let ghost before = unknown_lints@;
                unknown_lints.push(lint_name.clone());
                assert(strings_view(unknown_lints@) =~= strings_view(before).push(lint_name@));
            },
            Some(gate) => {
                // Only lints gated by a manifest feature are checked here.
                if let Some(Gated::Feature(feature_gate)) = gate {
                    if !manifest.unstable_features().is_enabled(&feature_gate) {
                        let found = report_feature_not_enabled(
                            lint_name.as_str(),
                            &feature_gate,
                            &manifest,
                            manifest_path,
                            workspace,
                        );
                        if let Some(report) = found {
                            *error_count = *error_count + 1;
                            let ghost before = reports@;
                            reports.push(report);
                            assert(reports_view(reports@) =~= reports_view(before).push(
                                reports@.last()@,
                            ));
                        }
                    }
                }
            },
        }
        i = i + 1;
    }
    assert(names.subrange(0, names.len() as int) =~= names);
    let unknown_reports = output_unknown_lints(
        &unknown_lints,
        &manifest,
        manifest_path,
        cargo_lints,
        error_count,
        workspace,
        catalog,
        cli_unstable,
    );
    let ghost gated = reports_view(reports@);
    let ghost rest = reports_view(unknown_reports@);
    let mut rest_reports = unknown_reports;
    reports.append(&mut rest_reports);
    assert(reports_view(reports@) =~= gated + rest);
    reports
}

/// A package that inherits its lints (it declares `lints.workspace`) and does
/// not declare the unknown name `name` itself gets, where the workspace
/// manifest declares it and unknown names are not allowed, one report whose
/// primary snippet is the workspace's declaration of `name`, followed by a
/// note whose context snippet is the package's `lints.workspace` entry.
pub proof fn lemma_inherited_unknown_lint_provenance(
    pkg: &Manifest,
    manifest_path: Seq<char>,
    ws: &Manifest,
    ws_path: &str,
    catalog: LintCatalog,
    table: LintsTable,
    cli: CliUnstable,
    name: Seq<char>,
)
    requires
        pkg.document is Some,
        pkg.contents is Some,
        find_span(pkg.document->0, seq!["lints"@, "workspace"@]) is Some,
        span_in(*pkg, seq!["lints"@, "cargo"@, name]) is None,
        span_in(*ws, workspace_key_path(name)) is Some,
        spec_unknown_level(ManifestFor::Package(pkg), table, cli).0 != LintLevel::Allow,
    ensures
        ({
            let out = spec_output_unknown_lints(
                ManifestFor::Package(pkg),
                manifest_path,
                Some((ws, ws_path)),
                catalog,
                table,
                cli,
                seq![name],
            );
            let (ws_text, key) = span_in(*ws, workspace_key_path(name))->0;
            let (inherit_key, inherit_value) = find_span(
                pkg.document->0,
                seq!["lints"@, "workspace"@],
            )->0;
            &&& out.len() == 1
            &&& out[0].groups.len() == 2
            &&& out[0].groups[0].elements[0] == one_span_snippet(
                ws_text,
                ws_path@,
                AnnotationKind::Primary,
                key,
                None,
            )
            &&& out[0].groups[1] == GroupView {
                level: Severity::Note,
                title_kind: TitleKind::Secondary,
                title: "`cargo::"@ + name + "` was inherited"@,
                elements: seq![
                    one_span_snippet(
                        pkg.contents->0@,
                        manifest_path,
                        AnnotationKind::Context,
                        Range { start: inherit_key.start, end: inherit_value.end },
                        None,
                    ),
                ],
            }
        }),
{
    let scope = ManifestFor::Package(pkg);
    let names = seq![name];
    assert(names.drop_last() =~= Seq::<Seq<char>>::empty());
    assert(own_key_path(scope, name) =~= seq!["lints"@, "cargo"@, name]);
    reveal_with_fuel(spec_unknown_reports, 2);
}

} // verus!
