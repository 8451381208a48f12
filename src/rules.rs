//! Lints that fire on a key of the manifest, such as `package.im-a-teapot`.
use vstd::prelude::*;

use core::ops::Range;

use crate::catalog::{im_a_teapot, Lint};
use crate::document::{find_span, get_key_value_span};
use crate::text::str_views;
use crate::features::CliUnstable;
use crate::level::{LintLevel, Severity};
use crate::manifest::{Manifest, ManifestFor};
use crate::report::{one_span_snippet, snippet_with, AnnotationKind, Element, ElementView, Group, GroupView, Report, ReportView, TitleKind};
use crate::resolve::{spec_emitted_source, spec_level};
use crate::settings::LintsTable;

verus! {

/// The report of `lint` firing on the key at `key_path` of the package
/// manifest `pkg`: none where the lint resolves to `Allow`, or the manifest has
/// no tree or text, or the key is not there.
pub open spec fn spec_key_lint_report(
    lint: Lint,
    pkg: Manifest,
    manifest_path: Seq<char>,
    key_path: Seq<Seq<char>>,
    table: LintsTable,
    cli: CliUnstable,
) -> Option<ReportView> {
    let (level, reason) = spec_level(lint, table, pkg.edition, pkg.unstable_features, cli);
    if level == LintLevel::Allow {
        None
    } else {
        match (pkg.document, pkg.contents) {
            (Some(d), Some(c)) => match find_span(d, key_path) {
                Some((k, v)) => Some(
                    ReportView {
                        groups: seq![
                            GroupView {
                                level: level.spec_severity(),
                                title_kind: TitleKind::Primary,
                                title: lint.desc@,
                                elements: seq![
                                    one_span_snippet(
                                        c@,
                                        manifest_path,
                                        AnnotationKind::Primary,
                                        Range { start: k.start, end: v.end },
                                        None,
                                    ),
                                    ElementView::Message(
                                        Severity::Note,
                                        spec_emitted_source(lint, level, reason),
                                    ),
                                ],
                            },
                        ],
                        force: level.spec_force(),
                    },
                ),
                None => None,
            },
            _ => None,
        }
    }
}

/// Reports `lint` on the key at `key_path` of the package manifest `pkg`, as
/// [`spec_key_lint_report`] says, and counts a report at an error level.
pub fn report_lint_on_key(
    lint: &Lint,
    pkg: &Manifest,
    manifest_path: &str,
    key_path: &[&str],
    pkg_lints: &LintsTable,
    cli_unstable: &CliUnstable,
    error_count: &mut usize,
) -> (r: Option<Report>)
    requires
        *old(error_count) < usize::MAX,
    ensures
        r matches Some(rep) ==> spec_key_lint_report(
            *lint,
            *pkg,
            manifest_path@,
            str_views(key_path@),
            *pkg_lints,
            *cli_unstable,
        ) == Some(rep@),
        r is None ==> spec_key_lint_report(
            *lint,
            *pkg,
            manifest_path@,
            str_views(key_path@),
            *pkg_lints,
            *cli_unstable,
        ) is None,
        *final(error_count) == *old(error_count) + if r is Some && spec_level(
            *lint,
            *pkg_lints,
            pkg.edition,
            pkg.unstable_features,
            *cli_unstable,
        ).0.spec_is_error() {
            1int
        } else {
            0
        },
{
    let scope = ManifestFor::Package(pkg);
    let (lint_level, reason) = scope.lint_level(pkg_lints, *lint, cli_unstable);
    if lint_level == LintLevel::Allow {
        return None;
    }
    let (document, contents) = match (&pkg.document, &pkg.contents) {
        (Some(d), Some(c)) => (d, c),
        _ => return None,
    };
    let span = match get_key_value_span(document, key_path) {
        Some(s) => s,
        None => return None,
    };
    if lint_level.is_error() {
        *error_count = *error_count + 1;
    }
    let level = lint_level.to_diagnostic_level();
    let emitted_reason = lint.emitted_source(lint_level, reason);
    let ghost note = emitted_reason@;
    let mut elements = Vec::new();
    elements.push(
        snippet_with(
            contents.as_str(),
            manifest_path,
            AnnotationKind::Primary,
            Range { start: span.key.start, end: span.value.end },
            None,
        ),
    );
    let ghost first = elements@[0]@;
    elements.push(Element::Message(Severity::Note, emitted_reason));
    let group = Group {
        level,
        title_kind: TitleKind::Primary,
        title: String::from_str(lint.desc),
        elements,
    };
    assert(group@.elements =~= seq![first, ElementView::Message(Severity::Note, note)]);
    let mut groups = Vec::new();
    groups.push(group);
    let r = Report { groups, force: lint_level.force() };
    assert(r@.groups =~= seq![r.groups@[0]@]);
    Some(r)
}

/// Reports `package.im-a-teapot` in the package manifest `pkg` under the
/// `im_a_teapot` lint.
pub fn check_im_a_teapot(
    pkg: &Manifest,
    path: &str,
    pkg_lints: &LintsTable,
    cli_unstable: &CliUnstable,
    error_count: &mut usize,
) -> (r: Option<Report>)
    requires
        *old(error_count) < usize::MAX,
    ensures
        r matches Some(rep) ==> spec_key_lint_report(
            crate::catalog::spec_im_a_teapot(),
            *pkg,
            path@,
            seq!["package"@, "im-a-teapot"@],
            *pkg_lints,
            *cli_unstable,
        ) == Some(rep@),
        r is None ==> spec_key_lint_report(
            crate::catalog::spec_im_a_teapot(),
            *pkg,
            path@,
            seq!["package"@, "im-a-teapot"@],
            *pkg_lints,
            *cli_unstable,
        ) is None,
        *final(error_count) == *old(error_count) + if r is Some && spec_level(
            crate::catalog::spec_im_a_teapot(),
            *pkg_lints,
            pkg.edition,
            pkg.unstable_features,
            *cli_unstable,
        ).0.spec_is_error() {
            1int
        } else {
            0
        },
{
    let key_path = ["package", "im-a-teapot"];
    assert(str_views(key_path@) =~= seq!["package"@, "im-a-teapot"@]);
    let lint = im_a_teapot();
    report_lint_on_key(&lint, pkg, path, &key_path, pkg_lints, cli_unstable, error_count)
}

} // verus!
