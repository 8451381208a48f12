//! Lint-level resolution and diagnostic reporting for package manifests.
//!
//! The library decides, for each known lint, the severity that governs it
//! (from per-lint settings, group settings, edition defaults, feature gates and
//! hard-coded defaults), validates the `[lints.cargo]` table of a manifest, and
//! builds diagnostic reports anchored at exact byte spans of the manifest text.
//! For single-file packages it also reads the manifest embedded in the doc
//! comments and names the package after its file.
pub mod analyze;
pub mod catalog;
pub mod document;
pub mod embedded;
pub mod features;
pub mod level;
pub mod manifest;
pub mod paths;
pub mod report;
pub mod resolve;
pub mod rules;
pub mod settings;
pub mod single_file;
pub mod text;

pub use analyze::{analyze_cargo_lints_table, output_unknown_lints, report_feature_not_enabled};
pub use catalog::{DynamicLintGroup, Gated, Lint, LintCatalog, LintGroup};
pub use embedded::{disallowed_key_error, embedded_manifest};
pub use document::{get_key_value, get_key_value_span, DocEntry, DocItem, DocTable, DocValue, TomlSpan};
pub use features::{CliUnstable, CliUnstableFlag, Feature, Features};
pub use level::{Edition, LintLevel, LintLevelReason, Severity};
pub use manifest::{Manifest, ManifestFor};
pub use paths::{rel_cwd_manifest_path, shown_manifest_path};
pub use report::{Annotation, AnnotationKind, Element, Group, Report, Snippet, TitleKind};
pub use rules::{check_im_a_teapot, report_lint_on_key};
pub use settings::{DeclaredLint, LintsTable};
pub use single_file::package_name;
