//! What the lint pass reads of a manifest, and the scope (package or
//! workspace) at which the lints are checked.
use vstd::prelude::*;

use crate::catalog::Lint;
use crate::document::DocTable;
use crate::features::{CliUnstable, Features};
use crate::level::{Edition, LintLevel, LintLevelReason};
use crate::resolve::spec_level;
use crate::settings::LintsTable;

verus! {

/// A loaded manifest: its text and parsed tree where there are any (a
/// manifest made up in memory has neither), its edition and its features.
#[derive(Debug)]
pub struct Manifest {
    pub contents: Option<String>,
    pub document: Option<DocTable>,
    pub edition: Edition,
    pub unstable_features: Features,
}

/// The scope at which lints run: a package, or a workspace's own settings.
#[derive(Debug)]
pub enum ManifestFor<'a> {
    Package(&'a Manifest),
    Workspace(&'a Manifest),
}

impl<'a> ManifestFor<'a> {
    pub open spec fn spec_manifest(&self) -> &'a Manifest {
        match self {
            ManifestFor::Package(m) => m,
            ManifestFor::Workspace(m) => m,
        }
    }

    /// The level of `lint` under this manifest's edition and features.
    pub fn lint_level(
        &self,
        pkg_lints: &LintsTable,
        lint: Lint,
        cli_unstable: &CliUnstable,
    ) -> (r: (LintLevel, LintLevelReason))
        ensures
            r == spec_level(
                lint,
                *pkg_lints,
                self.spec_manifest().edition,
                self.spec_manifest().unstable_features,
                *cli_unstable,
            ),
    {
        lint.level(pkg_lints, self.edition(), self.unstable_features(), cli_unstable)
    }

    /// The manifest's text, if it has one.
    pub fn contents(&self) -> (r: Option<&'a str>)
        ensures
            r matches Some(s) ==> self.spec_manifest().contents matches Some(c) && s@ == c@,
            r is None ==> self.spec_manifest().contents is None,
    {
        let m = match self {
            ManifestFor::Package(p) => *p,
            ManifestFor::Workspace(p) => *p,
        };
        match &m.contents {
            Some(c) => Some(c.as_str()),
            None => None,
        }
    }

    /// The manifest's parsed tree, if it has one.
    pub fn document(&self) -> (r: Option<&'a DocTable>)
        ensures
            r matches Some(d) ==> self.spec_manifest().document == Some(*d),
            r is None ==> self.spec_manifest().document is None,
    {
        let m = match self {
            ManifestFor::Package(p) => *p,
            ManifestFor::Workspace(p) => *p,
        };
        match &m.document {
            Some(d) => Some(d),
            None => None,
        }
    }

    /// The manifest's edition.
    pub fn edition(&self) -> (r: Edition)
        ensures
            r == self.spec_manifest().edition,
    {
        match self {
            ManifestFor::Package(p) => p.edition,
            ManifestFor::Workspace(p) => p.edition,
        }
    }

    /// The unstable features that the manifest enables.
    pub fn unstable_features(&self) -> (r: &'a Features)
        ensures
            *r == self.spec_manifest().unstable_features,
    {
        match self {
            ManifestFor::Package(p) => &p.unstable_features,
            ManifestFor::Workspace(p) => &p.unstable_features,
        }
    }
}

} // verus!
