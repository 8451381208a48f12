//! The precedence rule that decides a lint's effective level:
//! feature gate, then `forbid` at any tier, then declared settings by
//! priority, then the edition default, then the group default.
use vstd::prelude::*;

use crate::catalog::{Gated, Lint};
use crate::features::{CliUnstable, Features};
use crate::level::{Edition, LintLevel, LintLevelReason};
use crate::settings::{DeclaredLint, LintsTable};

verus! {

/// Whether `gate` keeps its lint at `Allow`: a manifest feature that is not
/// enabled, or a command-line flag that is given.
pub open spec fn gate_blocks(gate: Gated, features: Features, cli: CliUnstable) -> bool {
    match gate {
        Gated::Cli(flag) => cli.spec_is_enabled(flag.name@),
        Gated::Feature(f) => !features.spec_is_enabled(f.name@),
    }
}

pub open spec fn lint_gate_blocks(lint: Lint, features: Features, cli: CliUnstable) -> bool {
    match lint.feature_gate {
        Some(gate) => gate_blocks(gate, features, cli),
        None => false,
    }
}

/// The level that the lint's edition option gives in `edition`, if any.
pub open spec fn spec_edition_level(lint: Lint, edition: Edition) -> Option<LintLevel> {
    match lint.edition_lint_opts {
        Some((e, l)) => if edition.rank() >= e.rank() {
            Some(l)
        } else {
            None
        },
        None => None,
    }
}

pub open spec fn declared_forbid(d: Option<DeclaredLint>) -> bool {
    d matches Some(x) && x.level == LintLevel::Forbid
}

/// The level of a lint and the reason for it.
pub open spec fn spec_level(
    lint: Lint,
    table: LintsTable,
    edition: Edition,
    features: Features,
    cli: CliUnstable,
) -> (LintLevel, LintLevelReason) {
    let declared = table.spec_get(lint.name@);
    let group = table.spec_get(lint.primary_group.name@);
    let by_edition = spec_edition_level(lint, edition);
    let default_level = lint.primary_group.default_level;
    if lint_gate_blocks(lint, features, cli) {
        (LintLevel::Allow, LintLevelReason::Default)
    } else if declared_forbid(declared) || declared_forbid(group) {
        (LintLevel::Forbid, LintLevelReason::Package)
    } else if by_edition == Some(LintLevel::Forbid) {
        (LintLevel::Forbid, LintLevelReason::Edition(edition))
    } else if default_level == LintLevel::Forbid {
        (LintLevel::Forbid, LintLevelReason::Default)
    } else {
        match (declared, group) {
            (Some(l), Some(g)) => if l.priority >= g.priority {
                (l.level, LintLevelReason::Package)
            } else {
                (g.level, LintLevelReason::Package)
            },
            (Some(l), None) => (l.level, LintLevelReason::Package),
            (None, Some(g)) => (g.level, LintLevelReason::Package),
            (None, None) => match by_edition {
                Some(l) => (l, LintLevelReason::Edition(edition)),
                None => (default_level, LintLevelReason::Default),
            },
        }
    }
}

pub open spec fn spec_emitted_source(
    lint: Lint,
    level: LintLevel,
    reason: LintLevelReason,
) -> Seq<char> {
    "`cargo::"@ + lint.name@ + "` is set to `"@ + level.spec_text() + "` "@ + reason.spec_text()
}

fn gate_holds_back(gate: &Gated, features: &Features, cli: &CliUnstable) -> (r: bool)
    ensures
        r == gate_blocks(*gate, *features, *cli),
{
    match gate {
        Gated::Cli(flag) => cli.is_enabled(flag),
        Gated::Feature(f) => !features.is_enabled(f),
    }
}

impl Lint {
    /// The effective level of this lint, and why.
    pub fn level(
        &self,
        pkg_lints: &LintsTable,
        edition: Edition,
        unstable_features: &Features,
        cli_unstable: &CliUnstable,
    ) -> (r: (LintLevel, LintLevelReason))
        ensures
            r == spec_level(*self, *pkg_lints, edition, *unstable_features, *cli_unstable),
    {
        // A lint behind a gate that is not open does not run at all.
        if let Some(gate) = &self.feature_gate {
            if gate_holds_back(gate, unstable_features, cli_unstable) {
                return (LintLevel::Allow, LintLevelReason::Default);
            }
        }
        let lint = pkg_lints.get(self.name);
        let group = pkg_lints.get(self.primary_group.name);
        let edition_level = match self.edition_lint_opts {
            Some((e, l)) => if edition.at_least(&e) {
                Some(l)
            } else {
                None
            },
            None => None,
        };
        let default_level = self.primary_group.default_level;

        // Feature gate > Forbid > declared > edition > group default. Between
        // a lint and its group the priority decides; on a tie the lint wins,
        // being the more specific of the two.
        if let Some(l) = lint {
            if l.level() == LintLevel::Forbid {
                return (LintLevel::Forbid, LintLevelReason::Package);
            }
        }
        if let Some(g) = group {
            if g.level() == LintLevel::Forbid {
                return (LintLevel::Forbid, LintLevelReason::Package);
            }
        }
        if let Some(l) = edition_level {
            if l == LintLevel::Forbid {
                return (LintLevel::Forbid, LintLevelReason::Edition(edition));
            }
        }
        if default_level == LintLevel::Forbid {
            return (LintLevel::Forbid, LintLevelReason::Default);
        }
        match (lint, group) {
            (Some(l), Some(g)) => {
                if l.priority() >= g.priority() {
                    (l.level(), LintLevelReason::Package)
                } else {
                    (g.level(), LintLevelReason::Package)
                }
            },
            (Some(l), None) => (l.level(), LintLevelReason::Package),
            (None, Some(g)) => (g.level(), LintLevelReason::Package),
            (None, None) => match edition_level {
                Some(l) => (l, LintLevelReason::Edition(edition)),
                None => (default_level, LintLevelReason::Default),
            },
        }
    }

    /// The note that says where the lint's level comes from, such as
    /// ``"`cargo::unknown_lints` is set to `warn` by default"``.
    pub fn emitted_source(&self, lint_level: LintLevel, reason: LintLevelReason) -> (r: String)
        ensures
            r@ == spec_emitted_source(*self, lint_level, reason),
    {
        let s = String::from_str("`cargo::");
        let s = s.concat(self.name);
        let s = s.concat("` is set to `");
        let s = s.concat(lint_level.as_str());
        let s = s.concat("` ");
        let reason_text = reason.to_text();
        s.concat(reason_text.as_str())
    }
}

/// A lint whose gate is not open resolves to `Allow` by default, whatever is
/// declared for it or its group.
pub proof fn lemma_gated_lint_is_allowed(
    lint: Lint,
    table: LintsTable,
    edition: Edition,
    features: Features,
    cli: CliUnstable,
)
    requires
        lint_gate_blocks(lint, features, cli),
    ensures
        spec_level(lint, table, edition, features, cli) == (
        LintLevel::Allow,
        LintLevelReason::Default,
        ),
{
}

/// A group default of `forbid` cannot be lowered: with no gate in the way the
/// lint is at `forbid`, and by default when neither the lint nor its group is
/// declared and no edition option applies.
pub proof fn lemma_forbid_group_default_dominates(
    lint: Lint,
    table: LintsTable,
    edition: Edition,
    features: Features,
    cli: CliUnstable,
)
    requires
        !lint_gate_blocks(lint, features, cli),
        lint.primary_group.default_level == LintLevel::Forbid,
    ensures
        spec_level(lint, table, edition, features, cli).0 == LintLevel::Forbid,
        table.spec_get(lint.name@) is None && table.spec_get(lint.primary_group.name@) is None
            && spec_edition_level(lint, edition) is None ==> spec_level(
            lint,
            table,
            edition,
            features,
            cli,
        ) == (LintLevel::Forbid, LintLevelReason::Default),
{
}

/// A lint declared `allow` stays at `forbid` when its group is declared or
/// defaults to `forbid`, and no gate is in the way.
pub proof fn lemma_forbid_group_beats_allowed_lint(
    lint: Lint,
    table: LintsTable,
    edition: Edition,
    features: Features,
    cli: CliUnstable,
)
    requires
        !lint_gate_blocks(lint, features, cli),
        table.spec_get(lint.name@) matches Some(d) && d.level == LintLevel::Allow,
        declared_forbid(table.spec_get(lint.primary_group.name@))
            || lint.primary_group.default_level == LintLevel::Forbid,
    ensures
        spec_level(lint, table, edition, features, cli).0 == LintLevel::Forbid,
{
}

/// When a lint and its group are declared with equal priority and nothing is
/// at `forbid`, the lint's own declared level wins.
pub proof fn lemma_equal_priority_prefers_lint(
    lint: Lint,
    table: LintsTable,
    edition: Edition,
    features: Features,
    cli: CliUnstable,
)
    requires
        !lint_gate_blocks(lint, features, cli),
        table.spec_get(lint.name@) is Some,
        table.spec_get(lint.primary_group.name@) is Some,
        table.spec_get(lint.name@)->0.priority == table.spec_get(lint.primary_group.name@)->0.priority,
        table.spec_get(lint.primary_group.name@)->0.level != LintLevel::Forbid,
        spec_edition_level(lint, edition) != Some(LintLevel::Forbid),
        lint.primary_group.default_level != LintLevel::Forbid,
    ensures
        spec_level(lint, table, edition, features, cli) == (
        table.spec_get(lint.name@)->0.level,
        LintLevelReason::Package,
        ),
{
}

/// The resolved level depends on nothing but the inputs: equal inputs give
/// equal results.
pub proof fn lemma_level_is_a_function_of_inputs(
    lint: Lint,
    t1: LintsTable,
    t2: LintsTable,
    edition: Edition,
    f1: Features,
    f2: Features,
    c1: CliUnstable,
    c2: CliUnstable,
)
    requires
        t1@ == t2@,
        f1.enabled@ == f2.enabled@,
        c1.enabled@ == c2.enabled@,
    ensures
        spec_level(lint, t1, edition, f1, c1) == spec_level(lint, t2, edition, f2, c2),
{
}

} // verus!
