//! The severity model: lint levels, the reason a level was chosen, and editions.
use vstd::prelude::*;

verus! {

/// How strongly a lint is enforced.
#[derive(Copy, Clone, Debug, PartialEq, Eq, Structural)]
pub enum LintLevel {
    Allow,
    Warn,
    Deny,
    Forbid,
}

/// The severity of a diagnostic element when it is rendered.
#[derive(Copy, Clone, Debug, PartialEq, Eq, Structural)]
pub enum Severity {
    Error,
    Warning,
    Note,
    Help,
}

impl LintLevel {
    /// The lowercase name of the level, as written in a manifest.
    pub open spec fn spec_text(self) -> Seq<char> {
        match self {
            LintLevel::Allow => "allow"@,
            LintLevel::Warn => "warn"@,
            LintLevel::Deny => "deny"@,
            LintLevel::Forbid => "forbid"@,
        }
    }

    pub open spec fn spec_is_error(self) -> bool {
        self == LintLevel::Deny || self == LintLevel::Forbid
    }

    pub open spec fn spec_force(self) -> bool {
        self != LintLevel::Allow
    }

    pub open spec fn spec_severity(self) -> Severity {
        if self.spec_is_error() {
            Severity::Error
        } else {
            Severity::Warning
        }
    }

    /// The lowercase name of the level (`allow`, `warn`, `deny`, `forbid`).
    pub fn as_str(&self) -> (r: &'static str)
        ensures
            r@ == self.spec_text(),
    {
        match self {
            LintLevel::Allow => "allow",
            LintLevel::Warn => "warn",
            LintLevel::Deny => "deny",
            LintLevel::Forbid => "forbid",
        }
    }

    /// Whether a violation at this level fails the build.
    pub fn is_error(&self) -> (r: bool)
        ensures
            r == self.spec_is_error(),
    {
        *self == LintLevel::Forbid || *self == LintLevel::Deny
    }

    /// The severity at which a lint firing at this level is reported.
    pub fn to_diagnostic_level(self) -> (r: Severity)
        requires
            self != LintLevel::Allow,
        ensures
            r == self.spec_severity(),
    {
        match self {
            LintLevel::Allow => Severity::Warning,
            LintLevel::Warn => Severity::Warning,
            LintLevel::Deny => Severity::Error,
            LintLevel::Forbid => Severity::Error,
        }
    }

    /// Whether a report at this level must be shown even where output is
    /// otherwise suppressed.
    pub fn force(self) -> (r: bool)
        ensures
            r == self.spec_force(),
    {
        match self {
            LintLevel::Allow => false,
            LintLevel::Warn => true,
            LintLevel::Deny => true,
            LintLevel::Forbid => true,
        }
    }
}

/// A language edition. Editions are totally ordered by age.
#[derive(Copy, Clone, Debug, PartialEq, Eq, Structural)]
pub enum Edition {
    Edition2015,
    Edition2018,
    Edition2021,
    Edition2024,
    EditionFuture,
}

impl Edition {
    pub open spec fn rank(self) -> int {
        match self {
            Edition::Edition2015 => 0,
            Edition::Edition2018 => 1,
            Edition::Edition2021 => 2,
            Edition::Edition2024 => 3,
            Edition::EditionFuture => 4,
        }
    }

    pub open spec fn spec_text(self) -> Seq<char> {
        match self {
            Edition::Edition2015 => "2015"@,
            Edition::Edition2018 => "2018"@,
            Edition::Edition2021 => "2021"@,
            Edition::Edition2024 => "2024"@,
            Edition::EditionFuture => "future"@,
        }
    }

    fn index(&self) -> (r: u8)
        ensures
            r as int == self.rank(),
    {
        match self {
            Edition::Edition2015 => 0,
            Edition::Edition2018 => 1,
            Edition::Edition2021 => 2,
            Edition::Edition2024 => 3,
            Edition::EditionFuture => 4,
        }
    }

    /// Whether this edition is `other` or a later one.
    pub fn at_least(&self, other: &Edition) -> (r: bool)
        ensures
            r == (self.rank() >= other.rank()),
    {
        self.index() >= other.index()
    }

    /// The edition's name as written in a manifest (`2021`, `future`).
    pub fn as_str(&self) -> (r: &'static str)
        ensures
            r@ == self.spec_text(),
    {
        match self {
            Edition::Edition2015 => "2015",
            Edition::Edition2018 => "2018",
            Edition::Edition2021 => "2021",
            Edition::Edition2024 => "2024",
            Edition::EditionFuture => "future",
        }
    }
}

/// Why a lint ended up at its level; used only in message text.
#[derive(Copy, Clone, Debug, PartialEq, Eq, Structural)]
pub enum LintLevelReason {
    Default,
    Edition(Edition),
    Package,
}

impl LintLevelReason {
    pub open spec fn spec_text(self) -> Seq<char> {
        match self {
            LintLevelReason::Default => "by default"@,
            LintLevelReason::Edition(e) => "in edition "@ + e.spec_text(),
            LintLevelReason::Package => "in `[lints]`"@,
        }
    }

    /// The phrase that explains the reason (`by default`, `in edition 2024`,
    /// ``in `[lints]` ``).
    pub fn to_text(&self) -> (r: String)
        ensures
            r@ == self.spec_text(),
    {
        match self {
            LintLevelReason::Default => String::from_str("by default"),
            LintLevelReason::Edition(e) => {
                let s = String::from_str("in edition ");
                s.concat(e.as_str())
            },
            LintLevelReason::Package => String::from_str("in `[lints]`"),
        }
    }
}

} // verus!
