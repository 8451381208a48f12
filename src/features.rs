//! Unstable opt-ins: manifest features (`cargo-features = [...]`) and
//! command-line unstable flags, and the sets of them that are enabled.
use vstd::prelude::*;

verus! {

/// A named unstable feature that a manifest opts into.
#[derive(Copy, Clone, Debug)]
pub struct Feature {
    pub name: &'static str,
}

impl Feature {
    pub open spec fn spec_test_dummy_unstable() -> Feature {
        Feature { name: "test_dummy_unstable" }
    }

    /// The feature that exists only to exercise feature gates.
    pub fn test_dummy_unstable() -> (r: Feature)
        ensures
            r == Feature::spec_test_dummy_unstable(),
    {
        Feature { name: "test_dummy_unstable" }
    }

    /// The feature's name, in `snake_case`.
    pub fn name(&self) -> (r: &'static str)
        ensures
            r == self.name,
    {
        self.name
    }
}

/// A named unstable flag given on the command line (`-Z <flag>`).
#[derive(Copy, Clone, Debug)]
pub struct CliUnstableFlag {
    pub name: &'static str,
}

/// Whether `name` is one of `names`.
pub open spec fn names_contain(names: Seq<String>, name: Seq<char>) -> bool {
    exists|i: int| 0 <= i < names.len() && #[trigger] names[i]@ == name
}

fn contains_name(names: &Vec<String>, name: &str) -> (r: bool)
    ensures
        r == names_contain(names@, name@),
{
    let mut i: usize = 0;
    while i < names.len()
        invariant
            i <= names@.len(),
            forall|j: int| 0 <= j < i ==> names@[j]@ != name@,
        decreases names@.len() - i,
    {
        if crate::text::same_text(names[i].as_str(), name) {
            return true;
        }
        i = i + 1;
    }
    false
}

/// The manifest features that a manifest has enabled.
#[derive(Clone, Debug)]
pub struct Features {
    pub enabled: Vec<String>,
}

impl Features {
    pub open spec fn spec_is_enabled(&self, name: Seq<char>) -> bool {
        names_contain(self.enabled@, name)
    }

    /// No feature enabled.
    pub fn new() -> (r: Features)
        ensures
            r.enabled@.len() == 0,
    {
        Features { enabled: Vec::new() }
    }

    /// Enables the feature of the given name.
    pub fn enable(&mut self, name: String)
        ensures
            final(self).enabled@ == old(self).enabled@.push(name),
    {
        self.enabled.push(name);
    }

    /// Whether `feature` is enabled.
    pub fn is_enabled(&self, feature: &Feature) -> (r: bool)
        ensures
            r == self.spec_is_enabled(feature.name@),
    {
        contains_name(&self.enabled, feature.name)
    }
}

/// The unstable command-line flags that are in effect.
#[derive(Clone, Debug)]
pub struct CliUnstable {
    pub enabled: Vec<String>,
}

impl CliUnstable {
    pub open spec fn spec_is_enabled(&self, name: Seq<char>) -> bool {
        names_contain(self.enabled@, name)
    }

    /// No flag given.
    pub fn new() -> (r: CliUnstable)
        ensures
            r.enabled@.len() == 0,
    {
        CliUnstable { enabled: Vec::new() }
    }

    /// Records that the flag of the given name was given.
    pub fn enable(&mut self, name: String)
        ensures
            final(self).enabled@ == old(self).enabled@.push(name),
    {
        self.enabled.push(name);
    }

    /// Whether `flag` was given.
    pub fn is_enabled(&self, flag: &CliUnstableFlag) -> (r: bool)
        ensures
            r == self.spec_is_enabled(flag.name@),
    {
        contains_name(&self.enabled, flag.name)
    }
}

} // verus!
