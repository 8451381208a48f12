//! The path under which a manifest is shown in diagnostics.
use vstd::prelude::*;

verus! {

/// Relies on `pathdiff::diff_paths`: the path of `path` relative to `base`,
/// where one can be built. What it returns depends on how the platform reads
/// paths, so nothing is stated of it.
#[verifier::external_body]
fn relative_path(path: &str, base: &str) -> (r: Option<String>) {
    match pathdiff::diff_paths(path, base) {
        Some(p) => Some(p.display().to_string()),
        None => None,
    }
}

/// The path to show for the manifest `path`: `relative`, where a relative
/// path could be built, else `path` itself.
pub fn shown_manifest_path(relative: Option<String>, path: &str) -> (r: String)
    ensures
        r@ == match relative {
            Some(p) => p@,
            None => path@,
        },
{
    match relative {
        Some(p) => p,
        None => String::from_str(path),
    }
}

/// The path of the manifest `path` relative to the working directory `cwd`,
/// or `path` itself where no relative path can be built.
pub fn rel_cwd_manifest_path(path: &str, cwd: &str) -> (r: String) {
    shown_manifest_path(relative_path(path, cwd), path)
}

} // verus!
