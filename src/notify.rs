use vstd::prelude::*;

verus! {

/// The directive that asks the build system to watch a path.
pub const RERUN_PREFIX: &'static str = "cargo::rerun-if-changed=";

/// The line that tells the build system to rerun when `path` changes.
pub fn rerun_directive(path: &str) -> (r: String)
    ensures
        r@ == RERUN_PREFIX@ + path@,
{
    String::from_str(RERUN_PREFIX).concat(path)
}

} // verus!
