//! The version that the shell reports to its front-end.

use vstd::prelude::*;

verus! {

/// The semantic version of this build, as a sequence of characters.
pub open spec fn version_text() -> Seq<char> {
    "0.1.0"@
}

/// Returns the version of this build. The result is the same literal on every call.
pub fn app_version() -> (v: &'static str)
    ensures
        v@ == version_text(),
{
    "0.1.0"
}

} // verus!
