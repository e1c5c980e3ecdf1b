//! What the library asks of the platform it runs on.

use vstd::prelude::*;

verus! {

/// Calls `std::path::is_separator('\\')`: whether a backslash
/// separates path components on the platform this binary was built
/// for (it does on Windows, not on Unix). The result depends on the
/// target platform alone, so nothing about it is promised here.
#[verifier::external_body]
pub(crate) fn backslash_is_path_separator() -> (r: bool) {
    std::path::is_separator('\\')
}

} // verus!
