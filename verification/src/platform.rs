//! Facts about the platform the library was built for.
use vstd::prelude::*;

verus! {

/// Whether the library was built for Windows: `std::path::is_separator('\\')` holds there and
/// nowhere else. Nothing is stated of the answer, which depends on the build target.
#[verifier::external_body]
pub(crate) fn target_is_windows() -> bool {
    std::path::is_separator('\\')
}

/// Whether a file or directory exists at the path (`Path::exists`); the answer depends on the
/// file system at the time of the call, so nothing is stated of it.
#[verifier::external_body]
pub(crate) fn path_exists(path: &str) -> bool {
    std::path::Path::new(path).exists()
}

} // verus!
