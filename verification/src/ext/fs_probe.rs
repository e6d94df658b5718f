//! Trusted view of `std::path::Path::exists`.
use vstd::prelude::*;

verus! {

/// `Path::new(path).exists()`: whether something is at `path`. It depends
/// on the file system at the moment of the call, so nothing is stated
/// about it.
#[verifier::external_body]
pub(crate) fn path_exists(path: &str) -> (r: bool) {
    std::path::Path::new(path).exists()
}

#[verifier::external_type_specification]
#[verifier::external_body]
pub struct ExPathBuf(std::path::PathBuf);

} // verus!
