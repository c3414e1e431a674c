//! Types of std and of other crates whose values pass through the library
//! unread.

use vstd::prelude::*;

verus! {

/// `std::io::Error`: the failure of an operating-system call. The library
/// stores and returns such a value and never looks inside.
#[verifier::external_type_specification]
#[verifier::external_body]
pub struct ExIoError(std::io::Error);

/// `std::path::PathBuf`: a file-system path. The library stores, copies and
/// returns such a value and never looks inside.
#[verifier::external_type_specification]
#[verifier::external_body]
pub struct ExPathBuf(std::path::PathBuf);

/// `nix::errno::Errno`: the error number of a failed system call. The
/// library stores and returns such a value and never looks inside.
#[verifier::external_type_specification]
#[verifier::external_body]
pub struct ExErrno(nix::errno::Errno);

/// `PathBuf::clone` returns a path equal to the one it was called on.
pub assume_specification[ <std::path::PathBuf as Clone>::clone ](path: &std::path::PathBuf) -> (copy: std::path::PathBuf)
    ensures
        copy == *path,
;

} // verus!
