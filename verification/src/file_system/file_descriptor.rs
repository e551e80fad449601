//! Flag handling for descriptor-relative host calls.

use vstd::prelude::*;

verus! {

/// The flag that lets a descriptor-relative call address the descriptor itself.
///
/// Trusted: returns `libc::AT_EMPTY_PATH`, which libc defines as `0x1000` for
/// every Linux target.
#[verifier::external_body]
pub(crate) fn at_empty_path() -> (flag: i32)
    ensures
        flag == 0x1000,
{
    libc::AT_EMPTY_PATH
}

/// The flag that makes a host query describe a symbolic link itself.
///
/// Trusted: returns `libc::AT_SYMLINK_NOFOLLOW`, which libc defines as `0x100`
/// for every Linux target.
#[verifier::external_body]
pub(crate) fn at_symlink_nofollow() -> (flag: i32)
    ensures
        flag == 0x100,
{
    libc::AT_SYMLINK_NOFOLLOW
}

/// The flags a host call is made with, for the flags the caller asked for.
pub open spec fn spec_path_flags(path: Seq<u8>, flags: i32) -> i32 {
    if path.len() == 0 {
        flags | 0x1000
    } else {
        flags
    }
}

/// Adds the empty-path flag when `path` is empty, so that the call addresses
/// the descriptor it is made on instead of a name below it.
pub fn path_flags(path: &[u8], flags: i32) -> (effective: i32)
    ensures
        effective == spec_path_flags(path@, flags),
{
    if path.len() == 0 {
        flags | at_empty_path()
    } else {
        flags
    }
}

} // verus!
