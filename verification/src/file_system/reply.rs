//! What the driver answers to a request: attributes, or an error code.

use std::time::Duration;
use vstd::prelude::*;

use crate::file_system::attr::FileAttr;

verus! {

/// Trusted: returns `libc::ENOENT`, which libc defines as 2 for every Linux
/// target.
#[verifier::external_body]
fn enoent() -> (code: i32)
    ensures
        code == 2,
{
    libc::ENOENT
}

/// Trusted: returns `libc::EIO`, which libc defines as 5 for every Linux
/// target.
#[verifier::external_body]
fn eio() -> (code: i32)
    ensures
        code == 5,
{
    libc::EIO
}

/// Trusted: returns `libc::ENOSYS`. libc defines it per architecture: 38 on
/// most Linux targets, 89 on MIPS, 90 on SPARC.
#[verifier::external_body]
fn enosys() -> (code: i32)
    ensures
        code == 38 || code == 89 || code == 90,
{
    libc::ENOSYS
}

/// The error of an error reply.
#[derive(Debug, Clone, Copy, PartialEq, Eq, Structural)]
pub enum Errno {
    /// No such entry: the inode number is not live.
    NoEntry,
    /// The operation is not supported.
    NotSupported,
    /// Generic input/output error.
    Io,
    /// The code that the host reported for a failed call.
    Os(i32),
}

impl Errno {
    /// The reply error for a failed host call: the host's own code, or the
    /// generic input/output error where the failure carries none.
    pub open spec fn spec_from_os(code: Option<i32>) -> Errno {
        match code {
            Some(raw) => Errno::Os(raw),
            None => Errno::Io,
        }
    }

    /// The reply error for a failed host call: the host's own code, or the
    /// generic input/output error where the failure carries none.
    pub fn from_os(code: Option<i32>) -> (errno: Errno)
        ensures
            errno == Errno::spec_from_os(code),
    {
        match code {
            Some(raw) => Errno::Os(raw),
            None => Errno::Io,
        }
    }

    /// The number that goes to the kernel. A host code goes out unchanged; the
    /// named errors go out as the host platform numbers them.
    pub fn code(&self) -> (code: i32)
        ensures
            match *self {
                Errno::NoEntry => code == 2,
                Errno::NotSupported => code == 38 || code == 89 || code == 90,
                Errno::Io => code == 5,
                Errno::Os(raw) => code == raw,
            },
    {
        match *self {
            Errno::NoEntry => enoent(),
            Errno::NotSupported => enosys(),
            Errno::Io => eio(),
            Errno::Os(raw) => raw,
        }
    }
}

/// An attribute reply: the attributes, and for how long the kernel may cache
/// them. Without a time to live the kernel asks again every time.
#[derive(Debug, Clone, Copy, PartialEq)]
pub struct AttrOut {
    pub attr: FileAttr,
    pub ttl: Option<Duration>,
}

/// The one reply that a request gets.
#[derive(Debug, Clone, Copy, PartialEq)]
pub enum Reply {
    Attr(AttrOut),
    Error(Errno),
}

} // verus!
