//! The session channel as the run loop sees it: what happened on it, and
//! what to do next.

use vstd::prelude::*;

use crate::ContextureFsError;

verus! {

/// Whether the error `err` says that a read would block: whether
/// `std::io::Error::kind` answers `ErrorKind::WouldBlock` for it.
pub uninterp spec fn is_would_block(err: std::io::Error) -> bool;

/// Trusted: `std::io::Error::kind` reads the error and changes nothing, so
/// whether it answers `WouldBlock` depends on the error alone.
#[verifier::external_body]
fn would_block(err: &std::io::Error) -> (blocked: bool)
    ensures
        blocked == is_would_block(*err),
{
    matches!(err.kind(), std::io::ErrorKind::WouldBlock)
}

/// What the session reader does with the outcome of one read.
#[derive(Debug)]
pub enum Readiness<R> {
    /// Nothing was there to read: forget that the channel was readable and
    /// wait until it is again.
    ClearReady,
    /// The read gave this outcome: keep the channel marked readable and hand
    /// the outcome on.
    RetainReady(Result<Option<R>, std::io::Error>),
}

impl<R> Readiness<R> {
    /// What to do with the outcome `read` of one read, where `blocked` says
    /// whether an error in it means that the read would have blocked.
    pub open spec fn spec_of(read: Result<Option<R>, std::io::Error>, blocked: bool) -> Self {
        match read {
            Err(_) if blocked => Readiness::ClearReady,
            _ => Readiness::RetainReady(read),
        }
    }

    /// Decides on the outcome `read` of one read, where `blocked` says
    /// whether an error in it means that the read would have blocked. Such a
    /// read is no outcome yet; anything else, be it a request, the end of the
    /// session or an error, goes to the caller.
    pub fn of(read: Result<Option<R>, std::io::Error>, blocked: bool) -> (readiness: Self)
        ensures
            readiness == Self::spec_of(read, blocked),
    {
        match read {
            Err(err) => {
                if blocked {
                    Readiness::ClearReady
                } else {
                    Readiness::RetainReady(Err(err))
                }
            },
            Ok(request) => Readiness::RetainReady(Ok(request)),
        }
    }
}

/// Decides on the outcome of one non-blocking read of the channel, whatever
/// the type `R` of a request: the channel stays marked readable unless the
/// read failed because it would have blocked.
pub fn next_request<R>(read: Result<Option<R>, std::io::Error>) -> (readiness: Readiness<R>)
    ensures
        readiness == Readiness::spec_of(read, read matches Err(err) && is_would_block(err)),
{
    let blocked = match &read {
        Err(err) => would_block(err),
        Ok(_) => false,
    };
    Readiness::of(read, blocked)
}

/// What the mount call is given besides the path.
#[derive(Debug, PartialEq, Eq)]
pub struct KernelConfig {
    /// Options for the mount itself, in order.
    pub mount_options: Vec<&'static str>,
    /// File handles stay valid across remounts.
    pub export_support: bool,
    /// Advisory locks are handled by the driver.
    pub flock_locks: bool,
    /// The kernel may cache writes.
    pub writeback_cache: bool,
}

impl KernelConfig {
    /// The configuration of this driver: it mounts over a non-empty
    /// directory and leaves permission checks to the kernel, under the
    /// filesystem name `contexture` and the subtype `intdots`; it supports
    /// export and advisory locks; and the kernel caches writes exactly when
    /// attribute caching is on.
    pub open spec fn is_for(&self, cacheing: bool) -> bool {
        &&& self.mount_options@.len() == 4
        &&& self.mount_options@[0]@ == "nonempty"@
        &&& self.mount_options@[1]@ == "default_permissions"@
        &&& self.mount_options@[2]@ == "fsname=contexture"@
        &&& self.mount_options@[3]@ == "subtype=intdots"@
        &&& self.export_support
        &&& self.flock_locks
        &&& self.writeback_cache == cacheing
    }
}

/// What happened on the session, as the run loop is told.
#[derive(Debug)]
pub enum SessionEvent<R> {
    /// The run loop starts.
    Start,
    /// The mount call returned.
    Mounted(Result<(), std::io::Error>),
    /// The session reader returned: a request, the end of the session, or an
    /// error of the channel.
    Next(Result<Option<R>, std::io::Error>),
}

/// What the run loop does next.
#[derive(Debug)]
pub enum RunAction<R> {
    /// Mount the filesystem at the mount path with this configuration.
    Mount(KernelConfig),
    /// Read the next request.
    AwaitRequest,
    /// Hand the request to a task of its own, and read the next request
    /// without waiting for that task.
    Dispatch(R),
    /// Leave the run loop with this result.
    Finish(Result<(), ContextureFsError>),
    /// The session is lost: give up loudly.
    Abort(std::io::Error),
}

impl<R> RunAction<R> {
    /// Whether the run loop is over with this action.
    pub open spec fn ends_run(self) -> bool {
        self is Finish || self is Abort
    }
}

} // verus!
