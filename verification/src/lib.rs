//! A passthrough filesystem driver core: the inode-identity table, the
//! get-attributes handler and the request dispatcher, as plain decisions over
//! plain values. The session channel and the host system calls stay with the
//! program that links this library: it performs what a decision asks for and
//! hands back what came of it.
//!
//! A request is received and parsed by the program, which names its
//! [`Operation`]. [`handle_request`] routes it. A routed request is handled
//! when its one reply is decided: at once for an operation without a handler
//! and for an inode that is not live, else by
//! [`file_system::FileSystem::get_attr_reply`] from the host's answer. It is
//! replied when the program has sent that reply;
//! [`file_system::GetAttrReply::delivered`] and [`request_result`] then say
//! what handling reports. Whatever it reports ends with the request: the run
//! loop, [`Contexture::run`], is told of the session only.

pub mod file_system;
pub mod inode;
pub mod inode_table;
pub mod session;

use std::path::PathBuf;
use std::time::Duration;
use vstd::prelude::*;

use crate::file_system::reply::{Errno, Reply};
use crate::file_system::{os_code_of, spec_get_attr_reply, FileSystem, GetAttrError, GetAttrStep};
use crate::inode::{Ino, SrcId};
use crate::inode_table::INodeTableView;
use crate::session::{KernelConfig, RunAction, SessionEvent};

verus! {

/// Trusted: `std::path::PathBuf`, carried through as an opaque value.
#[verifier::external_type_specification]
#[verifier::external_body]
pub struct ExPathBuf(PathBuf);

/// Why the driver as a whole fails.
#[derive(Debug)]
pub enum ContextureFsError {
    /// The filesystem could not be mounted.
    MountFailed(std::io::Error),
}

/// How handling one request can fail. None of these ends the session.
#[derive(Debug)]
pub enum RequestHandlingError {
    /// The requested operation has no handler.
    NotImplemented,
    /// The handler of the operation failed.
    OperationError(GetAttrError),
}

impl From<GetAttrError> for RequestHandlingError {
    fn from(value: GetAttrError) -> (error: RequestHandlingError) {
        RequestHandlingError::OperationError(value)
    }
}

impl vstd::std_specs::convert::FromSpecImpl<GetAttrError> for RequestHandlingError {
    open spec fn obeys_from_spec() -> bool {
        true
    }

    open spec fn from_spec(value: GetAttrError) -> RequestHandlingError {
        RequestHandlingError::OperationError(value)
    }
}

/// The kind of operation that a request asks for, with what its handler reads
/// of the request.
#[derive(Debug, Clone, Copy, PartialEq, Eq, Structural)]
pub enum Operation {
    Lookup,
    Getattr { ino: Ino },
    Setattr,
    Readlink,
    Symlink,
    Mknod,
    Mkdir,
    Unlink,
    Rmdir,
    Rename,
    Link,
    Open,
    Read,
    Write,
    Release,
    Statfs,
    Fsync,
    Setxattr,
    Getxattr,
    Listxattr,
    Removexattr,
    Flush,
    Opendir,
    Readdir,
    Releasedir,
    Fsyncdir,
    Getlk,
    Setlk,
    Flock,
    Access,
    Create,
    Bmap,
    Fallocate,
    CopyFileRange,
    Poll,
    Forget,
    Interrupt,
    NotifyReply,
    Unknown,
}

/// Where a request went.
#[derive(Debug)]
pub enum Routed<'a, H> {
    /// To the get-attributes handler, which says what it needs next.
    GetAttr(GetAttrStep<'a, H>),
    /// Nowhere: the operation has no handler. `reply` is to be sent all the
    /// same, and `result` is what handling reports, whatever becomes of the
    /// reply.
    NotImplemented { reply: Reply, result: Result<(), RequestHandlingError> },
}

/// Where the request for `operation` goes on the filesystem state `fs`.
pub open spec fn spec_handle_request<'a, H>(fs: &'a FileSystem<H>, operation: Operation) -> Routed<
    'a,
    H,
> {
    match operation {
        Operation::Getattr { ino } => Routed::GetAttr(fs.spec_get_attr(ino)),
        _ => Routed::NotImplemented {
            reply: Reply::Error(Errno::NotSupported),
            result: Err(RequestHandlingError::NotImplemented),
        },
    }
}

/// Routes a request by the kind of its operation. Get-attributes goes to its
/// handler. Every other operation is answered with "operation not supported"
/// and reported as not implemented: no request is dropped without a reply.
pub fn handle_request<'a, H>(fs: &'a FileSystem<H>, operation: &Operation) -> (routed: Routed<
    'a,
    H,
>)
    ensures
        routed == spec_handle_request(fs, *operation),
{
    match *operation {
        Operation::Getattr { ino } => Routed::GetAttr(fs.get_attr(ino)),
        _ => Routed::NotImplemented {
            reply: Reply::Error(Errno::NotSupported),
            result: Err(RequestHandlingError::NotImplemented),
        },
    }
}

/// What handling a request reports, for what its handler reported.
pub open spec fn spec_request_result(handled: Result<(), GetAttrError>) -> Result<
    (),
    RequestHandlingError,
> {
    match handled {
        Ok(_) => Ok(()),
        Err(error) => Err(RequestHandlingError::OperationError(error)),
    }
}

/// Closes a request that the get-attributes handler took: a failure of the
/// handler becomes a failure of the operation.
pub fn request_result(handled: Result<(), GetAttrError>) -> (result: Result<
    (),
    RequestHandlingError,
>)
    ensures
        result == spec_request_result(handled),
{
    match handled {
        Ok(_) => Ok(()),
        Err(error) => Err(RequestHandlingError::from(error)),
    }
}

/// Whether `action` is what the run loop does on `event`, with attribute
/// caching on or off.
pub open spec fn run_decides<R>(
    cacheing: bool,
    event: SessionEvent<R>,
    action: RunAction<R>,
) -> bool {
    match event {
        SessionEvent::Start => action matches RunAction::Mount(config) && config.is_for(cacheing),
        SessionEvent::Mounted(Ok(_)) => action == RunAction::<R>::AwaitRequest,
        SessionEvent::Mounted(Err(err)) => action == RunAction::<R>::Finish(
            Err(ContextureFsError::MountFailed(err)),
        ),
        SessionEvent::Next(Ok(Some(request))) => action == RunAction::Dispatch(request),
        SessionEvent::Next(Ok(None)) => action == RunAction::<R>::Finish(Ok(())),
        SessionEvent::Next(Err(err)) => action == RunAction::<R>::Abort(err),
    }
}

/// A failure of the host stays with its request: a host that refuses the
/// attribute query is answered with an error reply that carries the host's
/// own code, and once that reply is out the refusal is reported as the
/// failure of that one operation.
pub proof fn lemma_host_refusal_stays_with_its_request(
    timeout: Option<Duration>,
    refusal: std::io::Error,
)
    ensures
        spec_get_attr_reply(timeout, Err(refusal)).reply == Reply::Error(
            Errno::spec_from_os(os_code_of(refusal)),
        ),
        os_code_of(refusal) matches Some(code) ==> spec_get_attr_reply(
            timeout,
            Err(refusal),
        ).reply == Reply::Error(Errno::Os(code)),
        spec_request_result(spec_get_attr_reply(timeout, Err(refusal)).spec_delivered(Ok(())))
            == Err::<(), RequestHandlingError>(
            RequestHandlingError::OperationError(GetAttrError::InnerStat(refusal)),
        ),
{
}

/// Only the channel ends the run: the run loop is over after a failed mount,
/// at the end of the session and on an error of the channel, which is fatal,
/// and after nothing else. What becomes of a request is no event of the
/// session.
pub proof fn lemma_only_the_channel_ends_the_run<R>(
    cacheing: bool,
    event: SessionEvent<R>,
    action: RunAction<R>,
)
    requires
        run_decides(cacheing, event, action),
    ensures
        action.ends_run() <==> (event matches SessionEvent::Mounted(Err(_))
            || event matches SessionEvent::Next(Ok(None))
            || event matches SessionEvent::Next(Err(_))),
        event matches SessionEvent::Next(Err(lost)) ==> action == RunAction::<R>::Abort(lost),
{
}

/// The driver: where it is mounted, whether attributes are cached, and the
/// filesystem state.
pub struct Contexture<H> {
    mount_path: PathBuf,
    cacheing: bool,
    inner_fs: FileSystem<H>,
}

impl<H> Contexture<H> {
    #[verifier::type_invariant]
    spec fn inv(self) -> bool {
        &&& self.cacheing == self.inner_fs.timeout.is_some()
        &&& self.inner_fs.wf()
    }

    /// The path of the directory that is presented.
    pub closed spec fn spec_mount_path(&self) -> PathBuf {
        self.mount_path
    }

    /// Whether the kernel is to cache attributes.
    pub closed spec fn spec_cacheing(&self) -> bool {
        self.cacheing
    }

    /// The filesystem state.
    pub closed spec fn spec_file_system(&self) -> FileSystem<H> {
        self.inner_fs
    }

    /// A driver for the directory `mount_path`, whose identity on the host is
    /// `root_src_id` and which `root_handle` holds open. Attributes are
    /// cached exactly when a time to live is given.
    pub fn new(
        mount_path: PathBuf,
        timeout: Option<Duration>,
        root_src_id: SrcId,
        root_handle: H,
    ) -> (contexture: Self)
        ensures
            contexture.spec_mount_path() == mount_path,
            contexture.spec_cacheing() == timeout.is_some(),
            contexture.spec_file_system().timeout == timeout,
            contexture.spec_file_system().wf(),
            contexture.spec_file_system().inodes@ == INodeTableView::seeded(
                root_src_id,
                root_handle,
            ),
    {
        let cacheing = timeout.is_some();
        let inner_fs = FileSystem::new(timeout, root_src_id, root_handle);

        Contexture { mount_path, cacheing, inner_fs }
    }

    /// The path of the directory that is presented.
    pub fn mount_path(&self) -> (path: &PathBuf)
        ensures
            *path == self.spec_mount_path(),
    {
        &self.mount_path
    }

    /// The filesystem state, for the request handlers.
    pub fn file_system(&self) -> (fs: &FileSystem<H>)
        ensures
            *fs == self.spec_file_system(),
            fs.wf(),
            fs.timeout.is_some() == self.spec_cacheing(),
    {
        proof {
            use_type_invariant(self);
        }
        &self.inner_fs
    }

    /// One turn of the run loop: what to do on `event`. The loop starts by
    /// mounting, with write caching by the kernel exactly when a time to live
    /// for attributes is configured. A failed mount ends it with an error;
    /// after a successful one it reads requests. Each request is dispatched
    /// on its own and the next one is read at once. The end of the session
    /// ends the loop in peace; an error of the channel is fatal.
    pub fn run<R>(&self, event: SessionEvent<R>) -> (action: RunAction<R>)
        ensures
            run_decides(self.spec_cacheing(), event, action),
            action matches RunAction::Mount(config) ==> config.writeback_cache
                == self.spec_file_system().timeout.is_some(),
    {
        proof {
            use_type_invariant(self);
        }
        match event {
            SessionEvent::Start => {
                let mount_options = vec![
                    "nonempty",
                    "default_permissions",
                    "fsname=contexture",
                    "subtype=intdots",
                ];
                RunAction::Mount(
                    KernelConfig {
                        mount_options,
                        export_support: true,
                        flock_locks: true,
                        writeback_cache: self.cacheing,
                    },
                )
            },
            SessionEvent::Mounted(Ok(_)) => RunAction::AwaitRequest,
            SessionEvent::Mounted(Err(err)) => RunAction::Finish(
                Err(ContextureFsError::MountFailed(err)),
            ),
            SessionEvent::Next(Ok(Some(request))) => RunAction::Dispatch(request),
            SessionEvent::Next(Ok(None)) => RunAction::Finish(Ok(())),
            SessionEvent::Next(Err(err)) => RunAction::Abort(err),
        }
    }
}

} // verus!
