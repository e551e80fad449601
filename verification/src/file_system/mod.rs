//! The filesystem proper: the inode table, the configured attribute time to
//! live, and the handler of get-attributes requests.

pub mod attr;
pub mod file_descriptor;
pub mod reply;

use std::time::Duration;
use vstd::prelude::*;

use crate::file_system::attr::{copy_stat_attr_to_file_attr, file_attr_of, FileAttr, Stat};
use crate::file_system::file_descriptor::at_symlink_nofollow;
use crate::file_system::reply::{AttrOut, Errno, Reply};
use crate::inode::{Ino, SrcId};
use crate::inode_table::{INodeTable, INodeTableView};

verus! {

/// Trusted: `std::io::Error`, carried through as an opaque value.
#[verifier::external_type_specification]
#[verifier::external_body]
pub struct ExIoError(std::io::Error);

/// The code of the operating system that the error `err` carries, if it
/// carries one: what `std::io::Error::raw_os_error` answers for it.
pub uninterp spec fn os_code_of(err: std::io::Error) -> Option<i32>;

/// Trusted: `std::io::Error::raw_os_error` reads the error and changes
/// nothing, so its answer depends on the error alone. std documents it as
/// the code for an error made by `last_os_error` or `from_raw_os_error`, and
/// `None` for any other.
pub assume_specification[ std::io::Error::raw_os_error ](err: &std::io::Error) -> (code: Option<
    i32,
>)
    ensures
        code == os_code_of(*err),
;

/// How handling a get-attributes request can fail.
#[derive(Debug)]
pub enum GetAttrError {
    /// The host refused the attribute query.
    InnerStat(std::io::Error),
    /// The reply could not be delivered.
    ReplyFailed(std::io::Error),
}

/// A get-attributes request that is handled: the one reply to send, and what
/// the handler reports if the reply is delivered.
#[derive(Debug)]
pub struct GetAttrReply {
    pub reply: Reply,
    pub result: Result<(), GetAttrError>,
}

/// What a get-attributes request needs next.
#[derive(Debug)]
pub enum GetAttrStep<'a, H> {
    /// The inode is live. Its host file is to be queried through `handle`,
    /// by `path` below it and with `flags`; the answer goes to
    /// [`FileSystem::get_attr_reply`].
    Query { handle: &'a H, path: &'static str, flags: i32 },
    /// The request is handled without any host call.
    Reply(GetAttrReply),
}

/// The reply to a get-attributes request whose host query gave `inner_stat`,
/// under the configured time to live `timeout`.
pub open spec fn spec_get_attr_reply(
    timeout: Option<Duration>,
    inner_stat: Result<Stat, std::io::Error>,
) -> GetAttrReply {
    match inner_stat {
        Ok(stat) => GetAttrReply {
            reply: Reply::Attr(AttrOut { attr: file_attr_of(stat), ttl: timeout }),
            result: Ok(()),
        },
        Err(err) => GetAttrReply {
            reply: Reply::Error(Errno::spec_from_os(os_code_of(err))),
            result: Err(GetAttrError::InnerStat(err)),
        },
    }
}

impl GetAttrReply {
    /// What the handler reports once the reply went out: a failed delivery
    /// first, else what handling had found.
    pub open spec fn spec_delivered(self, sent: Result<(), std::io::Error>) -> Result<
        (),
        GetAttrError,
    > {
        match sent {
            Err(err) => Err(GetAttrError::ReplyFailed(err)),
            Ok(_) => self.result,
        }
    }

    /// Closes the request once the reply went out, with the outcome `sent` of
    /// sending it.
    pub fn delivered(self, sent: Result<(), std::io::Error>) -> (result: Result<(), GetAttrError>)
        ensures
            result == self.spec_delivered(sent),
    {
        match sent {
            Err(err) => Err(GetAttrError::ReplyFailed(err)),
            Ok(_) => self.result,
        }
    }
}

/// The filesystem state that request handlers share.
pub struct FileSystem<H> {
    /// For how long the kernel may cache attributes, if at all.
    pub timeout: Option<Duration>,
    /// The live inodes.
    pub inodes: INodeTable<H>,
}

impl<H> FileSystem<H> {
    /// The invariant of the filesystem state: that of its inode table.
    pub open spec fn wf(&self) -> bool {
        self.inodes.wf()
    }

    /// A filesystem that knows the root of the mount alone.
    pub fn new(timeout: Option<Duration>, root_src_id: SrcId, root_handle: H) -> (fs: Self)
        ensures
            fs.wf(),
            fs.timeout == timeout,
            fs.inodes@ == INodeTableView::seeded(root_src_id, root_handle),
    {
        let inodes = INodeTable::new(root_src_id, root_handle);
        FileSystem { timeout, inodes }
    }

    /// How a get-attributes request for `ino` starts: with "no such entry"
    /// where the inode is not live, else with a query of the file behind the
    /// entry's own handle, by the empty path, that follows no symbolic link.
    pub open spec fn spec_get_attr(&self, ino: Ino) -> GetAttrStep<'_, H> {
        match self.inodes@.get(ino) {
            Some(inode) => GetAttrStep::Query { handle: &inode.handle, path: "", flags: 0x100 },
            None => GetAttrStep::Reply(
                GetAttrReply { reply: Reply::Error(Errno::NoEntry), result: Ok(()) },
            ),
        }
    }

    /// Starts a get-attributes request for `ino`. An inode number that is not
    /// live is answered at once with "no such entry", which is no failure of
    /// the handler; no host call is made for it. For a live one the host is
    /// to be asked about the very file that the entry's handle holds open,
    /// without following a symbolic link.
    pub fn get_attr(&self, ino: Ino) -> (step: GetAttrStep<'_, H>)
        ensures
            step == self.spec_get_attr(ino),
    {
        match self.inodes.get(&ino) {
            Some(inode) => GetAttrStep::Query {
                handle: &inode.handle,
                path: "",
                flags: at_symlink_nofollow(),
            },
            None => GetAttrStep::Reply(
                GetAttrReply { reply: Reply::Error(Errno::NoEntry), result: Ok(()) },
            ),
        }
    }

    /// Turns the host's answer into the reply. Attributes are taken over
    /// field by field and get the configured time to live, if one is
    /// configured. A refusal of the host is passed on with the host's own
    /// code, or as a generic input/output error where it has none, and is
    /// reported as a failure of the handler.
    pub fn get_attr_reply(&self, inner_stat: Result<Stat, std::io::Error>) -> (handled:
        GetAttrReply)
        ensures
            handled == spec_get_attr_reply(self.timeout, inner_stat),
    {
        match inner_stat {
            Ok(stat) => {
                let mut attr = FileAttr::default();
                copy_stat_attr_to_file_attr(&mut attr, &stat);
                let ttl = self.timeout;
                GetAttrReply { reply: Reply::Attr(AttrOut { attr, ttl }), result: Ok(()) }
            },
            Err(err) => {
                let err_num = Errno::from_os(err.raw_os_error());
                GetAttrReply {
                    reply: Reply::Error(err_num),
                    result: Err(GetAttrError::InnerStat(err)),
                }
            },
        }
    }
}

} // verus!
