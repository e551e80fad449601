//! Host file attributes, and the reply attributes that are made from them.

use vstd::prelude::*;

use crate::inode::SrcId;

verus! {

/// What a host attribute query reports about a file, with the field widths of
/// 64-bit Linux.
#[derive(Debug, Clone, Copy, PartialEq, Eq, Structural)]
pub struct Stat {
    pub st_dev: u64,
    pub st_ino: u64,
    pub st_nlink: u64,
    pub st_mode: u32,
    pub st_uid: u32,
    pub st_gid: u32,
    pub st_rdev: u64,
    pub st_size: i64,
    pub st_blksize: i64,
    pub st_blocks: i64,
    pub st_atime: i64,
    pub st_atime_nsec: i64,
    pub st_mtime: i64,
    pub st_mtime_nsec: i64,
    pub st_ctime: i64,
    pub st_ctime_nsec: i64,
}

/// A point in time as a reply carries it.
#[derive(Debug, Clone, Copy, PartialEq, Eq, Structural)]
pub struct Timestamp {
    pub secs: u64,
    pub nanos: u32,
}

/// The attributes of a file as a reply carries them.
#[derive(Debug, Clone, Copy, PartialEq, Eq, Structural)]
pub struct FileAttr {
    pub ino: u64,
    pub nlink: u32,
    pub size: u64,
    pub mode: u32,
    pub uid: u32,
    pub gid: u32,
    pub rdev: u32,
    pub blksize: u32,
    pub blocks: u64,
    pub atime: Timestamp,
    pub mtime: Timestamp,
    pub ctime: Timestamp,
}

/// The low 32 bits of `value`, read as an unsigned number.
pub open spec fn low_32(value: int) -> int {
    value % 0x1_0000_0000
}

/// The low 64 bits of `value`, read as an unsigned number.
pub open spec fn low_64(value: int) -> int {
    value % 0x1_0000_0000_0000_0000
}

fn u64_low_32(value: u64) -> (low: u32)
    ensures
        low == low_32(value as int),
{
    let low = value as u32;
    assert(value as u32 == value % 0x1_0000_0000) by (bit_vector);
    low
}

fn i64_low_32(value: i64) -> (low: u32)
    ensures
        low == low_32(value as int),
{
    let low = value as u32;
    assert(value as u32 == (value as int) % 0x1_0000_0000) by (bit_vector);
    low
}

fn i64_low_64(value: i64) -> (low: u64)
    ensures
        low == low_64(value as int),
{
    let low = value as u64;
    assert(value as u64 == (value as int) % 0x1_0000_0000_0000_0000) by (bit_vector);
    low
}

impl Stat {
    /// The identity of the file that these attributes describe.
    pub fn src_id(&self) -> (id: SrcId)
        ensures
            id == (self.st_ino, self.st_dev),
    {
        (self.st_ino, self.st_dev)
    }
}

impl FileAttr {
    /// Attributes with every field zero.
    pub open spec fn zeroed() -> FileAttr {
        FileAttr {
            ino: 0,
            nlink: 0,
            size: 0,
            mode: 0,
            uid: 0,
            gid: 0,
            rdev: 0,
            blksize: 0,
            blocks: 0,
            atime: Timestamp { secs: 0, nanos: 0 },
            mtime: Timestamp { secs: 0, nanos: 0 },
            ctime: Timestamp { secs: 0, nanos: 0 },
        }
    }
}

impl Default for FileAttr {
    fn default() -> (attr: FileAttr)
        ensures
            attr == FileAttr::zeroed(),
    {
        let epoch = Timestamp { secs: 0, nanos: 0 };
        FileAttr {
            ino: 0,
            nlink: 0,
            size: 0,
            mode: 0,
            uid: 0,
            gid: 0,
            rdev: 0,
            blksize: 0,
            blocks: 0,
            atime: epoch,
            mtime: epoch,
            ctime: epoch,
        }
    }
}

/// A host time as a reply carries it: seconds and nanoseconds are taken over
/// bit for bit, each in the width of its reply field.
pub open spec fn timestamp_of(secs: i64, nanos: i64) -> Timestamp {
    Timestamp { secs: low_64(secs as int) as u64, nanos: low_32(nanos as int) as u32 }
}

/// The reply attributes that stand for the host attributes `stat`: every
/// reply field is the host field of the same meaning. A host field wider than
/// its reply field keeps its low bits; a signed one is read as unsigned.
pub open spec fn file_attr_of(stat: Stat) -> FileAttr {
    FileAttr {
        ino: stat.st_ino,
        nlink: low_32(stat.st_nlink as int) as u32,
        size: low_64(stat.st_size as int) as u64,
        mode: stat.st_mode,
        uid: stat.st_uid,
        gid: stat.st_gid,
        rdev: low_32(stat.st_rdev as int) as u32,
        blksize: low_32(stat.st_blksize as int) as u32,
        blocks: low_64(stat.st_blocks as int) as u64,
        atime: timestamp_of(stat.st_atime, stat.st_atime_nsec),
        mtime: timestamp_of(stat.st_mtime, stat.st_mtime_nsec),
        ctime: timestamp_of(stat.st_ctime, stat.st_ctime_nsec),
    }
}

/// Field fidelity: every reply field holds the very number of its host field
/// wherever that number fits the reply field, which is always so for the
/// identity, the mode, the owner and the group.
pub proof fn lemma_file_attr_verbatim(stat: Stat)
    ensures
        file_attr_of(stat).ino == stat.st_ino,
        file_attr_of(stat).mode == stat.st_mode,
        file_attr_of(stat).uid == stat.st_uid,
        file_attr_of(stat).gid == stat.st_gid,
        stat.st_nlink <= u32::MAX ==> file_attr_of(stat).nlink == stat.st_nlink,
        stat.st_rdev <= u32::MAX ==> file_attr_of(stat).rdev == stat.st_rdev,
        0 <= stat.st_size ==> file_attr_of(stat).size == stat.st_size,
        0 <= stat.st_blksize <= u32::MAX ==> file_attr_of(stat).blksize == stat.st_blksize,
        0 <= stat.st_blocks ==> file_attr_of(stat).blocks == stat.st_blocks,
        0 <= stat.st_atime ==> file_attr_of(stat).atime.secs == stat.st_atime,
        0 <= stat.st_mtime ==> file_attr_of(stat).mtime.secs == stat.st_mtime,
        0 <= stat.st_ctime ==> file_attr_of(stat).ctime.secs == stat.st_ctime,
        0 <= stat.st_atime_nsec <= u32::MAX ==> file_attr_of(stat).atime.nanos
            == stat.st_atime_nsec,
        0 <= stat.st_mtime_nsec <= u32::MAX ==> file_attr_of(stat).mtime.nanos
            == stat.st_mtime_nsec,
        0 <= stat.st_ctime_nsec <= u32::MAX ==> file_attr_of(stat).ctime.nanos
            == stat.st_ctime_nsec,
{
}

fn timestamp(secs: i64, nanos: i64) -> (time: Timestamp)
    ensures
        time == timestamp_of(secs, nanos),
{
    Timestamp { secs: i64_low_64(secs), nanos: i64_low_32(nanos) }
}

/// Fills `attr` from the host attributes: identity, link count, size, mode,
/// owner and group, device number, block size, block count and the three
/// timestamps. Nothing of what `attr` held before is kept.
pub fn copy_stat_attr_to_file_attr(attr: &mut FileAttr, stat_details: &Stat)
    ensures
        *final(attr) == file_attr_of(*stat_details),
{
    attr.ino = stat_details.st_ino;
    attr.nlink = u64_low_32(stat_details.st_nlink);
    attr.size = i64_low_64(stat_details.st_size);

    attr.mode = stat_details.st_mode;
    attr.uid = stat_details.st_uid;
    attr.gid = stat_details.st_gid;

    attr.rdev = u64_low_32(stat_details.st_rdev);
    attr.blksize = i64_low_32(stat_details.st_blksize);
    attr.blocks = i64_low_64(stat_details.st_blocks);

    attr.atime = timestamp(stat_details.st_atime, stat_details.st_atime_nsec);
    attr.mtime = timestamp(stat_details.st_mtime, stat_details.st_mtime_nsec);
    attr.ctime = timestamp(stat_details.st_ctime, stat_details.st_ctime_nsec);
}

} // verus!
