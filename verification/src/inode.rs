//! Inode numbers, host identities and the per-inode entry.

use vstd::prelude::*;

verus! {

/// Inode number that the driver hands to the kernel.
pub type Ino = u64;

/// Identity of a host file: its inode number and the device it lives on. Two
/// names are hard links to one file exactly when they have the same identity.
pub type SrcId = (u64, libc::dev_t);

/// The inode number reserved for the root of the mount.
pub const ROOT_INO: Ino = 1;

/// The reference count that the root entry starts with: half the range, so
/// that ordinary traffic neither brings it to zero nor overflows it.
pub const ROOT_REF_COUNT: u64 = 0x8000_0000_0000_0000;

/// One live inode: the kernel-visible number, the host file behind it, an open
/// handle of type `H` on that file, and the number of references that the
/// kernel holds.
#[derive(Debug)]
pub struct INode<H> {
    pub ino: Ino,
    pub src_id: SrcId,
    pub handle: H,
    pub is_symlink: bool,
    pub ref_count: u64,
}

} // verus!
