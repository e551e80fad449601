use std::sync::{Arc, Mutex};
use std::time::Duration;

use contexture::file_system::reply::{Errno, Reply};
use contexture::file_system::{FileSystem, GetAttrReply, GetAttrStep};
use contexture::inode::{Ino, ROOT_INO};
use contexture::inode_table::INodeTable;
use contexture::Contexture;

type Handle = Arc<Mutex<u32>>;

fn shareable<T: Send + Sync>() {}

fn handle() -> Handle {
    Arc::new(Mutex::new(0))
}

/// The handle that a request for `ino` is to query, taken out of the table.
fn handle_of(fs: &FileSystem<Handle>, ino: Ino) -> Result<Handle, Reply> {
    match fs.get_attr(ino) {
        GetAttrStep::Query { handle, path, flags } => {
            assert_eq!(path, "");
            assert_eq!(flags, libc::AT_SYMLINK_NOFOLLOW);
            Ok(Arc::clone(handle))
        }
        GetAttrStep::Reply(GetAttrReply { reply, .. }) => Err(reply),
    }
}

#[test]
fn library_state_can_be_shared_between_tasks() {
    shareable::<INodeTable<Handle>>();
    shareable::<FileSystem<Handle>>();
    shareable::<Contexture<Handle>>();
}

#[test]
fn requests_for_one_inode_meet_at_its_lock() {
    let mut fs = FileSystem::new(Some(Duration::from_secs(1)), (1000, 7), handle());
    let ino = fs.inodes.resolve_or_create((5, 7), false, handle);

    let first = handle_of(&fs, ino).expect("live inode");
    let second = handle_of(&fs, ino).expect("live inode");
    assert!(Arc::ptr_eq(&first, &second));

    let guard = first.lock().expect("entry lock");
    assert!(second.try_lock().is_err());
    drop(guard);
    *second.try_lock().expect("free again") += 1;
    assert_eq!(*first.lock().expect("entry lock"), 1);
    assert_eq!(fs.inodes.ref_count(ino), 1);
}

#[test]
fn requests_for_different_inodes_do_not_wait_for_each_other() {
    let mut fs = FileSystem::new(None, (1000, 7), handle());
    let inos: Vec<Ino> =
        (0..6u64).map(|n| fs.inodes.resolve_or_create((n, 3), false, handle)).collect();

    let held = handle_of(&fs, inos[0]).expect("live inode");
    let guard = held.lock().expect("entry lock");

    for &ino in &inos[1..] {
        let other = handle_of(&fs, ino).expect("live inode");
        assert!(!Arc::ptr_eq(&held, &other));
        assert!(other.try_lock().is_ok());
    }
    assert!(handle_of(&fs, ROOT_INO).expect("root").try_lock().is_ok());
    assert_eq!(handle_of(&fs, 404).err(), Some(Reply::Error(Errno::NoEntry)));

    assert_eq!(*guard, 0);
}
