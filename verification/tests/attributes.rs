use contexture::file_system::attr::{copy_stat_attr_to_file_attr, FileAttr, Stat, Timestamp};

fn stat() -> Stat {
    Stat {
        st_dev: 2049,
        st_ino: 131_075,
        st_nlink: 2,
        st_mode: 0o100644,
        st_uid: 1000,
        st_gid: 100,
        st_rdev: 0,
        st_size: 4096,
        st_blksize: 4096,
        st_blocks: 8,
        st_atime: 1_700_000_001,
        st_atime_nsec: 111,
        st_mtime: 1_700_000_002,
        st_mtime_nsec: 222,
        st_ctime: 1_700_000_003,
        st_ctime_nsec: 333,
    }
}

#[test]
fn default_attributes_are_zero() {
    let attr = FileAttr::default();
    let epoch = Timestamp { secs: 0, nanos: 0 };
    assert_eq!(
        attr,
        FileAttr {
            ino: 0,
            nlink: 0,
            size: 0,
            mode: 0,
            uid: 0,
            gid: 0,
            rdev: 0,
            blksize: 0,
            blocks: 0,
            atime: epoch,
            mtime: epoch,
            ctime: epoch,
        }
    );
}

#[test]
fn every_field_is_taken_over() {
    let mut attr = FileAttr::default();
    copy_stat_attr_to_file_attr(&mut attr, &stat());
    assert_eq!(
        attr,
        FileAttr {
            ino: 131_075,
            nlink: 2,
            size: 4096,
            mode: 0o100644,
            uid: 1000,
            gid: 100,
            rdev: 0,
            blksize: 4096,
            blocks: 8,
            atime: Timestamp { secs: 1_700_000_001, nanos: 111 },
            mtime: Timestamp { secs: 1_700_000_002, nanos: 222 },
            ctime: Timestamp { secs: 1_700_000_003, nanos: 333 },
        }
    );
}

#[test]
fn earlier_contents_are_overwritten() {
    let mut attr = FileAttr {
        ino: 9,
        nlink: 9,
        size: 9,
        mode: 9,
        uid: 9,
        gid: 9,
        rdev: 9,
        blksize: 9,
        blocks: 9,
        atime: Timestamp { secs: 9, nanos: 9 },
        mtime: Timestamp { secs: 9, nanos: 9 },
        ctime: Timestamp { secs: 9, nanos: 9 },
    };
    let mut expected = FileAttr::default();
    copy_stat_attr_to_file_attr(&mut expected, &stat());
    copy_stat_attr_to_file_attr(&mut attr, &stat());
    assert_eq!(attr, expected);
    assert_eq!(attr.size, 4096);
}

#[test]
fn wide_fields_keep_their_low_bits() {
    let mut wide = stat();
    wide.st_nlink = (1u64 << 32) + 3;
    wide.st_rdev = 0xdead_beef_0000_0805;
    wide.st_blksize = (7i64 << 32) + 512;
    wide.st_atime_nsec = (1i64 << 32) + 5;
    let mut attr = FileAttr::default();
    copy_stat_attr_to_file_attr(&mut attr, &wide);
    assert_eq!(attr.nlink, 3);
    assert_eq!(attr.rdev, 0x0805);
    assert_eq!(attr.blksize, 512);
    assert_eq!(attr.atime, Timestamp { secs: 1_700_000_001, nanos: 5 });
}

#[test]
fn negative_fields_are_read_as_unsigned() {
    let mut odd = stat();
    odd.st_size = -1;
    odd.st_blocks = -2;
    odd.st_blksize = -1;
    odd.st_mtime = -1;
    odd.st_mtime_nsec = -1;
    odd.st_ctime = i64::MIN;
    odd.st_ctime_nsec = i64::MIN;
    let mut attr = FileAttr::default();
    copy_stat_attr_to_file_attr(&mut attr, &odd);
    assert_eq!(attr.size, u64::MAX);
    assert_eq!(attr.blocks, u64::MAX - 1);
    assert_eq!(attr.blksize, u32::MAX);
    assert_eq!(attr.mtime, Timestamp { secs: u64::MAX, nanos: u32::MAX });
    assert_eq!(attr.ctime, Timestamp { secs: 1u64 << 63, nanos: 0 });
}

#[test]
fn largest_values_pass_unchanged() {
    let mut big = stat();
    big.st_ino = u64::MAX;
    big.st_mode = u32::MAX;
    big.st_uid = u32::MAX;
    big.st_gid = u32::MAX;
    big.st_size = i64::MAX;
    big.st_nlink = u32::MAX as u64;
    let mut attr = FileAttr::default();
    copy_stat_attr_to_file_attr(&mut attr, &big);
    assert_eq!(attr.ino, u64::MAX);
    assert_eq!(attr.mode, u32::MAX);
    assert_eq!(attr.uid, u32::MAX);
    assert_eq!(attr.gid, u32::MAX);
    assert_eq!(attr.size, i64::MAX as u64);
    assert_eq!(attr.nlink, u32::MAX);
}

#[test]
fn identity_is_inode_then_device() {
    assert_eq!(stat().src_id(), (131_075, 2049));
}
