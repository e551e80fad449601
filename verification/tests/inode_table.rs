use std::cell::Cell;

use contexture::inode::{INode, Ino, SrcId, ROOT_INO, ROOT_REF_COUNT};
use contexture::inode_table::INodeTable;

const ROOT_SRC: SrcId = (1000, 7);

fn table() -> INodeTable<&'static str> {
    INodeTable::new(ROOT_SRC, "root")
}

fn entry<'a>(table: &'a INodeTable<&'static str>, ino: Ino) -> &'a INode<&'static str> {
    table.get(&ino).expect("live inode")
}

#[test]
fn new_table_holds_the_pinned_root() {
    let table = table();
    let root = entry(&table, ROOT_INO);
    assert_eq!(ROOT_INO, 1);
    assert_eq!(root.ino, 1);
    assert_eq!(root.src_id, ROOT_SRC);
    assert_eq!(root.handle, "root");
    assert!(!root.is_symlink);
    assert_eq!(root.ref_count, ROOT_REF_COUNT);
    assert_eq!(ROOT_REF_COUNT, 1u64 << 63);
    assert_eq!(table.ino_of(ROOT_SRC), Some(1));
    assert!(table.get(&0).is_none());
    assert!(table.get(&2).is_none());
}

#[test]
fn first_allocation_is_two() {
    let mut table = table();
    let ino = table.resolve_or_create((5, 7), false, || "a");
    assert_eq!(ino, 2);
    let inode = entry(&table, 2);
    assert_eq!(inode.ino, 2);
    assert_eq!(inode.src_id, (5, 7));
    assert_eq!(inode.handle, "a");
    assert!(!inode.is_symlink);
    assert_eq!(inode.ref_count, 1);
    assert_eq!(table.ino_of((5, 7)), Some(2));
}

#[test]
fn hard_links_resolve_to_one_inode() {
    let mut table = table();
    let made = Cell::new(0u32);
    let first = table.resolve_or_create((42, 7), false, || {
        made.set(made.get() + 1);
        "first name"
    });
    let second = table.resolve_or_create((42, 7), false, || {
        made.set(made.get() + 1);
        "second name"
    });
    let third = table.resolve_or_create((42, 7), true, || {
        made.set(made.get() + 1);
        "third name"
    });
    assert_eq!(first, second);
    assert_eq!(second, third);
    assert_eq!(table.ref_count(first), 3);
    assert_eq!(made.get(), 1);
    let inode = entry(&table, first);
    assert_eq!(inode.handle, "first name");
    assert!(!inode.is_symlink);
}

#[test]
fn same_inode_number_on_another_device_is_another_file() {
    let mut table = table();
    let here = table.resolve_or_create((42, 7), false, || "here");
    let there = table.resolve_or_create((42, 8), false, || "there");
    let swapped = table.resolve_or_create((7, 42), false, || "swapped");
    assert_eq!((here, there, swapped), (2, 3, 4));
    assert_eq!(table.ino_of((42, 7)), Some(2));
    assert_eq!(table.ino_of((42, 8)), Some(3));
    assert_eq!(table.ino_of((7, 42)), Some(4));
}

#[test]
fn identities_at_the_ends_of_the_range_stay_apart() {
    let mut table = table();
    let a = table.resolve_or_create((u64::MAX, 0), false, || "a");
    let b = table.resolve_or_create((0, u64::MAX), false, || "b");
    let c = table.resolve_or_create((u64::MAX, u64::MAX), false, || "c");
    let d = table.resolve_or_create((0, 0), false, || "d");
    let e = table.resolve_or_create((0, 1), false, || "e");
    assert_eq!((a, b, c, d, e), (2, 3, 4, 5, 6));
    assert_eq!(table.ino_of((u64::MAX, 0)), Some(2));
    assert_eq!(table.ino_of((0, u64::MAX)), Some(3));
    assert_eq!(table.ino_of((u64::MAX, u64::MAX)), Some(4));
    assert_eq!(table.ino_of((0, 0)), Some(5));
    assert_eq!(table.ino_of((0, 1)), Some(6));
    assert_eq!(table.ino_of((1, 0)), None);
}

#[test]
fn fresh_files_get_growing_numbers() {
    let mut table = table();
    let mut last = ROOT_INO;
    for n in 0..100u64 {
        assert!(table.can_resolve((n, 3)));
        assert!(table.get(&(last + 1)).is_none());
        let ino = table.resolve_or_create((n, 3), n % 2 == 0, || "file");
        assert_ne!(ino, ROOT_INO);
        assert!(ino > last);
        assert_eq!(ino, n + 2);
        assert_eq!(entry(&table, ino).is_symlink, n % 2 == 0);
        last = ino;
    }
}

#[test]
fn resolving_the_root_again_answers_one() {
    let mut table = table();
    let ino = table.resolve_or_create(ROOT_SRC, false, || "unused");
    assert_eq!(ino, ROOT_INO);
    assert_eq!(table.ref_count(ROOT_INO), ROOT_REF_COUNT + 1);
    assert_eq!(entry(&table, ROOT_INO).handle, "root");
    assert_eq!(table.resolve_or_create((9, 9), false, || "next"), 2);
}

#[test]
fn release_to_zero_removes_the_entry() {
    let mut table = table();
    let ino = table.resolve_or_create((42, 7), false, || "file");
    table.resolve_or_create((42, 7), false, || "file again");
    assert_eq!(table.release(ino, 1), None);
    assert_eq!(table.ref_count(ino), 1);
    assert!(table.get(&ino).is_some());
    assert_eq!(table.ino_of((42, 7)), Some(ino));

    assert_eq!(table.release(ino, 1), Some("file"));
    assert!(table.get(&ino).is_none());
    assert_eq!(table.ino_of((42, 7)), None);
    assert_eq!(table.ref_count(ino), 0);
}

#[test]
fn release_of_all_references_at_once() {
    let mut table = table();
    let ino = table.resolve_or_create((42, 7), false, || "file");
    table.resolve_or_create((42, 7), false, || "file");
    table.resolve_or_create((42, 7), false, || "file");
    assert_eq!(table.release(ino, 3), Some("file"));
    assert!(table.get(&ino).is_none());
}

#[test]
fn release_of_nothing_changes_nothing() {
    let mut table = table();
    let ino = table.resolve_or_create((42, 7), false, || "file");
    assert_eq!(table.release(ino, 0), None);
    assert_eq!(table.ref_count(ino), 1);
    assert_eq!(table.release(77, 0), None);
    assert!(table.get(&77).is_none());
    assert_eq!(table.ref_count(ROOT_INO), ROOT_REF_COUNT);
}

#[test]
fn released_numbers_are_not_handed_out_again() {
    let mut table = table();
    let first = table.resolve_or_create((42, 7), false, || "first");
    assert_eq!(table.release(first, 1), Some("first"));
    let again = table.resolve_or_create((42, 7), false, || "again");
    assert_eq!(first, 2);
    assert_eq!(again, 3);
    assert_eq!(entry(&table, again).handle, "again");
    assert!(table.get(&first).is_none());
}

#[test]
fn other_entries_survive_a_release() {
    let mut table = table();
    let a = table.resolve_or_create((1, 1), false, || "a");
    let b = table.resolve_or_create((2, 1), true, || "b");
    assert_eq!(table.release(a, 1), Some("a"));
    let kept = entry(&table, b);
    assert_eq!(kept.src_id, (2, 1));
    assert_eq!(kept.handle, "b");
    assert!(kept.is_symlink);
    assert_eq!(kept.ref_count, 1);
    assert_eq!(table.ino_of((2, 1)), Some(b));
    assert_eq!(table.ref_count(ROOT_INO), ROOT_REF_COUNT);
}

#[test]
fn ordinary_traffic_does_not_collect_the_root() {
    let mut table = table();
    assert_eq!(table.release(ROOT_INO, 1_000_000), None);
    assert_eq!(table.ref_count(ROOT_INO), ROOT_REF_COUNT - 1_000_000);
    assert_eq!(table.ino_of(ROOT_SRC), Some(ROOT_INO));
}

#[test]
fn ref_count_of_an_unknown_inode_is_zero() {
    let table = table();
    assert_eq!(table.ref_count(12345), 0);
    assert_eq!(table.ino_of((12345, 1)), None);
}
