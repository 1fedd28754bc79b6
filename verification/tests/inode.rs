use agentos::fuse::attr::{kind_of_entry, proto_attr_to_fuse, FileKind};
use agentos::fuse::inode::{join, InodeTable};
use agentos::fuse::protocol::FileAttr;

#[test]
fn root_has_the_empty_path() {
    let table = InodeTable::new();
    assert_eq!(table.get_path(1), Some(""));
    assert_eq!(table.get_path(2), None);
    assert_eq!(table.get_path(0), None);
    assert_eq!(table.next_ino(), 2);
}

#[test]
fn numbers_are_given_once_and_kept() {
    let mut table = InodeTable::new();
    assert_eq!(table.get_or_insert("a"), 2);
    assert_eq!(table.get_or_insert("b"), 3);
    assert_eq!(table.get_or_insert("a"), 2);
    assert_eq!(table.get_or_insert(""), 1);
    assert_eq!(table.get_path(2), Some("a"));
    assert_eq!(table.get_path(3), Some("b"));
    assert_eq!(table.next_ino(), 4);
}

#[test]
fn child_paths_are_relative_to_the_root() {
    let mut table = InodeTable::new();
    assert_eq!(table.child_path(1, "dir"), Some("dir".to_string()));
    let dir = table.get_or_insert("dir");
    assert_eq!(table.child_path(dir, "file"), Some("dir/file".to_string()));
    assert_eq!(table.child_path(99, "file"), None);
    assert_eq!(join("", "x"), "x");
    assert_eq!(join("a/b", "\u{e9}"), "a/b/\u{e9}");
}

fn attr(mode: u32) -> FileAttr {
    FileAttr {
        size: 10,
        blocks: 1,
        atime: -5,
        mtime: 7,
        ctime: 0,
        mode,
        nlink: 3,
        uid: 1000,
        gid: 100,
    }
}

#[test]
fn attributes_are_told_in_the_terms_of_the_kernel() {
    let told = proto_attr_to_fuse(9, &attr(0o104755));
    assert_eq!(told.ino, 9);
    assert_eq!(told.size, 10);
    assert_eq!(told.blocks, 1);
    assert_eq!(told.atime_secs, 0);
    assert_eq!(told.mtime_secs, 7);
    assert_eq!(told.ctime_secs, 0);
    assert_eq!(told.crtime_secs, 0);
    assert_eq!(told.kind, FileKind::RegularFile);
    assert_eq!(told.perm, 0o4755);
    assert_eq!((told.nlink, told.uid, told.gid), (3, 1000, 100));
    assert_eq!((told.rdev, told.blksize, told.flags), (0, 512, 0));
}

#[test]
fn kinds_follow_the_mode() {
    assert_eq!(proto_attr_to_fuse(1, &attr(0o040755)).kind, FileKind::Directory);
    assert_eq!(proto_attr_to_fuse(1, &attr(0o120777)).kind, FileKind::Symlink);
    assert_eq!(proto_attr_to_fuse(1, &attr(0o100644)).kind, FileKind::RegularFile);
    assert_eq!(proto_attr_to_fuse(1, &attr(0o060644)).kind, FileKind::RegularFile);
    assert!(attr(0o040755).is_dir());
    assert!(!attr(0o040755).is_symlink());
    assert_eq!(kind_of_entry(0o040000), FileKind::Directory);
    assert_eq!(kind_of_entry(0o120000), FileKind::Symlink);
    assert_eq!(kind_of_entry(0o100000), FileKind::RegularFile);
}

#[test]
fn table_contains_what_was_inserted() {
    let mut table = InodeTable::new();
    assert!(table.contains(""));
    assert!(!table.contains("a"));
    table.get_or_insert("a");
    assert!(table.contains("a"));
    assert!(!table.contains("a/b"));
}

#[test]
fn children_are_found_under_a_new_number() {
    let mut table = InodeTable::new();
    assert_eq!(table.child_path(2, "b"), None);
    let a = table.get_or_insert("a");
    assert_eq!(table.child_path(a, "b"), Some("a/b".to_string()));
    assert_eq!(table.child_path(1, "b"), Some("b".to_string()));
}
