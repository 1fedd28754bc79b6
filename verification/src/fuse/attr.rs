//! File attributes as the kernel wants them.

use super::protocol::{FileAttr, S_IFDIR, S_IFLNK, S_IFMT};
use vstd::prelude::*;

verus! {

/// The block size that every file reports.
pub const BLOCK_SIZE: u32 = 512;

/// The permission bits of a mode.
pub const PERM_MASK: u32 = 0o7777;

/// The kinds of file that a shared folder holds.
#[derive(Clone, Copy, Debug, PartialEq, Eq, Structural)]
pub enum FileKind {
    Directory,
    Symlink,
    RegularFile,
}

/// Attributes in the kernel's terms. Times are in whole seconds since the epoch.
#[derive(Clone, Copy, Debug, PartialEq, Eq)]
pub struct FuseFileAttr {
    pub ino: u64,
    pub size: u64,
    pub blocks: u64,
    pub atime_secs: u64,
    pub mtime_secs: u64,
    pub ctime_secs: u64,
    pub crtime_secs: u64,
    pub kind: FileKind,
    pub perm: u16,
    pub nlink: u32,
    pub uid: u32,
    pub gid: u32,
    pub rdev: u32,
    pub blksize: u32,
    pub flags: u32,
}

/// The kind of file that `attr` describes.
pub open spec fn attr_kind(attr: FileAttr) -> FileKind {
    if attr.is_dir() {
        FileKind::Directory
    } else if attr.is_symlink() {
        FileKind::Symlink
    } else {
        FileKind::RegularFile
    }
}

/// The kind of file that the type part of a mode stands for.
pub open spec fn entry_kind(file_type: u32) -> FileKind {
    if file_type == S_IFDIR {
        FileKind::Directory
    } else if file_type == S_IFLNK {
        FileKind::Symlink
    } else {
        FileKind::RegularFile
    }
}

/// A time in seconds, with times before the epoch moved up to it.
pub open spec fn since_epoch(secs: i64) -> u64 {
    if secs < 0 {
        0
    } else {
        secs as u64
    }
}

/// What the kernel is told of inode `ino`, whose file the host describes by `attr`.
pub open spec fn fuse_attr(ino: u64, attr: FileAttr) -> FuseFileAttr {
    FuseFileAttr {
        ino,
        size: attr.size,
        blocks: attr.blocks,
        atime_secs: since_epoch(attr.atime),
        mtime_secs: since_epoch(attr.mtime),
        ctime_secs: since_epoch(attr.ctime),
        crtime_secs: 0,
        kind: attr_kind(attr),
        perm: (attr.mode & PERM_MASK) as u16,
        nlink: attr.nlink,
        uid: attr.uid,
        gid: attr.gid,
        rdev: 0,
        blksize: BLOCK_SIZE,
        flags: 0,
    }
}

fn clamp_to_epoch(secs: i64) -> (clamped: u64)
    ensures
        clamped == since_epoch(secs),
{
    if secs < 0 {
        0
    } else {
        secs as u64
    }
}

/// The kind of file that the type part of a mode stands for.
pub fn kind_of_entry(file_type: u32) -> (kind: FileKind)
    ensures
        kind == entry_kind(file_type),
{
    if file_type == S_IFDIR {
        FileKind::Directory
    } else if file_type == S_IFLNK {
        FileKind::Symlink
    } else {
        FileKind::RegularFile
    }
}

/// What the kernel is told of inode `ino`, whose file the host describes by `attr`.
pub fn proto_attr_to_fuse(ino: u64, attr: &FileAttr) -> (told: FuseFileAttr)
    ensures
        told == fuse_attr(ino, *attr),
        told.perm as u32 == attr.mode & PERM_MASK,
{
    let kind = if attr.is_dir() {
        FileKind::Directory
    } else if attr.is_symlink() {
        FileKind::Symlink
    } else {
        FileKind::RegularFile
    };
    proof {
        law_perm_keeps_bits(attr.mode);
    }
    FuseFileAttr {
        ino,
        size: attr.size,
        blocks: attr.blocks,
        atime_secs: clamp_to_epoch(attr.atime),
        mtime_secs: clamp_to_epoch(attr.mtime),
        ctime_secs: clamp_to_epoch(attr.ctime),
        crtime_secs: 0,
        kind,
        perm: (attr.mode & PERM_MASK) as u16,
        nlink: attr.nlink,
        uid: attr.uid,
        gid: attr.gid,
        rdev: 0,
        blksize: BLOCK_SIZE,
        flags: 0,
    }
}

/// No permission bit is lost on the way to the kernel's narrower field.
pub proof fn law_perm_keeps_bits(mode: u32)
    ensures
        (mode & PERM_MASK) as u16 as u32 == mode & PERM_MASK,
        (mode & PERM_MASK) as u16 <= 0o7777,
{
    assert((mode & PERM_MASK) as u16 as u32 == mode & PERM_MASK) by (bit_vector);
    assert((mode & PERM_MASK) as u16 <= 0o7777) by (bit_vector);
}

/// A file's kind is the same whether it is told from its whole mode or from the type part alone.
pub proof fn law_kinds_agree(attr: FileAttr)
    ensures
        attr_kind(attr) == entry_kind(attr.mode & S_IFMT),
{
}

} // verus!
