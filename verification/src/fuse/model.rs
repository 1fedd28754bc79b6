//! What the file system does, as a transition system.
//!
//! A kernel request begins an operation, and an operation is a series of steps. A step either
//! calls the host, and says how to go on from what comes back, or hands out a directory's
//! entries, or is done and replies to the kernel. The operations of `HostModel` say for every
//! state which step comes next and which state it leaves.

use super::attr::{entry_kind, fuse_attr, FileKind, FuseFileAttr};
use super::codec::base64_bytes;
use super::inode::{join_path, InodeModel, ROOT_INO};
use super::protocol::{
    entries_view, DirEntry, Entries, FileAttr, FsBody, FsOp, FsRequest, FsResponse, FsResult,
    Outcome, StatVfs, Text,
};
use super::session::InitError;
use vstd::prelude::*;
use vstd::utf8::encode_utf8;

verus! {

/// No such file or directory.
pub const ENOENT: i32 = 2;

/// Input or output failed.
pub const EIO: i32 = 5;

/// For how many seconds the kernel may keep what it was told of a file.
pub const TTL_SECS: u64 = 1;

/// What the kernel is told of a file system.
#[derive(Clone, Copy, Debug, PartialEq, Eq)]
pub struct StatfsReply {
    pub blocks: u64,
    pub bfree: u64,
    pub bavail: u64,
    pub files: u64,
    pub ffree: u64,
    pub bsize: u32,
    pub namelen: u32,
    pub frsize: u32,
}

/// A reply to the kernel.
#[derive(Debug, PartialEq, Eq)]
pub enum Reply<B = Vec<u8>> {
    Error(i32),
    Empty,
    Entry { ttl_secs: u64, attr: FuseFileAttr, generation: u64 },
    Attr { ttl_secs: u64, attr: FuseFileAttr },
    Opened { fh: u64, open_flags: u32 },
    Created { ttl_secs: u64, attr: FuseFileAttr, generation: u64, fh: u64, open_flags: u32 },
    Data(B),
    Written(u32),
    Statfs(StatfsReply),
}

impl View for Reply {
    type V = Reply<Seq<u8>>;

    open spec fn view(&self) -> Reply<Seq<u8>> {
        match self {
            Reply::Error(errno) => Reply::Error(*errno),
            Reply::Empty => Reply::Empty,
            Reply::Entry { ttl_secs, attr, generation } => Reply::Entry {
                ttl_secs: *ttl_secs,
                attr: *attr,
                generation: *generation,
            },
            Reply::Attr { ttl_secs, attr } => Reply::Attr { ttl_secs: *ttl_secs, attr: *attr },
            Reply::Opened { fh, open_flags } => Reply::Opened { fh: *fh, open_flags: *open_flags },
            Reply::Created { ttl_secs, attr, generation, fh, open_flags } => Reply::Created {
                ttl_secs: *ttl_secs,
                attr: *attr,
                generation: *generation,
                fh: *fh,
                open_flags: *open_flags,
            },
            Reply::Data(bytes) => Reply::Data(bytes@),
            Reply::Written(size) => Reply::Written(*size),
            Reply::Statfs(stat) => Reply::Statfs(*stat),
        }
    }
}

/// How an operation goes on once its call has come back.
#[allow(inconsistent_fields)]
#[derive(Debug, PartialEq, Eq)]
pub enum Pending<S = String> {
    Lookup { path: S },
    Getattr { ino: u64 },
    Readdir { ino: u64, path: S, offset: i64 },
    Open,
    Read,
    Write,
    Create { ino: u64 },
    Unlink,
    Mkdir { ino: u64 },
    Rmdir,
    Rename,
    SetattrTruncate { ino: u64, path: S, mode: Option<u32> },
    SetattrChmod { ino: u64, path: S },
    SetattrStat { ino: u64 },
    Readlink,
    Symlink { ino: u64, linkpath: S },
    SymlinkStat { ino: u64 },
    Statfs,
    Flush,
    Release,
}

impl View for Pending {
    type V = Pending<Text>;

    open spec fn view(&self) -> Pending<Text> {
        match self {
            Pending::Lookup { path } => Pending::Lookup { path: path@ },
            Pending::Getattr { ino } => Pending::Getattr { ino: *ino },
            Pending::Readdir { ino, path, offset } => Pending::Readdir {
                ino: *ino,
                path: path@,
                offset: *offset,
            },
            Pending::Open => Pending::Open,
            Pending::Read => Pending::Read,
            Pending::Write => Pending::Write,
            Pending::Create { ino } => Pending::Create { ino: *ino },
            Pending::Unlink => Pending::Unlink,
            Pending::Mkdir { ino } => Pending::Mkdir { ino: *ino },
            Pending::Rmdir => Pending::Rmdir,
            Pending::Rename => Pending::Rename,
            Pending::SetattrTruncate { ino, path, mode } => Pending::SetattrTruncate {
                ino: *ino,
                path: path@,
                mode: *mode,
            },
            Pending::SetattrChmod { ino, path } => Pending::SetattrChmod {
                ino: *ino,
                path: path@,
            },
            Pending::SetattrStat { ino } => Pending::SetattrStat { ino: *ino },
            Pending::Readlink => Pending::Readlink,
            Pending::Symlink { ino, linkpath } => Pending::Symlink {
                ino: *ino,
                linkpath: linkpath@,
            },
            Pending::SymlinkStat { ino } => Pending::SymlinkStat { ino: *ino },
            Pending::Statfs => Pending::Statfs,
            Pending::Flush => Pending::Flush,
            Pending::Release => Pending::Release,
        }
    }
}

/// A directory whose entries are being handed to the kernel, and how many of them it has had.
#[derive(Debug, PartialEq, Eq)]
pub struct Listing<S = String, D = Vec<DirEntry>> {
    pub ino: u64,
    pub path: S,
    pub entries: D,
    pub next: usize,
}

impl View for Listing {
    type V = Listing<Text, Entries>;

    open spec fn view(&self) -> Listing<Text, Entries> {
        Listing {
            ino: self.ino,
            path: self.path@,
            entries: entries_view(self.entries@),
            next: self.next,
        }
    }
}

/// One entry as the kernel gets it. A listing that starts from `offset` starts after it.
#[derive(Debug, PartialEq, Eq)]
pub struct DirItem<S = String> {
    pub ino: u64,
    pub offset: i64,
    pub kind: FileKind,
    pub name: S,
}

impl View for DirItem {
    type V = DirItem<Text>;

    open spec fn view(&self) -> DirItem<Text> {
        DirItem { ino: self.ino, offset: self.offset, kind: self.kind, name: self.name@ }
    }
}

/// What is left of `listing` once its next entry has been handed out.
pub open spec fn advanced(listing: Listing<Text, Entries>) -> Listing<Text, Entries> {
    Listing { next: (listing.next + 1) as usize, ..listing }
}

/// What an operation does next.
#[derive(Debug, PartialEq, Eq)]
pub enum Step<S = String, B = Vec<u8>, D = Vec<DirEntry>> {
    Call { request: FsRequest<S>, then: Pending<S> },
    List(Listing<S, D>),
    Done(Reply<B>),
}

/// A step in the model.
pub type StepModel = Step<Text, Seq<u8>, Entries>;

impl View for Step {
    type V = StepModel;

    open spec fn view(&self) -> StepModel {
        match self {
            Step::Call { request, then } => Step::Call { request: request@, then: then@ },
            Step::List(listing) => Step::List(listing@),
            Step::Done(reply) => Step::Done(reply@),
        }
    }
}

/// What a successful call brought, or none if the call did not succeed.
pub open spec fn success(outcome: Outcome<Text, Entries>) -> Option<FsBody<Text, Entries>> {
    match outcome {
        Outcome::Answered(FsResponse { result: FsResult::Success { body }, .. }) => Some(body),
        _ => None,
    }
}

/// The error that a call which brought nothing of use is answered with: the host's own, if it
/// gave one.
pub open spec fn fault(outcome: Outcome<Text, Entries>) -> i32 {
    match outcome {
        Outcome::Answered(FsResponse { result: FsResult::Failure { errno }, .. }) => errno,
        _ => EIO,
    }
}

/// The attributes that a call brought, if it brought any.
pub open spec fn brought_attr(outcome: Outcome<Text, Entries>) -> Option<FileAttr> {
    match success(outcome) {
        Some(FsBody::Attr(attr)) => Some(attr),
        _ => None,
    }
}

pub open spec fn entry_reply(ino: u64, attr: FileAttr) -> Reply<Seq<u8>> {
    Reply::Entry { ttl_secs: TTL_SECS, attr: fuse_attr(ino, attr), generation: 0 }
}

pub open spec fn attr_reply(ino: u64, attr: FileAttr) -> Reply<Seq<u8>> {
    Reply::Attr { ttl_secs: TTL_SECS, attr: fuse_attr(ino, attr) }
}

pub open spec fn created_reply(ino: u64, attr: FileAttr) -> Reply<Seq<u8>> {
    Reply::Created {
        ttl_secs: TTL_SECS,
        attr: fuse_attr(ino, attr),
        generation: 0,
        fh: 0,
        open_flags: 0,
    }
}

pub open spec fn opened_reply() -> Reply<Seq<u8>> {
    Reply::Opened { fh: 0, open_flags: 0 }
}

/// What the kernel is told of a file system that the host describes by `stat`.
pub open spec fn statfs_told(stat: StatVfs) -> StatfsReply {
    StatfsReply {
        blocks: stat.blocks,
        bfree: stat.bfree,
        bavail: stat.bavail,
        files: stat.files,
        ffree: stat.ffree,
        bsize: stat.bsize as u32,
        namelen: stat.namelen,
        frsize: stat.bsize as u32,
    }
}

/// Whether `name` is the entry that stands for a directory itself or for its parent.
pub open spec fn is_dot(name: Text) -> bool {
    name == seq!['.'] || name == seq!['.', '.']
}

/// The state of the file system: the inode table, and the number of the next request.
#[verifier::ext_equal]
pub struct HostModel {
    pub inodes: InodeModel,
    pub next_id: u64,
}

/// A step, and the state it leaves.
pub type Transition = (HostModel, StepModel);

/// The request that opens a session on the folder `root`, as the first one of a connection.
pub open spec fn opening(root: Text) -> FsRequest<Text> {
    FsRequest { id: 1, op: FsOp::Init { root } }
}

/// Why a session could not be opened from what came of the request for it, or none if it could.
pub open spec fn init_refusal(outcome: Outcome<Text, Entries>) -> Option<InitError> {
    match outcome {
        Outcome::Answered(FsResponse { result: FsResult::Success { .. }, .. }) => None,
        Outcome::Answered(FsResponse { result: FsResult::Failure { errno }, .. }) => Some(
            InitError::Rejected { errno },
        ),
        Outcome::Failed => Some(InitError::Disconnected),
    }
}

impl HostModel {
    /// A session that has just been opened, and whose next request has the number `next_id`.
    pub open spec fn mounted(next_id: u64) -> HostModel {
        HostModel { inodes: InodeModel::rooted(), next_id }
    }

    /// The invariant that every step keeps.
    pub open spec fn wf(self) -> bool {
        self.inodes.wf()
    }

    /// There is a number left for one more request.
    pub open spec fn can_call(self) -> bool {
        self.next_id < u64::MAX
    }

    /// There is a number left for one more path.
    pub open spec fn can_insert(self) -> bool {
        self.inodes.next_ino < u64::MAX
    }

    /// There is a number left for a request on `ino`, if it comes to one.
    pub open spec fn may_call(self, ino: u64) -> bool {
        self.inodes.path_of(ino) is Some ==> self.can_call()
    }

    /// There is an inode number for `path`.
    pub open spec fn may_insert(self, path: Text) -> bool {
        self.inodes.inos.contains_key(path) || self.can_insert()
    }

    /// There is an inode number for the entry `name` of the directory `parent`, if that is known.
    pub open spec fn may_add(self, parent: u64, name: Text) -> bool {
        self.inodes.child_path(parent, name) matches Some(path) ==> self.may_insert(path)
    }

    /// There is a number left for a request that moves an entry of `parent` to `newparent`, if it
    /// comes to one.
    pub open spec fn may_rename(self, parent: u64, newparent: u64) -> bool {
        self.inodes.path_of(newparent) is Some ==> self.may_call(parent)
    }

    /// There are numbers left for what going on with `then` from `outcome` takes.
    pub open spec fn may_resume(
        self,
        then: Pending<Text>,
        outcome: Outcome<Text, Entries>,
    ) -> bool {
        match then {
            Pending::Lookup { path } => brought_attr(outcome) is Some ==> self.may_insert(path),
            Pending::SetattrTruncate { .. }
            | Pending::SetattrChmod { .. }
            | Pending::Symlink { .. } => success(outcome) is Some ==> self.can_call(),
            _ => true,
        }
    }

    /// There is an inode number for the next entry of `listing`, if one is left that takes one.
    pub open spec fn may_list(self, listing: Listing<Text, Entries>) -> bool {
        listing.next < listing.entries.len() ==> {
            let name = listing.entries[listing.next as int].name;
            is_dot(name) || self.may_insert(join_path(listing.path, name))
        }
    }

    /// Call the host.
    pub open spec fn call(self, op: FsOp<Text>, then: Pending<Text>) -> Transition {
        (
            HostModel { next_id: (self.next_id + 1) as u64, ..self },
            Step::Call { request: FsRequest { id: self.next_id, op }, then },
        )
    }

    /// Reply to the kernel.
    pub open spec fn done(self, reply: Reply<Seq<u8>>) -> Transition {
        (self, Step::Done(reply))
    }

    /// The state in which `path` certainly has an inode number.
    pub open spec fn with_path(self, path: Text) -> HostModel {
        HostModel { inodes: self.inodes.with_path(path), ..self }
    }

    pub open spec fn lookup(self, parent: u64, name: Text) -> Transition {
        match self.inodes.child_path(parent, name) {
            Some(path) => self.call(FsOp::Stat { path }, Pending::Lookup { path }),
            None => self.done(Reply::Error(ENOENT)),
        }
    }

    pub open spec fn getattr(self, ino: u64) -> Transition {
        match self.inodes.path_of(ino) {
            Some(path) => self.call(FsOp::Stat { path }, Pending::Getattr { ino }),
            None => self.done(Reply::Error(ENOENT)),
        }
    }

    pub open spec fn readdir(self, ino: u64, offset: i64) -> Transition {
        match self.inodes.path_of(ino) {
            Some(path) => self.call(
                FsOp::Readdir { path },
                Pending::Readdir { ino, path, offset },
            ),
            None => self.done(Reply::Error(ENOENT)),
        }
    }

    pub open spec fn open(self, ino: u64, flags: i32) -> Transition {
        match self.inodes.path_of(ino) {
            Some(path) => self.call(FsOp::Open { path, flags: flags as u32 }, Pending::Open),
            None => self.done(Reply::Error(ENOENT)),
        }
    }

    pub open spec fn read(self, ino: u64, offset: i64, size: u32) -> Transition {
        match self.inodes.path_of(ino) {
            Some(path) => self.call(
                FsOp::Read { path, offset: offset as u64, size },
                Pending::Read,
            ),
            None => self.done(Reply::Error(ENOENT)),
        }
    }

    /// Write what the base64 text `data` stands for.
    pub open spec fn write(self, ino: u64, offset: i64, data: Text) -> Transition {
        match self.inodes.path_of(ino) {
            Some(path) => self.call(
                FsOp::Write { path, offset: offset as u64, data },
                Pending::Write,
            ),
            None => self.done(Reply::Error(ENOENT)),
        }
    }

    /// The new file has its inode number before the host is asked.
    pub open spec fn create(self, parent: u64, name: Text, mode: u32, flags: i32) -> Transition {
        match self.inodes.child_path(parent, name) {
            Some(path) => self.with_path(path).call(
                FsOp::Create { path, mode, flags: flags as u32 },
                Pending::Create { ino: self.inodes.ino_for(path) },
            ),
            None => self.done(Reply::Error(ENOENT)),
        }
    }

    pub open spec fn unlink(self, parent: u64, name: Text) -> Transition {
        match self.inodes.child_path(parent, name) {
            Some(path) => self.call(FsOp::Unlink { path }, Pending::Unlink),
            None => self.done(Reply::Error(ENOENT)),
        }
    }

    /// The new directory has its inode number before the host is asked.
    pub open spec fn mkdir(self, parent: u64, name: Text, mode: u32) -> Transition {
        match self.inodes.child_path(parent, name) {
            Some(path) => self.with_path(path).call(
                FsOp::Mkdir { path, mode },
                Pending::Mkdir { ino: self.inodes.ino_for(path) },
            ),
            None => self.done(Reply::Error(ENOENT)),
        }
    }

    pub open spec fn rmdir(self, parent: u64, name: Text) -> Transition {
        match self.inodes.child_path(parent, name) {
            Some(path) => self.call(FsOp::Rmdir { path }, Pending::Rmdir),
            None => self.done(Reply::Error(ENOENT)),
        }
    }

    /// Inode numbers stay with the paths they had: the new name gets its own when it is looked
    /// up.
    pub open spec fn rename(
        self,
        parent: u64,
        name: Text,
        newparent: u64,
        newname: Text,
    ) -> Transition {
        match (
            self.inodes.child_path(parent, name),
            self.inodes.child_path(newparent, newname),
        ) {
            (Some(from), Some(to)) => self.call(FsOp::Rename { from, to }, Pending::Rename),
            _ => self.done(Reply::Error(ENOENT)),
        }
    }

    /// The last call of a change of attributes asks for the attributes as they are now.
    pub open spec fn setattr_stat(self, ino: u64, path: Text) -> Transition {
        self.call(FsOp::Stat { path }, Pending::SetattrStat { ino })
    }

    /// The mode is changed, if it is to change, once the size is right.
    pub open spec fn setattr_mode(self, ino: u64, path: Text, mode: Option<u32>) -> Transition {
        match mode {
            Some(mode) => self.call(
                FsOp::Chmod { path, mode },
                Pending::SetattrChmod { ino, path },
            ),
            None => self.setattr_stat(ino, path),
        }
    }

    pub open spec fn setattr(self, ino: u64, mode: Option<u32>, size: Option<u64>) -> Transition {
        match self.inodes.path_of(ino) {
            Some(path) => match size {
                Some(size) => self.call(
                    FsOp::Truncate { path, size },
                    Pending::SetattrTruncate { ino, path, mode },
                ),
                None => self.setattr_mode(ino, path, mode),
            },
            None => self.done(Reply::Error(ENOENT)),
        }
    }

    pub open spec fn readlink(self, ino: u64) -> Transition {
        match self.inodes.path_of(ino) {
            Some(path) => self.call(FsOp::Readlink { path }, Pending::Readlink),
            None => self.done(Reply::Error(ENOENT)),
        }
    }

    /// The new link has its inode number before the host is asked.
    pub open spec fn symlink(self, parent: u64, link_name: Text, target: Text) -> Transition {
        match self.inodes.child_path(parent, link_name) {
            Some(linkpath) => self.with_path(linkpath).call(
                FsOp::Symlink { target, linkpath },
                Pending::Symlink { ino: self.inodes.ino_for(linkpath), linkpath },
            ),
            None => self.done(Reply::Error(ENOENT)),
        }
    }

    /// A file that is not known is taken for the root.
    pub open spec fn statfs(self, ino: u64) -> Transition {
        let path = match self.inodes.path_of(ino) {
            Some(path) => path,
            None => Seq::empty(),
        };
        self.call(FsOp::Statfs { path }, Pending::Statfs)
    }

    pub open spec fn flush(self, ino: u64) -> Transition {
        match self.inodes.path_of(ino) {
            Some(path) => self.call(FsOp::Flush { path }, Pending::Flush),
            None => self.done(Reply::Empty),
        }
    }

    pub open spec fn release(self, ino: u64) -> Transition {
        match self.inodes.path_of(ino) {
            Some(path) => self.call(FsOp::Release { path }, Pending::Release),
            None => self.done(Reply::Empty),
        }
    }

    pub open spec fn opendir(self, ino: u64) -> Reply<Seq<u8>> {
        if self.inodes.path_of(ino) is Some {
            opened_reply()
        } else {
            Reply::Error(ENOENT)
        }
    }

    /// Go on with `then` from what came of its call.
    pub open spec fn resume(
        self,
        then: Pending<Text>,
        outcome: Outcome<Text, Entries>,
    ) -> Transition {
        let failed = self.done(Reply::Error(fault(outcome)));
        match then {
            Pending::Lookup { path } => match brought_attr(outcome) {
                Some(attr) => self.with_path(path).done(
                    entry_reply(self.inodes.ino_for(path), attr),
                ),
                None => failed,
            },
            Pending::Getattr { ino } | Pending::SetattrStat { ino } => match brought_attr(outcome) {
                Some(attr) => self.done(attr_reply(ino, attr)),
                None => failed,
            },
            Pending::Create { ino } => match brought_attr(outcome) {
                Some(attr) => self.done(created_reply(ino, attr)),
                None => failed,
            },
            Pending::Mkdir { ino } => match brought_attr(outcome) {
                Some(attr) => self.done(entry_reply(ino, attr)),
                None => failed,
            },
            Pending::Readdir { ino, path, offset } => match success(outcome) {
                Some(FsBody::Dir { entries }) => (
                    self,
                    Step::List(Listing { ino, path, entries, next: offset as usize }),
                ),
                _ => failed,
            },
            Pending::Open => match success(outcome) {
                Some(_) => self.done(opened_reply()),
                None => failed,
            },
            Pending::Read => match success(outcome) {
                Some(FsBody::Data { data }) => self.done(data_reply(base64_bytes(data))),
                _ => failed,
            },
            Pending::Write => match success(outcome) {
                Some(FsBody::Written { size }) => self.done(Reply::Written(size)),
                _ => failed,
            },
            Pending::Unlink | Pending::Rmdir | Pending::Rename => match success(outcome) {
                Some(_) => self.done(Reply::Empty),
                None => failed,
            },
            Pending::SetattrTruncate { ino, path, mode } => match success(outcome) {
                Some(_) => self.setattr_mode(ino, path, mode),
                None => failed,
            },
            Pending::SetattrChmod { ino, path } => match success(outcome) {
                Some(_) => self.setattr_stat(ino, path),
                None => failed,
            },
            Pending::Readlink => match success(outcome) {
                Some(FsBody::Link { target }) => self.done(Reply::Data(encode_utf8(target))),
                _ => failed,
            },
            Pending::Symlink { ino, linkpath } => match success(outcome) {
                Some(_) => self.call(
                    FsOp::Stat { path: linkpath },
                    Pending::SymlinkStat { ino },
                ),
                None => failed,
            },
            Pending::SymlinkStat { ino } => match brought_attr(outcome) {
                Some(attr) => self.done(entry_reply(ino, attr)),
                None => self.done(Reply::Error(EIO)),
            },
            Pending::Statfs => match success(outcome) {
                Some(FsBody::StatVfs(stat)) => self.done(Reply::Statfs(statfs_told(stat))),
                _ => self.done(Reply::Error(EIO)),
            },
            Pending::Flush | Pending::Release => self.done(Reply::Empty),
        }
    }

    /// The inode number of `name` in the directory `ino` at `path`, and the state in which it
    /// has it. A directory is its own `.`, and the `..` of every directory is the root.
    pub open spec fn entry_ino(self, ino: u64, path: Text, name: Text) -> (HostModel, u64) {
        if name == seq!['.'] {
            (self, ino)
        } else if name == seq!['.', '.'] {
            (self, ROOT_INO)
        } else {
            (self.with_path(join_path(path, name)), self.inodes.ino_for(join_path(path, name)))
        }
    }

    /// The state after the next entry of `listing` has been handed out.
    pub open spec fn after_entry(self, listing: Listing<Text, Entries>) -> HostModel {
        self.entry_ino(listing.ino, listing.path, listing.entries[listing.next as int].name).0
    }

    /// The next entry of `listing` as the kernel gets it.
    pub open spec fn entry_item(self, listing: Listing<Text, Entries>) -> DirItem<Text> {
        let entry = listing.entries[listing.next as int];
        DirItem {
            ino: self.entry_ino(listing.ino, listing.path, entry.name).1,
            offset: (listing.next + 1) as i64,
            kind: entry_kind(entry.file_type),
            name: entry.name,
        }
    }

    /// What the kernel is answered with once no entry is left.
    pub open spec fn listing_ended(self) -> Reply<Seq<u8>> {
        Reply::Empty
    }

    /// The kernel has been handed an entry, and `listing` is what is left. If it had no room for
    /// the entry, the listing ends.
    pub open spec fn entry_added(self, listing: Listing<Text, Entries>, full: bool) -> Transition {
        if full {
            self.done(Reply::Empty)
        } else {
            (self, Step::List(listing))
        }
    }
}

/// What a read that brought `decoded` is answered with. Text that is no base64 brings nothing.
pub open spec fn data_reply(decoded: Option<Seq<u8>>) -> Reply<Seq<u8>> {
    match decoded {
        Some(bytes) => Reply::Data(bytes),
        None => Reply::Error(EIO),
    }
}

} // verus!
