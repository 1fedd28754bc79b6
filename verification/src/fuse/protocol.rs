//! The messages that the guest file system and the host exchange.
//!
//! Types that hold text take the text's representation as a parameter: `String` in running code,
//! `Seq<char>` in the mathematical model. The view of a message is the same message in the model.

use vstd::prelude::*;

verus! {

/// A file system operation that the guest asks the host to perform.
#[allow(inconsistent_fields)]
#[derive(Debug, PartialEq, Eq)]
pub enum FsOp<S = String> {
    Init { root: S },
    Stat { path: S },
    Readdir { path: S },
    Open { path: S, flags: u32 },
    Read { path: S, offset: u64, size: u32 },
    Write { path: S, offset: u64, data: S },
    Create { path: S, mode: u32, flags: u32 },
    Unlink { path: S },
    Mkdir { path: S, mode: u32 },
    Rmdir { path: S },
    Rename { from: S, to: S },
    Truncate { path: S, size: u64 },
    Chmod { path: S, mode: u32 },
    Readlink { path: S },
    Symlink { target: S, linkpath: S },
    Statfs { path: S },
    Flush { path: S },
    Release { path: S },
}

impl View for FsOp {
    type V = FsOp<Seq<char>>;

    open spec fn view(&self) -> FsOp<Seq<char>> {
        match self {
            FsOp::Init { root } => FsOp::Init { root: root@ },
            FsOp::Stat { path } => FsOp::Stat { path: path@ },
            FsOp::Readdir { path } => FsOp::Readdir { path: path@ },
            FsOp::Open { path, flags } => FsOp::Open { path: path@, flags: *flags },
            FsOp::Read { path, offset, size } => FsOp::Read {
                path: path@,
                offset: *offset,
                size: *size,
            },
            FsOp::Write { path, offset, data } => FsOp::Write {
                path: path@,
                offset: *offset,
                data: data@,
            },
            FsOp::Create { path, mode, flags } => FsOp::Create {
                path: path@,
                mode: *mode,
                flags: *flags,
            },
            FsOp::Unlink { path } => FsOp::Unlink { path: path@ },
            FsOp::Mkdir { path, mode } => FsOp::Mkdir { path: path@, mode: *mode },
            FsOp::Rmdir { path } => FsOp::Rmdir { path: path@ },
            FsOp::Rename { from, to } => FsOp::Rename { from: from@, to: to@ },
            FsOp::Truncate { path, size } => FsOp::Truncate { path: path@, size: *size },
            FsOp::Chmod { path, mode } => FsOp::Chmod { path: path@, mode: *mode },
            FsOp::Readlink { path } => FsOp::Readlink { path: path@ },
            FsOp::Symlink { target, linkpath } => FsOp::Symlink {
                target: target@,
                linkpath: linkpath@,
            },
            FsOp::Statfs { path } => FsOp::Statfs { path: path@ },
            FsOp::Flush { path } => FsOp::Flush { path: path@ },
            FsOp::Release { path } => FsOp::Release { path: path@ },
        }
    }
}

/// Text in the model.
pub type Text = Seq<char>;

/// A directory's entries in the model.
pub type Entries = Seq<DirEntry<Text>>;

/// A numbered operation.
#[derive(Debug, PartialEq, Eq)]
pub struct FsRequest<S = String> {
    pub id: u64,
    pub op: FsOp<S>,
}

impl View for FsRequest {
    type V = FsRequest<Text>;

    open spec fn view(&self) -> FsRequest<Text> {
        FsRequest { id: self.id, op: self.op@ }
    }
}

/// The bits of a mode that hold the file's type.
pub const S_IFMT: u32 = 0o170000;

/// The type bits of a directory.
pub const S_IFDIR: u32 = 0o040000;

/// The type bits of a symbolic link.
pub const S_IFLNK: u32 = 0o120000;

/// What the host knows of a file. Times are in seconds since the epoch.
#[derive(Clone, Copy, Debug, PartialEq, Eq)]
pub struct FileAttr {
    pub size: u64,
    pub blocks: u64,
    pub atime: i64,
    pub mtime: i64,
    pub ctime: i64,
    pub mode: u32,
    pub nlink: u32,
    pub uid: u32,
    pub gid: u32,
}

impl FileAttr {
    pub open spec fn spec_is_dir(&self) -> bool {
        self.mode & S_IFMT == S_IFDIR
    }

    pub open spec fn spec_is_symlink(&self) -> bool {
        self.mode & S_IFMT == S_IFLNK
    }

    /// Whether the file is a directory.
    #[verifier::when_used_as_spec(spec_is_dir)]
    pub fn is_dir(&self) -> (answer: bool)
        ensures
            answer == self.is_dir(),
    {
        self.mode & S_IFMT == S_IFDIR
    }

    /// Whether the file is a symbolic link.
    #[verifier::when_used_as_spec(spec_is_symlink)]
    pub fn is_symlink(&self) -> (answer: bool)
        ensures
            answer == self.is_symlink(),
    {
        self.mode & S_IFMT == S_IFLNK
    }
}

/// One entry of a directory. `file_type` is the type part of its mode.
#[derive(Debug, PartialEq, Eq)]
pub struct DirEntry<S = String> {
    pub name: S,
    pub file_type: u32,
}

impl View for DirEntry {
    type V = DirEntry<Text>;

    open spec fn view(&self) -> DirEntry<Text> {
        DirEntry { name: self.name@, file_type: self.file_type }
    }
}

/// What the host knows of a file system.
#[derive(Clone, Copy, Debug, PartialEq, Eq)]
pub struct StatVfs {
    pub blocks: u64,
    pub bfree: u64,
    pub bavail: u64,
    pub files: u64,
    pub ffree: u64,
    pub bsize: u64,
    pub namelen: u32,
}

/// What a successful answer carries. `Data` holds the bytes that were read as base64 text.
#[derive(Debug, PartialEq, Eq)]
pub enum FsBody<S = String, D = Vec<DirEntry>> {
    Empty,
    Attr(FileAttr),
    Dir { entries: D },
    Data { data: S },
    Written { size: u32 },
    Link { target: S },
    StatVfs(StatVfs),
}

/// The entries of a directory in the model.
pub open spec fn entries_view(entries: Seq<DirEntry>) -> Entries {
    entries.map_values(|entry: DirEntry| entry@)
}

impl View for FsBody {
    type V = FsBody<Text, Entries>;

    open spec fn view(&self) -> FsBody<Text, Entries> {
        match self {
            FsBody::Empty => FsBody::Empty,
            FsBody::Attr(attr) => FsBody::Attr(*attr),
            FsBody::Dir { entries } => FsBody::Dir { entries: entries_view(entries@) },
            FsBody::Data { data } => FsBody::Data { data: data@ },
            FsBody::Written { size } => FsBody::Written { size: *size },
            FsBody::Link { target } => FsBody::Link { target: target@ },
            FsBody::StatVfs(stat) => FsBody::StatVfs(*stat),
        }
    }
}

/// Whether the host could do what it was asked.
#[derive(Debug, PartialEq, Eq)]
pub enum FsResult<S = String, D = Vec<DirEntry>> {
    Success { body: FsBody<S, D> },
    Failure { errno: i32 },
}

impl View for FsResult {
    type V = FsResult<Text, Entries>;

    open spec fn view(&self) -> FsResult<Text, Entries> {
        match self {
            FsResult::Success { body } => FsResult::Success { body: body@ },
            FsResult::Failure { errno } => FsResult::Failure { errno: *errno },
        }
    }
}

/// The host's answer to a request.
#[derive(Debug, PartialEq, Eq)]
pub struct FsResponse<S = String, D = Vec<DirEntry>> {
    pub id: u64,
    pub result: FsResult<S, D>,
}

impl View for FsResponse {
    type V = FsResponse<Text, Entries>;

    open spec fn view(&self) -> FsResponse<Text, Entries> {
        FsResponse { id: self.id, result: self.result@ }
    }
}

/// What came of a remote call: an answer, or a failure to send the request or to receive one.
#[derive(Debug, PartialEq, Eq)]
pub enum Outcome<S = String, D = Vec<DirEntry>> {
    Answered(FsResponse<S, D>),
    Failed,
}

impl View for Outcome {
    type V = Outcome<Text, Entries>;

    open spec fn view(&self) -> Outcome<Text, Entries> {
        match self {
            Outcome::Answered(response) => Outcome::Answered(response@),
            Outcome::Failed => Outcome::Failed,
        }
    }
}

/// The numbering of the requests that go over one connection.
pub struct Connection {
    next_id: u64,
}

impl View for Connection {
    type V = u64;

    /// The number that the next request gets.
    closed spec fn view(&self) -> u64 {
        self.next_id
    }
}

impl Connection {
    /// A connection over which nothing has been sent. Its first request is number one.
    pub fn new() -> (conn: Connection)
        ensures
            conn@ == 1,
    {
        Connection { next_id: 1 }
    }

    /// The number that the next request gets.
    pub fn next_id(&self) -> (id: u64)
        ensures
            id == self@,
    {
        self.next_id
    }

    /// The request that asks for `op`.
    pub fn rpc(&mut self, op: FsOp) -> (request: FsRequest)
        requires
            old(self)@ < u64::MAX,
        ensures
            request@ == (FsRequest { id: old(self)@, op: op@ }),
            final(self)@ == old(self)@ + 1,
    {
        let id = self.next_id;
        self.next_id = self.next_id + 1;
        FsRequest { id, op }
    }
}

} // verus!
