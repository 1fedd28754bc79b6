//! The file system itself.
//!
//! `HostFs` runs the operations of the model. Each method that is named after a kernel request
//! begins one; `resume` carries it on.

use super::attr::{kind_of_entry, proto_attr_to_fuse};
use super::codec::{base64_bytes, base64_text, decode, encodable, is_encodable, standard_encode};
use super::inode::{join, InodeModel, InodeTable, ROOT_INO};
use super::model::{
    advanced, data_reply, entry_reply, fault, init_refusal, statfs_told, success, DirItem,
    HostModel, Listing, Pending, Reply, StatfsReply, Step, StepModel, EIO, ENOENT, TTL_SECS,
};
use super::protocol::{
    Connection, DirEntry, FileAttr, FsBody, FsOp, FsRequest, FsResponse, FsResult, Outcome, StatVfs,
};
use vstd::prelude::*;
use vstd::slice::slice_to_vec;

verus! {

/// Why a file system could not be set up.
#[derive(Clone, Copy, Debug, PartialEq, Eq)]
pub enum InitError {
    /// The host refused to share the folder.
    Rejected { errno: i32 },
    /// The host could not be asked, or did not answer.
    Disconnected,
}

/// The guest's file system over a folder of the host.
pub struct HostFs {
    inodes: InodeTable,
    conn: Connection,
}

impl View for HostFs {
    type V = HostModel;

    closed spec fn view(&self) -> HostModel {
        HostModel { inodes: self.inodes@, next_id: self.conn@ }
    }
}

impl HostFs {
    /// The invariant that every operation keeps.
    pub open spec fn wf(&self) -> bool {
        self@.wf()
    }

    /// The request that opens a session on the folder `host_path`, as the first one of a new
    /// connection.
    pub fn init_request(host_path: &str) -> (opening: (Connection, FsRequest))
        ensures
            opening.1@ == super::model::opening(host_path@),
            opening.1@ == (FsRequest { id: 1, op: FsOp::Init { root: host_path@ } }),
            opening.0@ == 2,
    {
        let mut conn = Connection::new();
        let request = conn.rpc(FsOp::Init { root: host_path.to_owned() });
        (conn, request)
    }

    /// The file system over `conn`, once the host has answered the request that opens the
    /// session.
    pub fn init_done(conn: Connection, outcome: Outcome) -> (fs: Result<HostFs, InitError>)
        ensures
            match fs {
                Ok(fs) => init_refusal(outcome@) is None && fs@ == HostModel::mounted(conn@),
                Err(error) => init_refusal(outcome@) == Some(error),
            },
            match fs {
                Ok(fs) => {
                    &&& success(outcome@) is Some
                    &&& fs.wf()
                    &&& fs@ == (HostModel {
                        inodes: InodeModel {
                            next_ino: 2,
                            paths: map![ROOT_INO => Seq::<char>::empty()],
                            inos: map![Seq::<char>::empty() => ROOT_INO],
                        },
                        next_id: conn@,
                    })
                },
                Err(InitError::Rejected { errno }) => {
                    outcome matches Outcome::Answered(response) && response.result
                        == FsResult::<String, Vec<DirEntry>>::Failure { errno }
                },
                Err(InitError::Disconnected) => outcome is Failed,
            },
    {
        match outcome {
            Outcome::Answered(response) => match response.result {
                FsResult::Success { .. } => Ok(HostFs { inodes: InodeTable::new(), conn }),
                FsResult::Failure { errno } => Err(InitError::Rejected { errno }),
            },
            Outcome::Failed => Err(InitError::Disconnected),
        }
    }

    /// Whether there is a number left for one more request.
    pub fn can_call(&self) -> (answer: bool)
        ensures
            answer == self@.can_call(),
    {
        self.conn.next_id() < u64::MAX
    }

    /// Whether there is a number left for a request on `ino`, if it comes to one.
    pub fn may_call(&self, ino: u64) -> (answer: bool)
        ensures
            answer == self@.may_call(ino),
    {
        self.inodes.get_path(ino).is_none() || self.can_call()
    }

    /// Whether there is a number left for a request that moves an entry of `parent` to
    /// `newparent`, if it comes to one.
    pub fn may_rename(&self, parent: u64, newparent: u64) -> (answer: bool)
        ensures
            answer == self@.may_rename(parent, newparent),
    {
        self.inodes.get_path(newparent).is_none() || self.may_call(parent)
    }

    /// Whether `len` bytes can be written to `ino`, if it is known: there is a number left for
    /// the request, and the bytes are not too many for one text.
    pub fn may_write(&self, ino: u64, len: usize) -> (answer: bool)
        ensures
            answer == (self@.may_call(ino) && (self@.inodes.path_of(ino) is Some ==> encodable(
                len as nat,
            ))),
    {
        self.inodes.get_path(ino).is_none() || (self.can_call() && is_encodable(len))
    }

    fn may_insert(&self, path: &str) -> (answer: bool)
        ensures
            answer == self@.may_insert(path@),
    {
        self.inodes.contains(path) || self.inodes.next_ino() < u64::MAX
    }

    /// Whether there is an inode number for the entry `name` of the directory `parent`, if that
    /// is known.
    pub fn may_add(&self, parent: u64, name: &str) -> (answer: bool)
        ensures
            answer == self@.may_add(parent, name@),
    {
        match self.inodes.child_path(parent, name) {
            Some(path) => self.may_insert(path.as_str()),
            None => true,
        }
    }

    /// Whether there are numbers left for what going on with `then` from `outcome` takes.
    pub fn may_resume(&self, then: &Pending, outcome: &Outcome) -> (answer: bool)
        ensures
            answer == self@.may_resume(then@, outcome@),
    {
        match outcome {
            Outcome::Answered(FsResponse { result: FsResult::Success { body }, .. }) => match then {
                Pending::Lookup { path } => match body {
                    FsBody::Attr(_) => self.may_insert(path.as_str()),
                    _ => true,
                },
                Pending::SetattrTruncate { .. }
                | Pending::SetattrChmod { .. }
                | Pending::Symlink { .. } => self.can_call(),
                _ => true,
            },
            _ => true,
        }
    }

    /// Whether there is an inode number for the next entry of `listing`, if one is left that
    /// takes one.
    pub fn may_list(&self, listing: &Listing) -> (answer: bool)
        ensures
            answer == self@.may_list(listing@),
    {
        if listing.next >= listing.entries.len() {
            return true;
        }
        proof {
            lemma_dot_names();
        }
        let name = &listing.entries[listing.next].name;
        if *name == ".".to_owned() || *name == "..".to_owned() {
            return true;
        }
        self.may_insert(join(listing.path.as_str(), name.as_str()).as_str())
    }

    fn path_of(&self, ino: u64) -> (path: Option<String>)
        ensures
            match path {
                Some(text) => self@.inodes.path_of(ino) == Some(text@),
                None => self@.inodes.path_of(ino) is None,
            },
    {
        match self.inodes.get_path(ino) {
            Some(path) => Some(path.to_owned()),
            None => None,
        }
    }

    fn call(&mut self, op: FsOp, then: Pending) -> (step: Step)
        requires
            old(self)@.can_call(),
        ensures
            (final(self)@, step@) == old(self)@.call(op@, then@),
    {
        Step::Call { request: self.conn.rpc(op), then }
    }

    /// Find the entry `name` of the directory `parent`.
    pub fn lookup(&mut self, parent: u64, name: &str) -> (step: Step)
        requires
            old(self).wf(),
            old(self)@.may_call(parent),
        ensures
            final(self).wf(),
            (final(self)@, step@) == old(self)@.lookup(parent, name@),
    {
        match self.inodes.child_path(parent, name) {
            Some(path) => self.call(FsOp::Stat { path: path.clone() }, Pending::Lookup { path }),
            None => Step::Done(Reply::Error(ENOENT)),
        }
    }

    /// Get the attributes of `ino`.
    pub fn getattr(&mut self, ino: u64) -> (step: Step)
        requires
            old(self).wf(),
            old(self)@.may_call(ino),
        ensures
            final(self).wf(),
            (final(self)@, step@) == old(self)@.getattr(ino),
    {
        match self.path_of(ino) {
            Some(path) => self.call(FsOp::Stat { path }, Pending::Getattr { ino }),
            None => Step::Done(Reply::Error(ENOENT)),
        }
    }

    /// List the directory `ino`, without the entries before `offset`.
    pub fn readdir(&mut self, ino: u64, offset: i64) -> (step: Step)
        requires
            old(self).wf(),
            old(self)@.may_call(ino),
        ensures
            final(self).wf(),
            (final(self)@, step@) == old(self)@.readdir(ino, offset),
    {
        match self.path_of(ino) {
            Some(path) => self.call(
                FsOp::Readdir { path: path.clone() },
                Pending::Readdir { ino, path, offset },
            ),
            None => Step::Done(Reply::Error(ENOENT)),
        }
    }

    /// Open the file `ino`.
    pub fn open(&mut self, ino: u64, flags: i32) -> (step: Step)
        requires
            old(self).wf(),
            old(self)@.may_call(ino),
        ensures
            final(self).wf(),
            (final(self)@, step@) == old(self)@.open(ino, flags),
    {
        match self.path_of(ino) {
            Some(path) => self.call(FsOp::Open { path, flags: flags as u32 }, Pending::Open),
            None => Step::Done(Reply::Error(ENOENT)),
        }
    }

    /// Read `size` bytes of the file `ino` from `offset` on.
    pub fn read(&mut self, ino: u64, offset: i64, size: u32) -> (step: Step)
        requires
            old(self).wf(),
            old(self)@.may_call(ino),
        ensures
            final(self).wf(),
            (final(self)@, step@) == old(self)@.read(ino, offset, size),
    {
        match self.path_of(ino) {
            Some(path) => self.call(
                FsOp::Read { path, offset: offset as u64, size },
                Pending::Read,
            ),
            None => Step::Done(Reply::Error(ENOENT)),
        }
    }

    /// Write `data` to the file `ino` from `offset` on. The host gets it as base64 text, which
    /// stands for exactly these bytes.
    pub fn write(&mut self, ino: u64, offset: i64, data: &[u8]) -> (step: Step)
        requires
            old(self).wf(),
            old(self)@.may_call(ino),
            old(self)@.inodes.path_of(ino) is Some ==> encodable(data@.len()),
        ensures
            final(self).wf(),
            (final(self)@, step@) == old(self)@.write(ino, offset, base64_text(data@)),
            old(self)@.inodes.path_of(ino) is Some ==> base64_bytes(base64_text(data@)) == Some(
                data@,
            ),
            step@ matches Step::Call { request, .. } ==> {
                &&& request.op matches FsOp::Write { data: text, .. }
                &&& base64_bytes(text) == Some(data@)
            },
    {
        if self.inodes.get_path(ino).is_none() {
            return Step::Done(Reply::Error(ENOENT));
        }
        self.write_text(ino, offset, standard_encode(data))
    }

    /// Write what the base64 text `data` stands for to the file `ino` from `offset` on.
    pub fn write_text(&mut self, ino: u64, offset: i64, data: String) -> (step: Step)
        requires
            old(self).wf(),
            old(self)@.may_call(ino),
        ensures
            final(self).wf(),
            (final(self)@, step@) == old(self)@.write(ino, offset, data@),
    {
        match self.path_of(ino) {
            Some(path) => self.call(
                FsOp::Write { path, offset: offset as u64, data },
                Pending::Write,
            ),
            None => Step::Done(Reply::Error(ENOENT)),
        }
    }

    /// Make and open the file `name` in the directory `parent`.
    pub fn create(&mut self, parent: u64, name: &str, mode: u32, flags: i32) -> (step: Step)
        requires
            old(self).wf(),
            old(self)@.may_call(parent),
            old(self)@.may_add(parent, name@),
        ensures
            final(self).wf(),
            (final(self)@, step@) == old(self)@.create(parent, name@, mode, flags),
    {
        match self.inodes.child_path(parent, name) {
            Some(path) => {
                let ino = self.inodes.get_or_insert(path.as_str());
                self.call(
                    FsOp::Create { path, mode, flags: flags as u32 },
                    Pending::Create { ino },
                )
            },
            None => Step::Done(Reply::Error(ENOENT)),
        }
    }

    /// Remove the file `name` from the directory `parent`.
    pub fn unlink(&mut self, parent: u64, name: &str) -> (step: Step)
        requires
            old(self).wf(),
            old(self)@.may_call(parent),
        ensures
            final(self).wf(),
            (final(self)@, step@) == old(self)@.unlink(parent, name@),
    {
        match self.inodes.child_path(parent, name) {
            Some(path) => self.call(FsOp::Unlink { path }, Pending::Unlink),
            None => Step::Done(Reply::Error(ENOENT)),
        }
    }

    /// Make the directory `name` in the directory `parent`.
    pub fn mkdir(&mut self, parent: u64, name: &str, mode: u32) -> (step: Step)
        requires
            old(self).wf(),
            old(self)@.may_call(parent),
            old(self)@.may_add(parent, name@),
        ensures
            final(self).wf(),
            (final(self)@, step@) == old(self)@.mkdir(parent, name@, mode),
    {
        match self.inodes.child_path(parent, name) {
            Some(path) => {
                let ino = self.inodes.get_or_insert(path.as_str());
                self.call(FsOp::Mkdir { path, mode }, Pending::Mkdir { ino })
            },
            None => Step::Done(Reply::Error(ENOENT)),
        }
    }

    /// Remove the directory `name` from the directory `parent`.
    pub fn rmdir(&mut self, parent: u64, name: &str) -> (step: Step)
        requires
            old(self).wf(),
            old(self)@.may_call(parent),
        ensures
            final(self).wf(),
            (final(self)@, step@) == old(self)@.rmdir(parent, name@),
    {
        match self.inodes.child_path(parent, name) {
            Some(path) => self.call(FsOp::Rmdir { path }, Pending::Rmdir),
            None => Step::Done(Reply::Error(ENOENT)),
        }
    }

    /// Move the entry `name` of the directory `parent` to the name `newname` in the directory
    /// `newparent`.
    pub fn rename(&mut self, parent: u64, name: &str, newparent: u64, newname: &str) -> (step: Step)
        requires
            old(self).wf(),
            old(self)@.may_rename(parent, newparent),
        ensures
            final(self).wf(),
            (final(self)@, step@) == old(self)@.rename(parent, name@, newparent, newname@),
    {
        let from = self.inodes.child_path(parent, name);
        let to = self.inodes.child_path(newparent, newname);
        match (from, to) {
            (Some(from), Some(to)) => self.call(FsOp::Rename { from, to }, Pending::Rename),
            _ => Step::Done(Reply::Error(ENOENT)),
        }
    }

    fn setattr_stat(&mut self, ino: u64, path: String) -> (step: Step)
        requires
            old(self)@.can_call(),
        ensures
            (final(self)@, step@) == old(self)@.setattr_stat(ino, path@),
    {
        self.call(FsOp::Stat { path }, Pending::SetattrStat { ino })
    }

    fn setattr_mode(&mut self, ino: u64, path: String, mode: Option<u32>) -> (step: Step)
        requires
            old(self)@.can_call(),
        ensures
            (final(self)@, step@) == old(self)@.setattr_mode(ino, path@, mode),
    {
        match mode {
            Some(mode) => self.call(
                FsOp::Chmod { path: path.clone(), mode },
                Pending::SetattrChmod { ino, path },
            ),
            None => self.setattr_stat(ino, path),
        }
    }

    /// Change the size or the mode of the file `ino`, or both, or neither, and get its
    /// attributes.
    pub fn setattr(&mut self, ino: u64, mode: Option<u32>, size: Option<u64>) -> (step: Step)
        requires
            old(self).wf(),
            old(self)@.may_call(ino),
        ensures
            final(self).wf(),
            (final(self)@, step@) == old(self)@.setattr(ino, mode, size),
    {
        match self.path_of(ino) {
            Some(path) => match size {
                Some(size) => self.call(
                    FsOp::Truncate { path: path.clone(), size },
                    Pending::SetattrTruncate { ino, path, mode },
                ),
                None => self.setattr_mode(ino, path, mode),
            },
            None => Step::Done(Reply::Error(ENOENT)),
        }
    }

    /// Get the target of the symbolic link `ino`.
    pub fn readlink(&mut self, ino: u64) -> (step: Step)
        requires
            old(self).wf(),
            old(self)@.may_call(ino),
        ensures
            final(self).wf(),
            (final(self)@, step@) == old(self)@.readlink(ino),
    {
        match self.path_of(ino) {
            Some(path) => self.call(FsOp::Readlink { path }, Pending::Readlink),
            None => Step::Done(Reply::Error(ENOENT)),
        }
    }

    /// Make the symbolic link `link_name` to `target` in the directory `parent`.
    pub fn symlink(&mut self, parent: u64, link_name: &str, target: &str) -> (step: Step)
        requires
            old(self).wf(),
            old(self)@.may_call(parent),
            old(self)@.may_add(parent, link_name@),
        ensures
            final(self).wf(),
            (final(self)@, step@) == old(self)@.symlink(parent, link_name@, target@),
    {
        match self.inodes.child_path(parent, link_name) {
            Some(linkpath) => {
                let ino = self.inodes.get_or_insert(linkpath.as_str());
                self.call(
                    FsOp::Symlink { target: target.to_owned(), linkpath: linkpath.clone() },
                    Pending::Symlink { ino, linkpath },
                )
            },
            None => Step::Done(Reply::Error(ENOENT)),
        }
    }

    /// Describe the file system that holds `ino`.
    pub fn statfs(&mut self, ino: u64) -> (step: Step)
        requires
            old(self).wf(),
            old(self)@.can_call(),
        ensures
            final(self).wf(),
            (final(self)@, step@) == old(self)@.statfs(ino),
    {
        let path = match self.path_of(ino) {
            Some(path) => path,
            None => String::new(),
        };
        self.call(FsOp::Statfs { path }, Pending::Statfs)
    }

    /// Flush the file `ino`.
    pub fn flush(&mut self, ino: u64) -> (step: Step)
        requires
            old(self).wf(),
            old(self)@.may_call(ino),
        ensures
            final(self).wf(),
            (final(self)@, step@) == old(self)@.flush(ino),
    {
        match self.path_of(ino) {
            Some(path) => self.call(FsOp::Flush { path }, Pending::Flush),
            None => Step::Done(Reply::Empty),
        }
    }

    /// Close the file `ino`.
    pub fn release(&mut self, ino: u64) -> (step: Step)
        requires
            old(self).wf(),
            old(self)@.may_call(ino),
        ensures
            final(self).wf(),
            (final(self)@, step@) == old(self)@.release(ino),
    {
        match self.path_of(ino) {
            Some(path) => self.call(FsOp::Release { path }, Pending::Release),
            None => Step::Done(Reply::Empty),
        }
    }

    /// Open the directory `ino`. The host is not asked.
    pub fn opendir(&self, ino: u64) -> (reply: Reply)
        ensures
            reply@ == self@.opendir(ino),
    {
        if self.inodes.get_path(ino).is_some() {
            Reply::Opened { fh: 0, open_flags: 0 }
        } else {
            Reply::Error(ENOENT)
        }
    }

    /// Close a directory. The host is not asked.
    pub fn releasedir(&self) -> (reply: Reply)
        ensures
            reply@ == Reply::<Seq<u8>>::Empty,
    {
        Reply::Empty
    }

    /// Go on with the operation `then` from what came of its call.
    pub fn resume(&mut self, then: Pending, outcome: Outcome) -> (step: Step)
        requires
            old(self).wf(),
            old(self)@.may_resume(then@, outcome@),
        ensures
            final(self).wf(),
            (final(self)@, step@) == old(self)@.resume(then@, outcome@),
    {
        let failed: Step = Step::Done(Reply::Error(fault_of(&outcome)));
        let body = body_of(outcome);
        match then {
            Pending::Lookup { path } => match body {
                Some(FsBody::Attr(attr)) => {
                    let ino = self.inodes.get_or_insert(path.as_str());
                    Step::Done(entry(ino, &attr))
                },
                _ => failed,
            },
            Pending::Getattr { ino } | Pending::SetattrStat { ino } => match body {
                Some(FsBody::Attr(attr)) => Step::Done(
                    Reply::Attr { ttl_secs: TTL_SECS, attr: proto_attr_to_fuse(ino, &attr) },
                ),
                _ => failed,
            },
            Pending::Create { ino } => match body {
                Some(FsBody::Attr(attr)) => Step::Done(
                    Reply::Created {
                        ttl_secs: TTL_SECS,
                        attr: proto_attr_to_fuse(ino, &attr),
                        generation: 0,
                        fh: 0,
                        open_flags: 0,
                    },
                ),
                _ => failed,
            },
            Pending::Mkdir { ino } => match body {
                Some(FsBody::Attr(attr)) => Step::Done(entry(ino, &attr)),
                _ => failed,
            },
            Pending::Readdir { ino, path, offset } => match body {
                Some(FsBody::Dir { entries }) => Step::List(
                    Listing { ino, path, entries, next: offset as usize },
                ),
                _ => failed,
            },
            Pending::Open => match body {
                Some(_) => Step::Done(Reply::Opened { fh: 0, open_flags: 0 }),
                None => failed,
            },
            Pending::Read => match body {
                Some(FsBody::Data { data }) => Step::Done(read_reply(decode(data.as_str()))),
                _ => failed,
            },
            Pending::Write => match body {
                Some(FsBody::Written { size }) => Step::Done(Reply::Written(size)),
                _ => failed,
            },
            Pending::Unlink | Pending::Rmdir | Pending::Rename => match body {
                Some(_) => Step::Done(Reply::Empty),
                None => failed,
            },
            Pending::SetattrTruncate { ino, path, mode } => match body {
                Some(_) => self.setattr_mode(ino, path, mode),
                None => failed,
            },
            Pending::SetattrChmod { ino, path } => match body {
                Some(_) => self.setattr_stat(ino, path),
                None => failed,
            },
            Pending::Readlink => match body {
                Some(FsBody::Link { target }) => Step::Done(
                    Reply::Data(slice_to_vec(target.as_str().as_bytes())),
                ),
                _ => failed,
            },
            Pending::Symlink { ino, linkpath } => match body {
                Some(_) => self.call(
                    FsOp::Stat { path: linkpath },
                    Pending::SymlinkStat { ino },
                ),
                None => failed,
            },
            Pending::SymlinkStat { ino } => match body {
                Some(FsBody::Attr(attr)) => Step::Done(entry(ino, &attr)),
                _ => Step::Done(Reply::Error(EIO)),
            },
            Pending::Statfs => match body {
                Some(FsBody::StatVfs(stat)) => Step::Done(Reply::Statfs(statfs_reply(&stat))),
                _ => Step::Done(Reply::Error(EIO)),
            },
            Pending::Flush | Pending::Release => Step::Done(Reply::Empty),
        }
    }

    /// Hand out the next entry of `listing`, if one is left. The kernel may have no room for it;
    /// the entry has its inode number even so.
    pub fn next_entry(&mut self, listing: &mut Listing) -> (item: Option<DirItem>)
        requires
            old(self).wf(),
            old(self)@.may_list(old(listing)@),
        ensures
            final(self).wf(),
            match item {
                Some(item) => {
                    &&& old(listing)@.next < old(listing)@.entries.len()
                    &&& item@ == old(self)@.entry_item(old(listing)@)
                    &&& final(self)@ == old(self)@.after_entry(old(listing)@)
                    &&& final(listing)@ == advanced(old(listing)@)
                    &&& final(listing)@ == (Listing {
                        next: (old(listing)@.next + 1) as usize,
                        ..old(listing)@
                    })
                },
                None => {
                    &&& old(listing)@.next >= old(listing)@.entries.len()
                    &&& final(self)@ == old(self)@
                    &&& final(listing)@ == old(listing)@
                },
            },
    {
        if listing.next >= listing.entries.len() {
            return None;
        }
        proof {
            lemma_dot_names();
        }
        let index = listing.next;
        let entry = &listing.entries[index];
        let ino = if entry.name == ".".to_owned() {
            listing.ino
        } else if entry.name == "..".to_owned() {
            ROOT_INO
        } else {
            let path = join(listing.path.as_str(), entry.name.as_str());
            self.inodes.get_or_insert(path.as_str())
        };
        let item = DirItem {
            ino,
            offset: (index + 1) as i64,
            kind: kind_of_entry(entry.file_type),
            name: entry.name.clone(),
        };
        listing.next = index + 1;
        Some(item)
    }

    /// Go on with `listing` once the kernel has been handed an entry. It had room for the entry,
    /// and gets the next one, or it was full, and the listing ends there.
    pub fn entry_added(&mut self, listing: Listing, full: bool) -> (step: Step)
        ensures
            (final(self)@, step@) == old(self)@.entry_added(listing@, full),
            full ==> (final(self)@, step@) == old(self)@.done(Reply::Empty),
            !full ==> (final(self)@, step@) == (old(self)@, StepModel::List(listing@)),
    {
        if full {
            Step::Done(Reply::Empty)
        } else {
            Step::List(listing)
        }
    }

    /// What to answer the kernel with once `next_entry` has no entry left.
    pub fn listing_ended(&self) -> (reply: Reply)
        ensures
            reply@ == self@.listing_ended(),
            reply@ == Reply::<Seq<u8>>::Empty,
    {
        Reply::Empty
    }
}

proof fn lemma_dot_names()
    ensures
        "."@ == seq!['.'],
        ".."@ == seq!['.', '.'],
{
    reveal_strlit(".");
    reveal_strlit("..");
}

/// What a successful call brought, or none if the call did not succeed.
fn body_of(outcome: Outcome) -> (body: Option<FsBody>)
    ensures
        match body {
            Some(body) => success(outcome@) == Some(body@),
            None => success(outcome@) is None,
        },
{
    match outcome {
        Outcome::Answered(FsResponse { result: FsResult::Success { body }, .. }) => Some(body),
        _ => None,
    }
}

/// The error that a call which brought nothing of use is answered with.
pub fn fault_of(outcome: &Outcome) -> (errno: i32)
    ensures
        errno == fault(outcome@),
{
    match outcome {
        Outcome::Answered(FsResponse { result: FsResult::Failure { errno }, .. }) => *errno,
        _ => EIO,
    }
}

fn entry(ino: u64, attr: &FileAttr) -> (reply: Reply)
    ensures
        reply@ == entry_reply(ino, *attr),
{
    Reply::Entry { ttl_secs: TTL_SECS, attr: proto_attr_to_fuse(ino, attr), generation: 0 }
}

/// What a read that brought `decoded` is answered with.
pub fn read_reply(decoded: Option<Vec<u8>>) -> (reply: Reply)
    ensures
        decoded matches Some(bytes) ==> reply@ == data_reply(Some(bytes@)),
        decoded is None ==> reply@ == data_reply(None),
{
    match decoded {
        Some(bytes) => Reply::Data(bytes),
        None => Reply::Error(EIO),
    }
}

/// What the kernel is told of a file system that the host describes by `stat`.
pub fn statfs_reply(stat: &StatVfs) -> (told: StatfsReply)
    ensures
        told == statfs_told(*stat),
{
    StatfsReply {
        blocks: stat.blocks,
        bfree: stat.bfree,
        bavail: stat.bavail,
        files: stat.files,
        ffree: stat.ffree,
        bsize: stat.bsize as u32,
        namelen: stat.namelen,
        frsize: stat.bsize as u32,
    }
}

} // verus!
