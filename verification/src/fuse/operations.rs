//! What each request of the kernel comes to: what the host is asked for it, and what the kernel is
//! told once the host has answered.

use super::attr::{fuse_attr, law_perm_keeps_bits, FileKind, FuseFileAttr};
use super::codec::{base64_bytes, base64_text};
use super::inode::{join_path, law_numbering, InodeModel};
use super::model::{
    advanced, fault, init_refusal, is_dot, opening, DirItem, HostModel, Listing, Pending, Reply,
    StatfsReply, Step, StepModel, Transition,
};
use super::protocol::{
    Entries, FileAttr, FsBody, FsOp, FsRequest, FsResponse, FsResult, Outcome, StatVfs, Text,
};
use super::session::InitError;
use vstd::prelude::*;
use vstd::utf8::encode_utf8;

verus! {

/// The host's answer that it has done what it was asked.
pub open spec fn granted(id: u64, body: FsBody<Text, Entries>) -> Outcome<Text, Entries> {
    Outcome::Answered(FsResponse { id, result: FsResult::Success { body } })
}

/// The host's answer that it could not do what it was asked.
pub open spec fn refused(id: u64, errno: i32) -> Outcome<Text, Entries> {
    Outcome::Answered(FsResponse { id, result: FsResult::Failure { errno } })
}

/// The step `made` in the state `fs` asks the host for `op`, under the next number.
pub open spec fn asks(fs: HostModel, made: Transition, op: FsOp<Text>) -> bool {
    &&& made.1 matches Step::Call { request, .. } && request.id == fs.next_id && request.op == op
    &&& fs.next_id < u64::MAX ==> made.0.next_id == fs.next_id + 1
}

/// What follows in the state `later` once `outcome` has come of the call that `made` is.
pub open spec fn answered(
    later: HostModel,
    made: Transition,
    outcome: Outcome<Text, Entries>,
) -> Transition {
    later.resume(made.1->then, outcome)
}

/// The kernel is told `reply` once `outcome` has come of the call that `made` is, and nothing
/// changes.
pub open spec fn tells(
    later: HostModel,
    made: Transition,
    outcome: Outcome<Text, Entries>,
    reply: Reply<Seq<u8>>,
) -> bool {
    answered(later, made, outcome) == (later, StepModel::Done(reply))
}

/// The kernel gets the host's own error, and an input/output error if there is no answer.
pub open spec fn passes_faults_on(
    later: HostModel,
    made: Transition,
    id: u64,
    errno: i32,
) -> bool {
    &&& tells(later, made, refused(id, errno), Reply::Error(errno))
    &&& tells(later, made, Outcome::Failed, Reply::Error(5))
}

/// A time before the epoch is moved up to it, and any other stays.
pub open spec fn is_time(told: u64, secs: i64) -> bool {
    (secs >= 0 ==> told == secs) && (secs < 0 ==> told == 0)
}

/// The kind of file that the type part of a mode tells.
pub open spec fn is_kind(told: FileKind, file_type: u32) -> bool {
    &&& told == FileKind::Directory <==> file_type == 0o040000
    &&& told == FileKind::Symlink <==> file_type == 0o120000
}

/// What the kernel is told of a file says of it what the host says, under the number `ino`.
pub open spec fn describes(told: FuseFileAttr, ino: u64, attr: FileAttr) -> bool {
    &&& told.ino == ino
    &&& told.size == attr.size
    &&& told.blocks == attr.blocks
    &&& is_time(told.atime_secs, attr.atime)
    &&& is_time(told.mtime_secs, attr.mtime)
    &&& is_time(told.ctime_secs, attr.ctime)
    &&& told.crtime_secs == 0
    &&& is_kind(told.kind, attr.mode & 0o170000)
    &&& told.perm as u32 == attr.mode & 0o7777
    &&& told.nlink == attr.nlink
    &&& told.uid == attr.uid
    &&& told.gid == attr.gid
    &&& told.rdev == 0
    &&& told.blksize == 512
    &&& told.flags == 0
}

/// The kernel is told of an entry: its attributes, under the number `ino`, for one second.
pub open spec fn entry_told(step: StepModel, ino: u64, attr: FileAttr) -> bool {
    step matches Step::Done(Reply::Entry { ttl_secs, attr: told, generation }) && ttl_secs == 1
        && generation == 0 && describes(told, ino, attr)
}

/// The kernel is told the attributes of the file `ino`, for one second.
pub open spec fn attr_told(step: StepModel, ino: u64, attr: FileAttr) -> bool {
    step matches Step::Done(Reply::Attr { ttl_secs, attr: told }) && ttl_secs == 1 && describes(
        told,
        ino,
        attr,
    )
}

/// The kernel is told of a new file, which is open: its attributes, under the number `ino`.
pub open spec fn created_told(step: StepModel, ino: u64, attr: FileAttr) -> bool {
    step matches Step::Done(
        Reply::Created { ttl_secs, attr: told, generation, fh, open_flags },
    ) && ttl_secs == 1 && generation == 0 && fh == 0 && open_flags == 0 && describes(
        told,
        ino,
        attr,
    )
}

/// `after` gives `path` the number `ino` and is otherwise `before`. A path that had a number keeps
/// it, and a new one gets the next.
pub open spec fn numbers(
    before: InodeModel,
    after: InodeModel,
    path: Text,
    ino: u64,
) -> bool {
    &&& after.paths == before.paths.insert(ino, path)
    &&& after.inos == before.inos.insert(path, ino)
    &&& if before.inos.contains_key(path) {
        ino == before.inos[path] && after.next_ino == before.next_ino
    } else {
        ino == before.next_ino && after.next_ino == before.next_ino + 1
    }
}

/// What the kernel is told of a file is what the host knows of it.
pub proof fn law_attributes(ino: u64, attr: FileAttr)
    ensures
        describes(fuse_attr(ino, attr), ino, attr),
{
    law_perm_keeps_bits(attr.mode);
}

/// To look an entry up is to ask the host for the attributes of its path. If there is such a
/// file, its path has a number from then on, and the kernel is told of the file under it.
pub proof fn law_lookup(
    fs: HostModel,
    parent: u64,
    name: Text,
    later: HostModel,
    id: u64,
    attr: FileAttr,
    body: FsBody<Text, Entries>,
    errno: i32,
)
    requires
        fs.inodes.paths.contains_key(parent),
        later.wf(),
        later.may_insert(join_path(fs.inodes.paths[parent], name)),
    ensures
        ({
            let path = join_path(fs.inodes.paths[parent], name);
            let made = fs.lookup(parent, name);
            let found = answered(later, made, granted(id, FsBody::Attr(attr)));
            &&& asks(fs, made, FsOp::Stat { path })
            &&& made.0.inodes == fs.inodes
            &&& exists|ino: u64| #[trigger]
                numbers(later.inodes, found.0.inodes, path, ino) && entry_told(found.1, ino, attr)
            &&& found.0.next_id == later.next_id
            &&& body !is Attr ==> tells(later, made, granted(id, body), Reply::Error(5))
            &&& passes_faults_on(later, made, id, errno)
        }),
{
    let path = join_path(fs.inodes.paths[parent], name);
    let made = fs.lookup(parent, name);
    let found = answered(later, made, granted(id, FsBody::Attr(attr)));
    let ino = later.inodes.ino_for(path);
    law_numbering(later.inodes, path);
    law_attributes(ino, attr);
    assert(numbers(later.inodes, found.0.inodes, path, ino) && entry_told(found.1, ino, attr));
}

/// The attributes of a file are those that the host tells of its path.
pub proof fn law_getattr(
    fs: HostModel,
    ino: u64,
    later: HostModel,
    id: u64,
    attr: FileAttr,
    body: FsBody<Text, Entries>,
    errno: i32,
)
    requires
        fs.inodes.paths.contains_key(ino),
    ensures
        ({
            let made = fs.getattr(ino);
            let told = answered(later, made, granted(id, FsBody::Attr(attr)));
            &&& asks(fs, made, FsOp::Stat { path: fs.inodes.paths[ino] })
            &&& made.0.inodes == fs.inodes
            &&& told.0 == later
            &&& attr_told(told.1, ino, attr)
            &&& body !is Attr ==> tells(later, made, granted(id, body), Reply::Error(5))
            &&& passes_faults_on(later, made, id, errno)
        }),
{
    law_attributes(ino, attr);
}

/// A directory is listed from what the host tells of its path, starting at the offset.
pub proof fn law_readdir(
    fs: HostModel,
    ino: u64,
    offset: i64,
    later: HostModel,
    id: u64,
    entries: Entries,
    body: FsBody<Text, Entries>,
    errno: i32,
)
    requires
        fs.inodes.paths.contains_key(ino),
    ensures
        ({
            let made = fs.readdir(ino, offset);
            let path = fs.inodes.paths[ino];
            let next = offset as usize;
            &&& asks(fs, made, FsOp::Readdir { path })
            &&& made.0.inodes == fs.inodes
            &&& answered(later, made, granted(id, FsBody::Dir { entries })) == (
                later,
                StepModel::List(Listing { ino, path, entries, next }),
            )
            &&& body !is Dir ==> tells(later, made, granted(id, body), Reply::Error(5))
            &&& passes_faults_on(later, made, id, errno)
        }),
{
}

/// One entry is handed out at a time. The next entry of a listing is told with its own name and
/// kind, with the offset behind it, and under the number of its path. A directory is its own first
/// dot entry, and the root is the second one of every directory; neither takes a number.
pub proof fn law_next_entry(fs: HostModel, listing: Listing<Text, Entries>)
    requires
        fs.wf(),
        listing.next < listing.entries.len() <= isize::MAX,
        fs.may_list(listing),
    ensures
        ({
            let entry = listing.entries[listing.next as int];
            let item = fs.entry_item(listing);
            let after = fs.after_entry(listing);
            let rest = advanced(listing);
            &&& rest.next == listing.next + 1
            &&& rest.ino == listing.ino
            &&& rest.path == listing.path
            &&& rest.entries == listing.entries
            &&& item.name == entry.name
            &&& item.offset == listing.next + 1
            &&& is_kind(item.kind, entry.file_type)
            &&& after.next_id == fs.next_id
            &&& entry.name == seq!['.'] ==> item.ino == listing.ino && after == fs
            &&& entry.name == seq!['.', '.'] ==> item.ino == 1 && after == fs
            &&& entry.name != seq!['.'] && entry.name != seq!['.', '.'] ==> numbers(
                fs.inodes,
                after.inodes,
                join_path(listing.path, entry.name),
                item.ino,
            )
        }),
{
    let name = listing.entries[listing.next as int].name;
    assert(seq!['.', '.'].len() != seq!['.'].len());
    if !is_dot(name) {
        law_numbering(fs.inodes, join_path(listing.path, name));
    }
}

/// A listing goes on as long as the kernel has room, and ends with success where it has none and
/// where no entry is left.
pub proof fn law_listing_goes_on(fs: HostModel, listing: Listing<Text, Entries>)
    ensures
        fs.entry_added(listing, false) == (fs, StepModel::List(listing)),
        fs.entry_added(listing, true) == (fs, StepModel::Done(Reply::Empty)),
        fs.listing_ended() == Reply::<Seq<u8>>::Empty,
{
}

/// A file is opened at the host, with the flags that the kernel gives. Any answer but an error
/// opens it.
pub proof fn law_open(
    fs: HostModel,
    ino: u64,
    flags: i32,
    later: HostModel,
    id: u64,
    body: FsBody<Text, Entries>,
    errno: i32,
)
    requires
        fs.inodes.paths.contains_key(ino),
    ensures
        ({
            let made = fs.open(ino, flags);
            let path = fs.inodes.paths[ino];
            &&& asks(fs, made, FsOp::Open { path, flags: flags as u32 })
            &&& made.0.inodes == fs.inodes
            &&& tells(later, made, granted(id, body), Reply::Opened { fh: 0, open_flags: 0 })
            &&& passes_faults_on(later, made, id, errno)
        }),
{
}

/// To read is to ask the host for exactly the bytes that the kernel asks for, of the same file,
/// from the same offset on and as many. The kernel gets what the answer stands for.
pub proof fn law_read(
    fs: HostModel,
    ino: u64,
    offset: i64,
    size: u32,
    later: HostModel,
    id: u64,
    data: Text,
    body: FsBody<Text, Entries>,
    errno: i32,
)
    requires
        fs.inodes.paths.contains_key(ino),
    ensures
        ({
            let made = fs.read(ino, offset, size);
            let path = fs.inodes.paths[ino];
            let brought = granted(id, FsBody::Data { data });
            &&& asks(fs, made, FsOp::Read { path, offset: offset as u64, size })
            &&& made.0.inodes == fs.inodes
            &&& base64_bytes(data) matches Some(bytes) ==> tells(
                later,
                made,
                brought,
                Reply::Data(bytes),
            )
            &&& base64_bytes(data) is None ==> tells(later, made, brought, Reply::Error(5))
            &&& body !is Data ==> tells(later, made, granted(id, body), Reply::Error(5))
            &&& passes_faults_on(later, made, id, errno)
        }),
{
}

/// To write is to hand the host the text of exactly the bytes that the kernel hands over, for the
/// same file and from the same offset on. The kernel is told how many the host has written.
pub proof fn law_write(
    fs: HostModel,
    ino: u64,
    offset: i64,
    bytes: Seq<u8>,
    later: HostModel,
    id: u64,
    size: u32,
    body: FsBody<Text, Entries>,
    errno: i32,
)
    requires
        fs.inodes.paths.contains_key(ino),
    ensures
        ({
            let data = base64_text(bytes);
            let made = fs.write(ino, offset, data);
            let path = fs.inodes.paths[ino];
            let written = granted(id, FsBody::Written { size });
            &&& asks(fs, made, FsOp::Write { path, offset: offset as u64, data })
            &&& made.0.inodes == fs.inodes
            &&& tells(later, made, written, Reply::Written(size))
            &&& body !is Written ==> tells(later, made, granted(id, body), Reply::Error(5))
            &&& passes_faults_on(later, made, id, errno)
        }),
{
}

/// A new file gets its number at once. The host is asked to make it at its path with the mode and
/// the flags that the kernel gives, and the kernel is told of it under that number.
pub proof fn law_create(
    fs: HostModel,
    parent: u64,
    name: Text,
    mode: u32,
    flags: i32,
    later: HostModel,
    id: u64,
    attr: FileAttr,
    body: FsBody<Text, Entries>,
    errno: i32,
)
    requires
        fs.wf(),
        fs.may_add(parent, name),
        fs.inodes.paths.contains_key(parent),
    ensures
        ({
            let path = join_path(fs.inodes.paths[parent], name);
            let made = fs.create(parent, name, mode, flags);
            let told = answered(later, made, granted(id, FsBody::Attr(attr)));
            &&& asks(fs, made, FsOp::Create { path, mode, flags: flags as u32 })
            &&& exists|ino: u64| #[trigger]
                numbers(fs.inodes, made.0.inodes, path, ino) && created_told(told.1, ino, attr)
            &&& told.0 == later
            &&& body !is Attr ==> tells(later, made, granted(id, body), Reply::Error(5))
            &&& passes_faults_on(later, made, id, errno)
        }),
{
    let path = join_path(fs.inodes.paths[parent], name);
    let made = fs.create(parent, name, mode, flags);
    let told = answered(later, made, granted(id, FsBody::Attr(attr)));
    let ino = fs.inodes.ino_for(path);
    law_numbering(fs.inodes, path);
    law_attributes(ino, attr);
    assert(numbers(fs.inodes, made.0.inodes, path, ino) && created_told(told.1, ino, attr));
}

/// A new directory gets its number at once. The host is asked to make it at its path with the mode
/// that the kernel gives, and the kernel is told of it under that number.
pub proof fn law_mkdir(
    fs: HostModel,
    parent: u64,
    name: Text,
    mode: u32,
    later: HostModel,
    id: u64,
    attr: FileAttr,
    body: FsBody<Text, Entries>,
    errno: i32,
)
    requires
        fs.wf(),
        fs.may_add(parent, name),
        fs.inodes.paths.contains_key(parent),
    ensures
        ({
            let path = join_path(fs.inodes.paths[parent], name);
            let made = fs.mkdir(parent, name, mode);
            let told = answered(later, made, granted(id, FsBody::Attr(attr)));
            &&& asks(fs, made, FsOp::Mkdir { path, mode })
            &&& exists|ino: u64| #[trigger]
                numbers(fs.inodes, made.0.inodes, path, ino) && entry_told(told.1, ino, attr)
            &&& told.0 == later
            &&& body !is Attr ==> tells(later, made, granted(id, body), Reply::Error(5))
            &&& passes_faults_on(later, made, id, errno)
        }),
{
    let path = join_path(fs.inodes.paths[parent], name);
    let made = fs.mkdir(parent, name, mode);
    let told = answered(later, made, granted(id, FsBody::Attr(attr)));
    let ino = fs.inodes.ino_for(path);
    law_numbering(fs.inodes, path);
    law_attributes(ino, attr);
    assert(numbers(fs.inodes, made.0.inodes, path, ino) && entry_told(told.1, ino, attr));
}

/// A new link gets its number at once. The host is asked to make it at its path with the target
/// that the kernel gives, then for its attributes, and the kernel is told of it under that number.
/// Whatever else comes of the second call is an input/output error.
pub proof fn law_symlink(
    fs: HostModel,
    parent: u64,
    name: Text,
    target: Text,
    later: HostModel,
    last: HostModel,
    id: u64,
    attr: FileAttr,
    body: FsBody<Text, Entries>,
    errno: i32,
)
    requires
        fs.wf(),
        fs.may_add(parent, name),
        fs.inodes.paths.contains_key(parent),
    ensures
        ({
            let linkpath = join_path(fs.inodes.paths[parent], name);
            let made = fs.symlink(parent, name, target);
            let second = answered(later, made, granted(id, body));
            let told = answered(last, second, granted(id, FsBody::Attr(attr)));
            &&& asks(fs, made, FsOp::Symlink { target, linkpath })
            &&& passes_faults_on(later, made, id, errno)
            &&& asks(later, second, FsOp::Stat { path: linkpath })
            &&& second.0.inodes == later.inodes
            &&& exists|ino: u64| #[trigger]
                numbers(fs.inodes, made.0.inodes, linkpath, ino) && entry_told(told.1, ino, attr)
            &&& told.0 == last
            &&& body !is Attr ==> tells(last, second, granted(id, body), Reply::Error(5))
            &&& tells(last, second, refused(id, errno), Reply::Error(5))
            &&& tells(last, second, Outcome::Failed, Reply::Error(5))
        }),
{
    let linkpath = join_path(fs.inodes.paths[parent], name);
    let made = fs.symlink(parent, name, target);
    let second = answered(later, made, granted(id, body));
    let told = answered(last, second, granted(id, FsBody::Attr(attr)));
    let ino = fs.inodes.ino_for(linkpath);
    law_numbering(fs.inodes, linkpath);
    law_attributes(ino, attr);
    assert(numbers(fs.inodes, made.0.inodes, linkpath, ino) && entry_told(told.1, ino, attr));
}

/// A file or a directory is removed at the host, at the path of the entry that the kernel names.
/// Any answer but an error is a success.
pub proof fn law_remove(
    fs: HostModel,
    parent: u64,
    name: Text,
    later: HostModel,
    id: u64,
    body: FsBody<Text, Entries>,
    errno: i32,
)
    requires
        fs.inodes.paths.contains_key(parent),
    ensures
        ({
            let path = join_path(fs.inodes.paths[parent], name);
            let unlink = fs.unlink(parent, name);
            let rmdir = fs.rmdir(parent, name);
            &&& asks(fs, unlink, FsOp::Unlink { path })
            &&& unlink.0.inodes == fs.inodes
            &&& tells(later, unlink, granted(id, body), Reply::Empty)
            &&& passes_faults_on(later, unlink, id, errno)
            &&& asks(fs, rmdir, FsOp::Rmdir { path })
            &&& rmdir.0.inodes == fs.inodes
            &&& tells(later, rmdir, granted(id, body), Reply::Empty)
            &&& passes_faults_on(later, rmdir, id, errno)
        }),
{
}

/// To rename is to move, at the host, what is at the path of the old name to the path of the new
/// one, whichever directories they are in.
pub proof fn law_rename(
    fs: HostModel,
    parent: u64,
    name: Text,
    newparent: u64,
    newname: Text,
    later: HostModel,
    id: u64,
    body: FsBody<Text, Entries>,
    errno: i32,
)
    requires
        fs.inodes.paths.contains_key(parent),
        fs.inodes.paths.contains_key(newparent),
    ensures
        ({
            let made = fs.rename(parent, name, newparent, newname);
            let from = join_path(fs.inodes.paths[parent], name);
            let to = join_path(fs.inodes.paths[newparent], newname);
            &&& asks(fs, made, FsOp::Rename { from, to })
            &&& made.0.inodes == fs.inodes
            &&& tells(later, made, granted(id, body), Reply::Empty)
            &&& passes_faults_on(later, made, id, errno)
        }),
{
}

/// What the host is asked, in this order, to change the size and the mode of the file at `path`
/// as far as they are to change, and then to tell its attributes.
pub open spec fn setattr_ops(path: Text, mode: Option<u32>, size: Option<u64>) -> Seq<FsOp<Text>> {
    let resize: Seq<FsOp<Text>> = match size {
        Some(size) => seq![FsOp::Truncate { path, size }],
        None => seq![],
    };
    let chmod: Seq<FsOp<Text>> = match mode {
        Some(mode) => seq![FsOp::Chmod { path, mode }],
        None => seq![],
    };
    resize + chmod + seq![FsOp::Stat { path }]
}

/// The step `made` in the state `fs` asks the host for `ops` one after the other: each only once
/// those before it have succeeded, with whatever answer. What the last one brings are the
/// attributes that the kernel is told of `ino`. A failure of any of them ends it.
pub open spec fn asks_in_turn(
    fs: HostModel,
    made: Transition,
    ops: Seq<FsOp<Text>>,
    ino: u64,
    id: u64,
    attr: FileAttr,
    body: FsBody<Text, Entries>,
    errno: i32,
) -> bool
    decreases ops.len(),
{
    if ops.len() == 0 {
        false
    } else {
        let later = made.0;
        &&& asks(fs, made, ops[0])
        &&& later.inodes == fs.inodes
        &&& passes_faults_on(later, made, id, errno)
        &&& if ops.len() == 1 {
            let told = answered(later, made, granted(id, FsBody::Attr(attr)));
            &&& told.0 == later
            &&& attr_told(told.1, ino, attr)
            &&& body !is Attr ==> tells(later, made, granted(id, body), Reply::Error(5))
        } else {
            let next = answered(later, made, granted(id, body));
            asks_in_turn(later, next, ops.drop_first(), ino, id, attr, body, errno)
        }
    }
}

/// A change of attributes changes the size if one is given, then the mode if one is given, and
/// then tells the attributes. Each is asked of the host for the path of the file, and nothing else
/// is.
pub proof fn law_setattr(
    fs: HostModel,
    ino: u64,
    mode: Option<u32>,
    size: Option<u64>,
    id: u64,
    attr: FileAttr,
    body: FsBody<Text, Entries>,
    errno: i32,
)
    requires
        fs.inodes.paths.contains_key(ino),
    ensures
        asks_in_turn(
            fs,
            fs.setattr(ino, mode, size),
            setattr_ops(fs.inodes.paths[ino], mode, size),
            ino,
            id,
            attr,
            body,
            errno,
        ),
{
    law_attributes(ino, attr);
    reveal_with_fuel(asks_in_turn, 4);
    let ops = setattr_ops(fs.inodes.paths[ino], mode, size);
    assert(ops.drop_first().drop_first().len() == ops.len() - 2 || ops.len() < 2);
}

/// The first thing that a change of attributes asks of the host is the first change that it is
/// to make: the size if one is given, and else the mode if one is given.
pub proof fn law_setattr_first(
    fs: HostModel,
    ino: u64,
    mode: Option<u32>,
    size: Option<u64>,
    later: HostModel,
    id: u64,
    body: FsBody<Text, Entries>,
)
    requires
        fs.inodes.paths.contains_key(ino),
    ensures
        ({
            let path = fs.inodes.paths[ino];
            let made = fs.setattr(ino, mode, size);
            let next = answered(later, made, granted(id, body));
            &&& size matches Some(size) ==> asks(fs, made, FsOp::Truncate { path, size })
            &&& size is Some && mode is None ==> asks(later, next, FsOp::Stat { path })
            &&& size is Some ==> (mode matches Some(mode) ==> asks(
                later,
                next,
                FsOp::Chmod { path, mode },
            ))
            &&& size is None ==> (mode matches Some(mode) ==> asks(
                fs,
                made,
                FsOp::Chmod { path, mode },
            ))
            &&& size is None && mode is Some ==> asks(later, next, FsOp::Stat { path })
            &&& size is None && mode is None ==> asks(fs, made, FsOp::Stat { path })
        }),
{
}

/// The target of a link is what the host tells of its path, as bytes.
pub proof fn law_readlink(
    fs: HostModel,
    ino: u64,
    later: HostModel,
    id: u64,
    target: Text,
    body: FsBody<Text, Entries>,
    errno: i32,
)
    requires
        fs.inodes.paths.contains_key(ino),
    ensures
        ({
            let made = fs.readlink(ino);
            let brought = granted(id, FsBody::Link { target });
            &&& asks(fs, made, FsOp::Readlink { path: fs.inodes.paths[ino] })
            &&& made.0.inodes == fs.inodes
            &&& tells(later, made, brought, Reply::Data(encode_utf8(target)))
            &&& body !is Link ==> tells(later, made, granted(id, body), Reply::Error(5))
            &&& passes_faults_on(later, made, id, errno)
        }),
{
}

/// A file system is described by what the host tells of the path of a file in it, or of the root
/// for a file that is not known. The size of a block is that of a fragment too. Whatever else comes
/// of the call is an input/output error.
pub proof fn law_statfs(
    fs: HostModel,
    ino: u64,
    later: HostModel,
    id: u64,
    stat: StatVfs,
    body: FsBody<Text, Entries>,
    errno: i32,
)
    ensures
        ({
            let made = fs.statfs(ino);
            let told = StatfsReply {
                blocks: stat.blocks,
                bfree: stat.bfree,
                bavail: stat.bavail,
                files: stat.files,
                ffree: stat.ffree,
                bsize: stat.bsize as u32,
                namelen: stat.namelen,
                frsize: stat.bsize as u32,
            };
            &&& fs.inodes.paths.contains_key(ino) ==> asks(
                fs,
                made,
                FsOp::Statfs { path: fs.inodes.paths[ino] },
            )
            &&& !fs.inodes.paths.contains_key(ino) ==> asks(
                fs,
                made,
                FsOp::Statfs { path: Seq::empty() },
            )
            &&& made.0.inodes == fs.inodes
            &&& tells(later, made, granted(id, FsBody::StatVfs(stat)), Reply::Statfs(told))
            &&& body !is StatVfs ==> tells(later, made, granted(id, body), Reply::Error(5))
            &&& tells(later, made, refused(id, errno), Reply::Error(5))
            &&& tells(later, made, Outcome::Failed, Reply::Error(5))
        }),
{
}

/// A file is flushed and closed at the host, and the kernel is told of success whatever comes of
/// it.
pub proof fn law_close(fs: HostModel, ino: u64, later: HostModel, outcome: Outcome<Text, Entries>)
    requires
        fs.inodes.paths.contains_key(ino),
    ensures
        ({
            let flush = fs.flush(ino);
            let release = fs.release(ino);
            &&& asks(fs, flush, FsOp::Flush { path: fs.inodes.paths[ino] })
            &&& flush.0.inodes == fs.inodes
            &&& tells(later, flush, outcome, Reply::Empty)
            &&& asks(fs, release, FsOp::Release { path: fs.inodes.paths[ino] })
            &&& release.0.inodes == fs.inodes
            &&& tells(later, release, outcome, Reply::Empty)
        }),
{
}

/// A directory opens exactly if its number is in use.
pub proof fn law_opendir(fs: HostModel, ino: u64)
    ensures
        fs.inodes.paths.contains_key(ino) ==> fs.opendir(ino) == (Reply::<Seq<u8>>::Opened {
            fh: 0,
            open_flags: 0,
        }),
        !fs.inodes.paths.contains_key(ino) ==> fs.opendir(ino) == Reply::<Seq<u8>>::Error(2),
{
}

/// A request on a number that is not in use asks the host nothing and changes nothing. It is
/// answered that there is no such file, but that closing one succeeds.
pub proof fn law_number_not_in_use(
    fs: HostModel,
    ino: u64,
    name: Text,
    other: u64,
    other_name: Text,
    offset: i64,
    size: u32,
    data: Text,
    mode: u32,
    flags: i32,
    new_mode: Option<u32>,
    new_size: Option<u64>,
)
    requires
        !fs.inodes.paths.contains_key(ino),
    ensures
        ({
            let no_such_file: Transition = (fs, StepModel::Done(Reply::Error(2)));
            let success: Transition = (fs, StepModel::Done(Reply::Empty));
            &&& fs.lookup(ino, name) == no_such_file
            &&& fs.getattr(ino) == no_such_file
            &&& fs.readdir(ino, offset) == no_such_file
            &&& fs.open(ino, flags) == no_such_file
            &&& fs.read(ino, offset, size) == no_such_file
            &&& fs.write(ino, offset, data) == no_such_file
            &&& fs.create(ino, name, mode, flags) == no_such_file
            &&& fs.unlink(ino, name) == no_such_file
            &&& fs.mkdir(ino, name, mode) == no_such_file
            &&& fs.rmdir(ino, name) == no_such_file
            &&& fs.rename(ino, name, other, other_name) == no_such_file
            &&& fs.rename(other, other_name, ino, name) == no_such_file
            &&& fs.setattr(ino, new_mode, new_size) == no_such_file
            &&& fs.readlink(ino) == no_such_file
            &&& fs.symlink(ino, name, other_name) == no_such_file
            &&& fs.flush(ino) == success
            &&& fs.release(ino) == success
        }),
{
}

/// The error that the kernel gets is the host's own, or else that of input and output.
pub proof fn law_fault(id: u64, errno: i32, body: FsBody<Text, Entries>)
    ensures
        fault(refused(id, errno)) == errno,
        fault(granted(id, body)) == 5,
        fault(Outcome::Failed) == 5,
{
}

/// A request can be made as long as there is one more number for it, and a path can get a number
/// as long as there is one more for it. Nothing else is asked of the state, and what takes no
/// number asks nothing.
pub proof fn law_limits(
    fs: HostModel,
    ino: u64,
    other: u64,
    name: Text,
    path: Text,
    listing: Listing<Text, Entries>,
    then: Pending<Text>,
    id: u64,
    body: FsBody<Text, Entries>,
    errno: i32,
)
    ensures
        fs.can_call() <==> fs.next_id < u64::MAX,
        fs.may_call(ino) <==> !fs.inodes.paths.contains_key(ino) || fs.can_call(),
        fs.may_rename(ino, other) <==> !fs.inodes.paths.contains_key(ino)
            || !fs.inodes.paths.contains_key(other) || fs.can_call(),
        fs.may_insert(path) <==> fs.inodes.inos.contains_key(path) || fs.inodes.next_ino
            < u64::MAX,
        fs.may_add(ino, name) <==> !fs.inodes.paths.contains_key(ino) || fs.may_insert(
            join_path(fs.inodes.paths[ino], name),
        ),
        listing.next >= listing.entries.len() ==> fs.may_list(listing),
        listing.next < listing.entries.len() ==> (fs.may_list(listing) <==> {
            let name = listing.entries[listing.next as int].name;
            name == seq!['.'] || name == seq!['.', '.'] || fs.may_insert(
                join_path(listing.path, name),
            )
        }),
        fs.may_resume(then, refused(id, errno)),
        fs.may_resume(then, Outcome::Failed),
        fs.may_resume(then, granted(id, body)) <==> match then {
            Pending::Lookup { path } => body !is Attr || fs.may_insert(path),
            Pending::SetattrTruncate { .. }
            | Pending::SetattrChmod { .. }
            | Pending::Symlink { .. } => fs.next_id < u64::MAX,
            _ => true,
        },
{
}

/// A session opens with a request for the folder that is to be shared, as the first request of
/// all. It is set up exactly if the host grants it, and then knows the root and nothing else.
pub proof fn law_init(
    root: Text,
    id: u64,
    body: FsBody<Text, Entries>,
    errno: i32,
    next_id: u64,
    ino: u64,
    path: Text,
)
    ensures
        opening(root).id == 1,
        opening(root).op == (FsOp::Init { root }),
        init_refusal(granted(id, body)) is None,
        init_refusal(refused(id, errno)) == Some(InitError::Rejected { errno }),
        init_refusal(Outcome::Failed) == Some(InitError::Disconnected),
        ({
            let fs = HostModel::mounted(next_id);
            &&& fs.wf()
            &&& fs.next_id == next_id
            &&& fs.inodes.paths.contains_key(ino) <==> ino == 1
            &&& fs.inodes.paths[1] == Seq::<char>::empty()
            &&& fs.inodes.inos.contains_key(path) <==> path.len() == 0
            &&& fs.inodes.inos[Seq::empty()] == 1
            &&& fs.inodes.next_ino == 2
        }),
{
    assert(path.len() == 0 ==> path =~= Seq::<char>::empty());
}

/// What goes to the host is what the model speaks of: the same operation, with the same number,
/// texts and sizes.
pub proof fn law_request_in_the_model(request: FsRequest)
    ensures
        request@.id == request.id,
        match request.op {
            FsOp::Init { root } => request@.op == (FsOp::Init { root: root@ }),
            FsOp::Stat { path } => request@.op == (FsOp::Stat { path: path@ }),
            FsOp::Readdir { path } => request@.op == (FsOp::Readdir { path: path@ }),
            FsOp::Open { path, flags } => request@.op == (FsOp::Open { path: path@, flags }),
            FsOp::Read { path, offset, size } => request@.op == (FsOp::Read {
                path: path@,
                offset,
                size,
            }),
            FsOp::Write { path, offset, data } => request@.op == (FsOp::Write {
                path: path@,
                offset,
                data: data@,
            }),
            FsOp::Create { path, mode, flags } => request@.op == (FsOp::Create {
                path: path@,
                mode,
                flags,
            }),
            FsOp::Unlink { path } => request@.op == (FsOp::Unlink { path: path@ }),
            FsOp::Mkdir { path, mode } => request@.op == (FsOp::Mkdir { path: path@, mode }),
            FsOp::Rmdir { path } => request@.op == (FsOp::Rmdir { path: path@ }),
            FsOp::Rename { from, to } => request@.op == (FsOp::Rename { from: from@, to: to@ }),
            FsOp::Truncate { path, size } => request@.op == (FsOp::Truncate { path: path@, size }),
            FsOp::Chmod { path, mode } => request@.op == (FsOp::Chmod { path: path@, mode }),
            FsOp::Readlink { path } => request@.op == (FsOp::Readlink { path: path@ }),
            FsOp::Symlink { target, linkpath } => request@.op == (FsOp::Symlink {
                target: target@,
                linkpath: linkpath@,
            }),
            FsOp::Statfs { path } => request@.op == (FsOp::Statfs { path: path@ }),
            FsOp::Flush { path } => request@.op == (FsOp::Flush { path: path@ }),
            FsOp::Release { path } => request@.op == (FsOp::Release { path: path@ }),
        },
{
}

/// What comes from the host is what the model speaks of: the same success, with the same contents,
/// or the same error.
pub proof fn law_answer_in_the_model(outcome: Outcome)
    ensures
        outcome is Failed <==> outcome@ is Failed,
        outcome matches Outcome::Answered(response) ==> match response.result {
            FsResult::Failure { errno } => outcome@ == refused(response.id, errno),
            FsResult::Success { body: FsBody::Empty } => outcome@ == granted(
                response.id,
                FsBody::Empty,
            ),
            FsResult::Success { body: FsBody::Attr(attr) } => outcome@ == granted(
                response.id,
                FsBody::Attr(attr),
            ),
            FsResult::Success { body: FsBody::Dir { entries } } => outcome@
                == granted(
                response.id,
                FsBody::Dir { entries: outcome@->0.result->body->entries },
            ) && outcome@->0.result->body->entries.len() == entries@.len() && forall|i: int|
                0 <= i < entries@.len() ==> {
                    let entry = #[trigger] outcome@->0.result->body->entries[i];
                    entry.name == entries@[i].name@ && entry.file_type == entries@[i].file_type
                },
            FsResult::Success { body: FsBody::Data { data } } => outcome@ == granted(
                response.id,
                FsBody::Data { data: data@ },
            ),
            FsResult::Success { body: FsBody::Written { size } } => outcome@ == granted(
                response.id,
                FsBody::Written { size },
            ),
            FsResult::Success { body: FsBody::Link { target } } => outcome@ == granted(
                response.id,
                FsBody::Link { target: target@ },
            ),
            FsResult::Success { body: FsBody::StatVfs(stat) } => outcome@ == granted(
                response.id,
                FsBody::StatVfs(stat),
            ),
        },
{
}

/// What the kernel is told is what the model speaks of: the same reply, with the same contents.
pub proof fn law_reply_in_the_model(reply: Reply, item: DirItem)
    ensures
        match reply {
            Reply::Error(errno) => reply@ == Reply::<Seq<u8>>::Error(errno),
            Reply::Empty => reply@ == Reply::<Seq<u8>>::Empty,
            Reply::Entry { ttl_secs, attr, generation } => reply@ == (Reply::<Seq<u8>>::Entry {
                ttl_secs,
                attr,
                generation,
            }),
            Reply::Attr { ttl_secs, attr } => reply@ == (Reply::<Seq<u8>>::Attr { ttl_secs, attr }),
            Reply::Opened { fh, open_flags } => reply@ == (Reply::<Seq<u8>>::Opened {
                fh,
                open_flags,
            }),
            Reply::Created { ttl_secs, attr, generation, fh, open_flags } => reply@ == (Reply::<
                Seq<u8>,
            >::Created { ttl_secs, attr, generation, fh, open_flags }),
            Reply::Data(bytes) => reply@ == Reply::Data(bytes@),
            Reply::Written(size) => reply@ == Reply::<Seq<u8>>::Written(size),
            Reply::Statfs(stat) => reply@ == Reply::<Seq<u8>>::Statfs(stat),
        },
        item@.ino == item.ino,
        item@.offset == item.offset,
        item@.kind == item.kind,
        item@.name == item.name@,
{
}

/// A step is what the model speaks of: the same request, the same listing or the same reply.
pub proof fn law_step_in_the_model(step: Step)
    ensures
        match step {
            Step::Call { request, then } => step@ == (StepModel::Call {
                request: request@,
                then: then@,
            }),
            Step::List(listing) => {
                &&& step@ is List
                &&& step@->List_0.ino == listing.ino
                &&& step@->List_0.path == listing.path@
                &&& step@->List_0.next == listing.next
                &&& step@->List_0.entries.len() == listing.entries@.len()
                &&& forall|i: int|
                    0 <= i < listing.entries@.len() ==> {
                        let entry = #[trigger] step@->List_0.entries[i];
                        &&& entry.name == listing.entries@[i].name@
                        &&& entry.file_type == listing.entries@[i].file_type
                    }
            },
            Step::Done(reply) => step@ == StepModel::Done(reply@),
        },
{
}

} // verus!
