//! What holds of the file system as a whole.

use super::codec::{base64_bytes, base64_text};
use super::inode::{join_path, law_extends_transitive, law_with_path_extends, ROOT_INO};
use super::model::{
    attr_reply, brought_attr, created_reply, entry_reply, fault, is_dot, success, DirItem,
    HostModel, Listing, Pending, Reply, Step, StepModel, Transition, EIO, ENOENT,
};
use super::protocol::{Entries, FsBody, FsOp, FsResponse, FsResult, Outcome, Text};
use vstd::prelude::*;

verus! {

/// The state after a step keeps what the state before it promised: it is well formed, every
/// inode number still stands for the path it stood for, and no request number is used again.
pub open spec fn follows(after: HostModel, before: HostModel) -> bool {
    &&& after.wf()
    &&& after.inodes.extends(before.inodes)
    &&& before.next_id <= after.next_id
}

/// A step keeps what the state before it promised. A step that calls the host takes the next
/// request number, and any other takes none.
pub open spec fn sound(before: HostModel, made: Transition) -> bool {
    &&& follows(made.0, before)
    &&& match made.1 {
        Step::Call { request, .. } => request.id == before.next_id && made.0.next_id
            == before.next_id + 1,
        _ => made.0.next_id == before.next_id,
    }
}

proof fn lemma_with_path_follows(fs: HostModel, path: Text)
    requires
        fs.wf(),
        fs.may_insert(path),
    ensures
        follows(fs.with_path(path), fs),
{
    law_with_path_extends(fs.inodes, path);
}

/// Whatever the kernel asks, and whatever state the file system is in, every inode number keeps
/// its path and request numbers are taken in order, as long as there are numbers for what the
/// request takes.
pub proof fn law_requests_follow(
    fs: HostModel,
    ino: u64,
    name: Text,
    other: u64,
    other_name: Text,
    offset: i64,
    size: u32,
    data: Text,
    mode: u32,
    flags: i32,
    new_mode: Option<u32>,
    new_size: Option<u64>,
)
    requires
        fs.wf(),
    ensures
        fs.may_call(ino) ==> {
            &&& sound(fs, fs.lookup(ino, name))
            &&& sound(fs, fs.getattr(ino))
            &&& sound(fs, fs.readdir(ino, offset))
            &&& sound(fs, fs.open(ino, flags))
            &&& sound(fs, fs.read(ino, offset, size))
            &&& sound(fs, fs.write(ino, offset, data))
            &&& sound(fs, fs.unlink(ino, name))
            &&& sound(fs, fs.rmdir(ino, name))
            &&& sound(fs, fs.setattr(ino, new_mode, new_size))
            &&& sound(fs, fs.readlink(ino))
            &&& sound(fs, fs.flush(ino))
            &&& sound(fs, fs.release(ino))
        },
        fs.may_call(ino) && fs.may_add(ino, name) ==> {
            &&& sound(fs, fs.create(ino, name, mode, flags))
            &&& sound(fs, fs.mkdir(ino, name, mode))
            &&& sound(fs, fs.symlink(ino, name, other_name))
        },
        fs.may_rename(ino, other) ==> sound(fs, fs.rename(ino, name, other, other_name)),
        fs.can_call() ==> sound(fs, fs.statfs(ino)),
{
    if fs.inodes.path_of(ino) is Some && fs.may_add(ino, name) {
        lemma_with_path_follows(fs, join_path(fs.inodes.paths[ino], name));
    }
}

/// Whatever comes of a call, every inode number keeps its path and request numbers are taken in
/// order.
pub proof fn law_resume_follows(
    fs: HostModel,
    then: Pending<Text>,
    outcome: Outcome<Text, Entries>,
)
    requires
        fs.wf(),
        fs.may_resume(then, outcome),
    ensures
        sound(fs, fs.resume(then, outcome)),
{
    if let Pending::Lookup { path } = then {
        if brought_attr(outcome) is Some {
            lemma_with_path_follows(fs, path);
        }
    }
}

/// Handing out an entry of a directory keeps every inode number's path.
pub proof fn law_next_entry_follows(fs: HostModel, listing: Listing<Text, Entries>)
    requires
        fs.wf(),
        listing.next < listing.entries.len(),
        fs.may_list(listing),
    ensures
        follows(fs.after_entry(listing), fs),
{
    let name = listing.entries[listing.next as int].name;
    if !is_dot(name) {
        lemma_with_path_follows(fs, join_path(listing.path, name));
    }
}

/// What holds over one step and over the next holds over both.
pub proof fn law_follows_transitive(first: HostModel, second: HostModel, third: HostModel)
    requires
        follows(second, first),
        follows(third, second),
    ensures
        follows(third, first),
{
    law_extends_transitive(first.inodes, second.inodes, third.inodes);
}

/// A request on a number that stands for no file is refused at once, the host is not asked and
/// nothing changes. Closing such a file succeeds, and the file system that holds it is taken to be
/// that of the root.
pub proof fn law_unknown_inode_refused(
    fs: HostModel,
    ino: u64,
    name: Text,
    other: u64,
    other_name: Text,
    offset: i64,
    size: u32,
    data: Text,
    mode: u32,
    flags: i32,
    new_mode: Option<u32>,
    new_size: Option<u64>,
)
    requires
        fs.inodes.path_of(ino) is None,
    ensures
        fs.lookup(ino, name) == fs.done(Reply::Error(ENOENT)),
        fs.getattr(ino) == fs.done(Reply::Error(ENOENT)),
        fs.readdir(ino, offset) == fs.done(Reply::Error(ENOENT)),
        fs.open(ino, flags) == fs.done(Reply::Error(ENOENT)),
        fs.read(ino, offset, size) == fs.done(Reply::Error(ENOENT)),
        fs.write(ino, offset, data) == fs.done(Reply::Error(ENOENT)),
        fs.create(ino, name, mode, flags) == fs.done(Reply::Error(ENOENT)),
        fs.unlink(ino, name) == fs.done(Reply::Error(ENOENT)),
        fs.mkdir(ino, name, mode) == fs.done(Reply::Error(ENOENT)),
        fs.rmdir(ino, name) == fs.done(Reply::Error(ENOENT)),
        fs.rename(ino, name, other, other_name) == fs.done(Reply::Error(ENOENT)),
        fs.rename(other, other_name, ino, name) == fs.done(Reply::Error(ENOENT)),
        fs.setattr(ino, new_mode, new_size) == fs.done(Reply::Error(ENOENT)),
        fs.readlink(ino) == fs.done(Reply::Error(ENOENT)),
        fs.symlink(ino, name, other_name) == fs.done(Reply::Error(ENOENT)),
        fs.opendir(ino) == Reply::<Seq<u8>>::Error(ENOENT),
        fs.flush(ino) == fs.done(Reply::Empty),
        fs.release(ino) == fs.done(Reply::Empty),
        fs.statfs(ino) == fs.call(FsOp::Statfs { path: Seq::empty() }, Pending::Statfs),
{
}

/// An error of the host reaches the kernel as it is and changes nothing. What a link's second
/// call and the description of a file system bring is answered with an error of its own, and
/// flushing and closing a file succeed all the same.
pub proof fn law_host_error_passed_on(fs: HostModel, then: Pending<Text>, id: u64, errno: i32)
    ensures
        ({
            let refused = Outcome::Answered(FsResponse { id, result: FsResult::Failure { errno } });
            let reply = match then {
                Pending::SymlinkStat { .. } | Pending::Statfs => Reply::Error(EIO),
                Pending::Flush | Pending::Release => Reply::Empty,
                _ => Reply::Error(errno),
            };
            fs.resume(then, refused) == fs.done(reply)
        }),
{
}

/// A call that fails on the way ends the operation with an input/output error and changes
/// nothing, but that flushing and closing a file succeed all the same.
pub proof fn law_lost_call_is_io_error(fs: HostModel, then: Pending<Text>)
    ensures
        ({
            let reply = match then {
                Pending::Flush | Pending::Release => Reply::Empty,
                _ => Reply::Error(EIO),
            };
            fs.resume(then, Outcome::Failed) == fs.done(reply)
        }),
{
}

/// A lookup that succeeds tells a number under which every later request finds the same path.
pub proof fn law_lookup_then_getattr(
    fs: HostModel,
    parent: u64,
    name: Text,
    outcome: Outcome<Text, Entries>,
    later: HostModel,
)
    requires
        fs.wf(),
        fs.may_add(parent, name),
        fs.inodes.path_of(parent) is Some,
        brought_attr(outcome) is Some,
        follows(
            later,
            fs.resume(
                Pending::Lookup { path: join_path(fs.inodes.paths[parent], name) },
                outcome,
            ).0,
        ),
    ensures
        ({
            let path = join_path(fs.inodes.paths[parent], name);
            let told = fs.resume(Pending::Lookup { path }, outcome);
            let ino = fs.inodes.ino_for(path);
            &&& told.1 == StepModel::Done(entry_reply(ino, brought_attr(outcome)->0))
            &&& later.getattr(ino) == later.call(FsOp::Stat { path }, Pending::Getattr { ino })
        }),
{
    let path = join_path(fs.inodes.paths[parent], name);
    law_with_path_extends(fs.inodes, path);
    let told = fs.resume(Pending::Lookup { path }, outcome);
    assert(told.0.inodes.path_of(fs.inodes.ino_for(path)) == Some(path));
    assert(told.0.inodes.paths.contains_key(fs.inodes.ino_for(path)));
}

/// A lookup that fails leaves no trace in the inode table.
pub proof fn law_failed_lookup_changes_nothing(
    fs: HostModel,
    path: Text,
    outcome: Outcome<Text, Entries>,
)
    requires
        brought_attr(outcome) is None,
    ensures
        fs.resume(Pending::Lookup { path }, outcome) == fs.done(Reply::Error(fault(outcome))),
{
}

/// What is written goes to the host as a text, and a read that the host answers with that text
/// gives back what was written. That the text stands for the bytes is what `HostFs::write`
/// promises.
pub proof fn law_read_returns_written(
    fs: HostModel,
    ino: u64,
    offset: i64,
    written: Seq<u8>,
    later: HostModel,
    id: u64,
)
    requires
        fs.inodes.path_of(ino) is Some,
        base64_bytes(base64_text(written)) == Some(written),
    ensures
        fs.write(ino, offset, base64_text(written)) == fs.call(
            FsOp::Write {
                path: fs.inodes.paths[ino],
                offset: offset as u64,
                data: base64_text(written),
            },
            Pending::Write,
        ),
        later.resume(
            Pending::Read,
            Outcome::Answered(
                FsResponse {
                    id,
                    result: FsResult::Success {
                        body: FsBody::Data { data: base64_text(written) },
                    },
                },
            ),
        ) == later.done(Reply::Data(written)),
{
}

/// A change of size and mode first asks for the size, asks for the mode only once the size has
/// been changed, and asks for the attributes only once both have.
pub proof fn law_setattr_order(
    fs: HostModel,
    ino: u64,
    mode: u32,
    size: u64,
    resized: Outcome<Text, Entries>,
    chmoded: Outcome<Text, Entries>,
)
    requires
        fs.inodes.path_of(ino) is Some,
    ensures
        ({
            let path = fs.inodes.paths[ino];
            let first = fs.setattr(ino, Some(mode), Some(size));
            let on_size = Pending::SetattrTruncate { ino, path, mode: Some(mode) };
            let second = first.0.resume(on_size, resized);
            let on_mode = Pending::SetattrChmod { ino, path };
            let third = second.0.resume(on_mode, chmoded);
            &&& first == fs.call(FsOp::Truncate { path, size }, on_size)
            &&& success(resized) is Some ==> second == first.0.call(
                FsOp::Chmod { path, mode },
                on_mode,
            )
            &&& success(resized) is None ==> second == first.0.done(Reply::Error(fault(resized)))
            &&& success(chmoded) is Some ==> third == second.0.call(
                FsOp::Stat { path },
                Pending::SetattrStat { ino },
            )
            &&& success(chmoded) is None ==> third == second.0.done(Reply::Error(fault(chmoded)))
        }),
{
}

/// A change of attributes that names neither a size nor a mode only gets the attributes.
pub proof fn law_setattr_of_nothing(fs: HostModel, ino: u64, outcome: Outcome<Text, Entries>)
    requires
        fs.inodes.path_of(ino) is Some,
        brought_attr(outcome) is Some,
    ensures
        fs.setattr(ino, None, None) == fs.call(
            FsOp::Stat { path: fs.inodes.paths[ino] },
            Pending::SetattrStat { ino },
        ),
        fs.resume(Pending::SetattrStat { ino }, outcome) == fs.done(
            attr_reply(ino, brought_attr(outcome)->0),
        ),
{
}

/// Only making something, finding something and listing a directory give inode numbers. Every
/// other request leaves the table as it is, whatever comes of it: a file that is removed or
/// renamed keeps the number of its path, and a change of attributes changes no number.
pub proof fn law_other_requests_keep_numbers(
    fs: HostModel,
    ino: u64,
    name: Text,
    other: u64,
    other_name: Text,
    offset: i64,
    size: u32,
    data: Text,
    flags: i32,
    new_mode: Option<u32>,
    new_size: Option<u64>,
    then: Pending<Text>,
    outcome: Outcome<Text, Entries>,
)
    ensures
        fs.lookup(ino, name).0.inodes == fs.inodes,
        fs.getattr(ino).0.inodes == fs.inodes,
        fs.readdir(ino, offset).0.inodes == fs.inodes,
        fs.open(ino, flags).0.inodes == fs.inodes,
        fs.read(ino, offset, size).0.inodes == fs.inodes,
        fs.write(ino, offset, data).0.inodes == fs.inodes,
        fs.unlink(ino, name).0.inodes == fs.inodes,
        fs.rmdir(ino, name).0.inodes == fs.inodes,
        fs.rename(ino, name, other, other_name).0.inodes == fs.inodes,
        fs.setattr(ino, new_mode, new_size).0.inodes == fs.inodes,
        fs.readlink(ino).0.inodes == fs.inodes,
        fs.statfs(ino).0.inodes == fs.inodes,
        fs.flush(ino).0.inodes == fs.inodes,
        fs.release(ino).0.inodes == fs.inodes,
        then !is Lookup ==> fs.resume(then, outcome).0.inodes == fs.inodes,
{
}

/// A new file, directory or link has its inode number before the host is asked. Whether or not
/// the host makes it, every later lookup of the same name that succeeds tells that number.
pub proof fn law_new_entry_keeps_its_number(
    fs: HostModel,
    parent: u64,
    name: Text,
    mode: u32,
    flags: i32,
    target: Text,
    made: Outcome<Text, Entries>,
    later: HostModel,
    found: Outcome<Text, Entries>,
)
    requires
        fs.wf(),
        fs.may_add(parent, name),
        fs.inodes.path_of(parent) is Some,
        follows(later, fs.create(parent, name, mode, flags).0) || follows(
            later,
            fs.mkdir(parent, name, mode).0,
        ) || follows(later, fs.symlink(parent, name, target).0),
        brought_attr(found) is Some,
    ensures
        ({
            let path = join_path(fs.inodes.paths[parent], name);
            let ino = fs.inodes.ino_for(path);
            let create = fs.create(parent, name, mode, flags);
            let mkdir = fs.mkdir(parent, name, mode);
            &&& create == fs.with_path(path).call(
                FsOp::Create { path, mode, flags: flags as u32 },
                Pending::Create { ino },
            )
            &&& create.0.resume(Pending::Create { ino }, made) == create.0.done(
                match brought_attr(made) {
                    Some(attr) => created_reply(ino, attr),
                    None => Reply::Error(fault(made)),
                },
            )
            &&& mkdir == fs.with_path(path).call(
                FsOp::Mkdir { path, mode },
                Pending::Mkdir { ino },
            )
            &&& mkdir.0.resume(Pending::Mkdir { ino }, made) == mkdir.0.done(
                match brought_attr(made) {
                    Some(attr) => entry_reply(ino, attr),
                    None => Reply::Error(fault(made)),
                },
            )
            &&& later.lookup(parent, name) == later.call(
                FsOp::Stat { path },
                Pending::Lookup { path },
            )
            &&& later.resume(Pending::Lookup { path }, found) == later.done(
                entry_reply(ino, brought_attr(found)->0),
            )
        }),
{
    let path = join_path(fs.inodes.paths[parent], name);
    law_with_path_extends(fs.inodes, path);
}

/// A new link is told under the inode number that it got before the host was asked, and that
/// number stands for the link's path.
pub proof fn law_symlink_keeps_its_number(
    fs: HostModel,
    parent: u64,
    link_name: Text,
    target: Text,
    made: Outcome<Text, Entries>,
    described: Outcome<Text, Entries>,
)
    requires
        fs.wf(),
        fs.may_add(parent, link_name),
        fs.inodes.path_of(parent) is Some,
        success(made) is Some,
        brought_attr(described) is Some,
    ensures
        ({
            let linkpath = join_path(fs.inodes.paths[parent], link_name);
            let ino = fs.inodes.ino_for(linkpath);
            let first = fs.symlink(parent, link_name, target);
            let second = first.0.resume(Pending::Symlink { ino, linkpath }, made);
            let third = second.0.resume(Pending::SymlinkStat { ino }, described);
            &&& first == fs.with_path(linkpath).call(
                FsOp::Symlink { target, linkpath },
                Pending::Symlink { ino, linkpath },
            )
            &&& second == first.0.call(
                FsOp::Stat { path: linkpath },
                Pending::SymlinkStat { ino },
            )
            &&& third == second.0.done(entry_reply(ino, brought_attr(described)->0))
            &&& third.0.inodes.path_of(ino) == Some(linkpath)
        }),
{
    law_with_path_extends(fs.inodes, join_path(fs.inodes.paths[parent], link_name));
}

/// A directory lists an entry under the number that a lookup of the entry tells.
pub proof fn law_listing_agrees_with_lookup(
    fs: HostModel,
    listing: Listing<Text, Entries>,
    outcome: Outcome<Text, Entries>,
)
    requires
        fs.wf(),
        fs.may_list(listing),
        listing.next < listing.entries.len(),
        fs.inodes.path_of(listing.ino) == Some(listing.path),
        listing.entries[listing.next as int].name != seq!['.'],
        listing.entries[listing.next as int].name != seq!['.', '.'],
        brought_attr(outcome) is Some,
    ensures
        ({
            let name = listing.entries[listing.next as int].name;
            let path = join_path(listing.path, name);
            let item = fs.entry_item(listing);
            let after = fs.after_entry(listing);
            &&& fs.inodes.child_path(listing.ino, name) == Some(path)
            &&& after.resume(Pending::Lookup { path }, outcome) == after.done(
                entry_reply(item.ino, brought_attr(outcome)->0),
            )
        }),
{
    let path = join_path(listing.path, listing.entries[listing.next as int].name);
    law_with_path_extends(fs.inodes, path);
}

/// `listing` as it is when the entries before `index` are done with.
pub open spec fn from_index(listing: Listing<Text, Entries>, index: nat) -> Listing<Text, Entries> {
    Listing { next: index as usize, ..listing }
}

/// What comes of handing out the entries of `listing` from `index` on to a kernel that has room
/// for `room` of them: the state that is left, the entries that the kernel took, and the reply.
/// An entry that the kernel has no room for ends the listing, and so does the end of the entries.
pub open spec fn listed(
    fs: HostModel,
    listing: Listing<Text, Entries>,
    index: nat,
    room: nat,
) -> (HostModel, Seq<DirItem<Text>>, Reply<Seq<u8>>)
    decreases listing.entries.len() - index,
{
    if index >= listing.entries.len() {
        (fs, seq![], fs.listing_ended())
    } else {
        let item = fs.entry_item(from_index(listing, index));
        let after = fs.after_entry(from_index(listing, index));
        match after.entry_added(from_index(listing, index + 1), room == 0).1 {
            Step::Done(reply) => (after, seq![], reply),
            _ => {
                let (end, items, reply) = listed(after, listing, index + 1, (room - 1) as nat);
                (end, seq![item] + items, reply)
            },
        }
    }
}

/// The entry at `index` has an inode number.
spec fn numbered(fs: HostModel, listing: Listing<Text, Entries>, index: nat) -> bool {
    let name = listing.entries[index as int].name;
    is_dot(name) || fs.inodes.inos.contains_key(join_path(listing.path, name))
}

/// There is an inode number for each entry that is handed out of `listing` from `index` on, the
/// one included that the kernel turns out to have no room for. Entries that have a number, and
/// those that are not handed out, take none.
pub open spec fn may_list_from(
    fs: HostModel,
    listing: Listing<Text, Entries>,
    index: nat,
    room: nat,
) -> bool
    decreases listing.entries.len() - index,
{
    index < listing.entries.len() ==> {
        let here = from_index(listing, index);
        &&& fs.may_list(here)
        &&& room > 0 ==> may_list_from(
            fs.after_entry(here),
            listing,
            index + 1,
            (room - 1) as nat,
        )
    }
}

proof fn lemma_item_stays(
    fs: HostModel,
    later: HostModel,
    listing: Listing<Text, Entries>,
    index: nat,
)
    requires
        later.inodes.extends(fs.inodes),
        index < listing.entries.len() <= isize::MAX,
        numbered(fs, listing, index),
    ensures
        numbered(later, listing, index),
        later.entry_item(from_index(listing, index)) == fs.entry_item(from_index(listing, index)),
{
}

proof fn lemma_listed(fs: HostModel, listing: Listing<Text, Entries>, index: nat, room: nat)
    requires
        fs.wf(),
        index <= listing.entries.len() <= isize::MAX,
        may_list_from(fs, listing, index, room),
    ensures
        ({
            let (end, items, reply) = listed(fs, listing, index, room);
            &&& follows(end, fs)
            &&& reply == Reply::<Seq<u8>>::Empty
            &&& items.len() == if room <= listing.entries.len() - index {
                room as int
            } else {
                listing.entries.len() - index
            }
            &&& forall|i: int|
                0 <= i < items.len() ==> #[trigger] items[i] == end.entry_item(
                    from_index(listing, (index + i) as nat),
                )
            &&& forall|k: nat|
                index <= k < listing.entries.len() && k <= index + room ==> #[trigger] numbered(
                    end,
                    listing,
                    k,
                )
        }),
    decreases listing.entries.len() - index,
{
    if index < listing.entries.len() {
        let here = from_index(listing, index);
        let item = fs.entry_item(here);
        let after = fs.after_entry(here);
        law_next_entry_follows(fs, here);
        assert(numbered(after, listing, index));
        assert(after.entry_item(here) == item);
        if room > 0 {
            lemma_listed(after, listing, index + 1, (room - 1) as nat);
            let (end, rest, reply) = listed(after, listing, index + 1, (room - 1) as nat);
            law_follows_transitive(fs, after, end);
            lemma_item_stays(after, end, listing, index);
            let items = seq![item] + rest;
            assert(listed(fs, listing, index, room) == (end, items, reply));
            assert forall|i: int| 0 <= i < items.len() implies #[trigger] items[i]
                == end.entry_item(from_index(listing, (index + i) as nat)) by {
                if i > 0 {
                    assert(items[i] == rest[i - 1]);
                }
            }
            assert forall|k: nat|
                index <= k < listing.entries.len() && k <= index + room implies #[trigger] numbered(
                end,
                listing,
                k,
            ) by {
                if k > index {
                    assert(index + 1 <= k && k <= index + 1 + (room - 1));
                }
            }
        }
    }
}

/// A listing in which the kernel had room for `room` entries, and one that it goes on with from
/// the offset of the last entry that it took, together hand out the entries from the first offset
/// on: once each and in order, each with the offset behind it and under the number that it still
/// has in the end. Both are answered with success.
pub proof fn law_listings_join(
    fs: HostModel,
    listing: Listing<Text, Entries>,
    room: nat,
    later: HostModel,
    more_room: nat,
    id: u64,
)
    requires
        fs.wf(),
        listing.next + room <= listing.entries.len() <= isize::MAX,
        may_list_from(fs, listing, listing.next as nat, room),
        follows(later, listed(fs, listing, listing.next as nat, room).0),
        may_list_from(later, listing, listing.next as nat + room, more_room),
    ensures
        ({
            let start = listing.next as nat;
            let stop = start + room;
            let entries = listing.entries;
            let first = listed(fs, listing, start, room);
            let second = listed(later, listing, stop, more_room);
            let all = first.1 + second.1;
            &&& room > 0 ==> first.1.last().offset == stop
            &&& later.resume(
                Pending::Readdir { ino: listing.ino, path: listing.path, offset: stop as i64 },
                Outcome::Answered(
                    FsResponse { id, result: FsResult::Success { body: FsBody::Dir { entries } } },
                ),
            ) == (later, StepModel::List(from_index(listing, stop)))
            &&& all.len() == if room + more_room <= entries.len() - start {
                (room + more_room) as int
            } else {
                entries.len() - start
            }
            &&& forall|i: int|
                0 <= i < all.len() ==> {
                    &&& #[trigger] all[i] == second.0.entry_item(
                        from_index(listing, (start + i) as nat),
                    )
                    &&& all[i].name == entries[start + i].name
                    &&& all[i].offset == start + i + 1
                }
            &&& first.2 == Reply::<Seq<u8>>::Empty
            &&& second.2 == Reply::<Seq<u8>>::Empty
        }),
{
    let start = listing.next as nat;
    let stop = start + room;
    let first = listed(fs, listing, start, room);
    let second = listed(later, listing, stop, more_room);
    lemma_listed(fs, listing, start, room);
    lemma_listed(later, listing, stop, more_room);
    law_follows_transitive(first.0, later, second.0);
    let all = first.1 + second.1;
    assert forall|i: int| 0 <= i < all.len() implies {
        &&& #[trigger] all[i] == second.0.entry_item(from_index(listing, (start + i) as nat))
        &&& all[i].name == listing.entries[start + i].name
        &&& all[i].offset == start + i + 1
    } by {
        if i < room {
            assert(all[i] == first.1[i]);
            assert(numbered(first.0, listing, (start + i) as nat));
            lemma_item_stays(first.0, second.0, listing, (start + i) as nat);
        } else {
            assert(all[i] == second.1[i - room]);
        }
    }
    if room > 0 {
        assert(first.1.last() == all[room - 1]);
    }
}

/// A listing from an offset at or behind the end of the entries hands out none, changes nothing
/// and is answered with success.
pub proof fn law_listing_past_the_end(
    fs: HostModel,
    ino: u64,
    path: Text,
    entries: Entries,
    offset: i64,
    room: nat,
    id: u64,
)
    requires
        entries.len() <= offset as usize,
    ensures
        ({
            let listing = Listing { ino, path, entries, next: offset as usize };
            &&& fs.resume(
                Pending::Readdir { ino, path, offset },
                Outcome::Answered(
                    FsResponse { id, result: FsResult::Success { body: FsBody::Dir { entries } } },
                ),
            ) == (fs, StepModel::List(listing))
            &&& listed(fs, listing, (offset as usize) as nat, room) == (
                fs,
                Seq::<DirItem<Text>>::empty(),
                Reply::<Seq<u8>>::Empty,
            )
        }),
{
}

/// Entries of a directory that have different names are listed under different numbers.
pub proof fn law_different_names_different_numbers(
    fs: HostModel,
    ino: u64,
    path: Text,
    first: Text,
    second: Text,
)
    requires
        fs.wf(),
        fs.may_insert(join_path(path, first)),
        first != second,
        first != seq!['.'] && first != seq!['.', '.'],
        second != seq!['.'] && second != seq!['.', '.'],
    ensures
        ({
            let (after, number) = fs.entry_ino(ino, path, first);
            number != after.entry_ino(ino, path, second).1
        }),
{
    let a = join_path(path, first);
    let b = join_path(path, second);
    law_with_path_extends(fs.inodes, a);
    if a == b {
        let skip = if path.len() == 0 {
            0
        } else {
            path.len() + 1
        };
        assert(a.skip(skip as int) =~= first);
        assert(b.skip(skip as int) =~= second);
    }
}

/// Every directory lists itself under its own number and its parent under the root's.
pub proof fn law_dot_entries(fs: HostModel, ino: u64, path: Text)
    ensures
        fs.entry_ino(ino, path, seq!['.']) == (fs, ino),
        fs.entry_ino(ino, path, seq!['.', '.']) == (fs, ROOT_INO),
{
    assert(seq!['.', '.'].len() != seq!['.'].len());
}

} // verus!
