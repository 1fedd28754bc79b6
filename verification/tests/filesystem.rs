use agentos::fuse::attr::{proto_attr_to_fuse, FileKind};
use agentos::fuse::codec::{decode, is_encodable};
use agentos::fuse::model::{Listing, Pending, Reply, StatfsReply, Step};
use agentos::fuse::protocol::{
    DirEntry, FileAttr, FsBody, FsOp, FsRequest, FsResponse, FsResult, Outcome, StatVfs,
};
use agentos::fuse::session::{fault_of, read_reply, HostFs, InitError};

const ENOENT: i32 = 2;
const EIO: i32 = 5;
const EACCES: i32 = 13;

fn success(body: FsBody) -> Outcome {
    Outcome::Answered(FsResponse { id: 0, result: FsResult::Success { body } })
}

fn failure(errno: i32) -> Outcome {
    Outcome::Answered(FsResponse { id: 0, result: FsResult::Failure { errno } })
}

fn file() -> FileAttr {
    FileAttr {
        size: 3,
        blocks: 1,
        atime: 1,
        mtime: 2,
        ctime: 3,
        mode: 0o100644,
        nlink: 1,
        uid: 0,
        gid: 0,
    }
}

fn mounted() -> HostFs {
    let (conn, _) = HostFs::init_request("/srv");
    match HostFs::init_done(conn, success(FsBody::Empty)) {
        Ok(fs) => fs,
        Err(_) => panic!("init"),
    }
}

fn call(step: Step) -> (FsRequest, Pending) {
    match step {
        Step::Call { request, then } => (request, then),
        other => panic!("no call: {:?}", other),
    }
}

fn done(step: Step) -> Reply {
    match step {
        Step::Done(reply) => reply,
        other => panic!("not done: {:?}", other),
    }
}

fn listing(step: Step) -> Listing {
    match step {
        Step::List(listing) => listing,
        other => panic!("no listing: {:?}", other),
    }
}

fn known(fs: &mut HostFs, name: &str) -> u64 {
    let (_, then) = call(fs.lookup(1, name));
    match done(fs.resume(then, success(FsBody::Attr(file())))) {
        Reply::Entry { attr, .. } => attr.ino,
        other => panic!("no entry: {:?}", other),
    }
}

#[test]
fn session_opens_with_request_one() {
    let (conn, request) = HostFs::init_request("/srv");
    assert_eq!(request, FsRequest { id: 1, op: FsOp::Init { root: "/srv".to_string() } });
    assert_eq!(conn.next_id(), 2);
}

#[test]
fn session_needs_the_host() {
    let (conn, _) = HostFs::init_request("/srv");
    assert!(matches!(
        HostFs::init_done(conn, failure(EACCES)),
        Err(InitError::Rejected { errno: EACCES })
    ));
    let (conn, _) = HostFs::init_request("/srv");
    assert!(matches!(HostFs::init_done(conn, Outcome::Failed), Err(InitError::Disconnected)));
}

#[test]
fn lookup_gives_a_number_that_later_requests_use() {
    let mut fs = mounted();
    let (request, then) = call(fs.lookup(1, "a"));
    assert_eq!(request, FsRequest { id: 2, op: FsOp::Stat { path: "a".to_string() } });
    assert_eq!(
        done(fs.resume(then, success(FsBody::Attr(file())))),
        Reply::Entry { ttl_secs: 1, attr: proto_attr_to_fuse(2, &file()), generation: 0 }
    );
    let (request, then) = call(fs.getattr(2));
    assert_eq!(request, FsRequest { id: 3, op: FsOp::Stat { path: "a".to_string() } });
    assert_eq!(
        done(fs.resume(then, success(FsBody::Attr(file())))),
        Reply::Attr { ttl_secs: 1, attr: proto_attr_to_fuse(2, &file()) }
    );
    assert!(fs.can_call());
}

#[test]
fn failed_lookup_leaves_no_trace() {
    let mut fs = mounted();
    let (_, then) = call(fs.lookup(1, "a"));
    assert_eq!(done(fs.resume(then, failure(ENOENT))), Reply::Error(ENOENT));
    let (_, then) = call(fs.lookup(1, "a"));
    assert_eq!(done(fs.resume(then, success(FsBody::Empty))), Reply::Error(EIO));
    assert_eq!(done(fs.getattr(2)), Reply::Error(ENOENT));
    assert_eq!(known(&mut fs, "b"), 2);
}

#[test]
fn unknown_inode_is_refused_without_a_call() {
    let mut fs = mounted();
    assert_eq!(done(fs.lookup(7, "a")), Reply::Error(ENOENT));
    assert_eq!(done(fs.getattr(7)), Reply::Error(ENOENT));
    assert_eq!(done(fs.readdir(7, 0)), Reply::Error(ENOENT));
    assert_eq!(done(fs.open(7, 0)), Reply::Error(ENOENT));
    assert_eq!(done(fs.read(7, 0, 1)), Reply::Error(ENOENT));
    assert_eq!(done(fs.write(7, 0, b"x")), Reply::Error(ENOENT));
    assert_eq!(done(fs.create(7, "a", 0, 0)), Reply::Error(ENOENT));
    assert_eq!(done(fs.unlink(7, "a")), Reply::Error(ENOENT));
    assert_eq!(done(fs.mkdir(7, "a", 0)), Reply::Error(ENOENT));
    assert_eq!(done(fs.rmdir(7, "a")), Reply::Error(ENOENT));
    assert_eq!(done(fs.rename(7, "a", 1, "b")), Reply::Error(ENOENT));
    assert_eq!(done(fs.rename(1, "a", 7, "b")), Reply::Error(ENOENT));
    assert_eq!(done(fs.setattr(7, None, Some(1))), Reply::Error(ENOENT));
    assert_eq!(done(fs.readlink(7)), Reply::Error(ENOENT));
    assert_eq!(done(fs.symlink(7, "a", "b")), Reply::Error(ENOENT));
    assert_eq!(fs.opendir(7), Reply::Error(ENOENT));
    assert_eq!(done(fs.flush(7)), Reply::Empty);
    assert_eq!(done(fs.release(7)), Reply::Empty);
    assert_eq!(fs.releasedir(), Reply::Empty);
    let (request, _) = call(fs.getattr(1));
    assert_eq!(request.id, 2);
}

#[test]
fn root_directory_opens_without_a_call() {
    let fs = mounted();
    assert_eq!(fs.opendir(1), Reply::Opened { fh: 0, open_flags: 0 });
}

#[test]
fn open_passes_the_flags_on() {
    let mut fs = mounted();
    let ino = known(&mut fs, "a");
    let (request, then) = call(fs.open(ino, -1));
    assert_eq!(request.op, FsOp::Open { path: "a".to_string(), flags: 0xffff_ffff });
    assert_eq!(
        done(fs.resume(then, success(FsBody::Written { size: 1 }))),
        Reply::Opened { fh: 0, open_flags: 0 }
    );
    let (_, then) = call(fs.open(ino, 0));
    assert_eq!(done(fs.resume(then, failure(EACCES))), Reply::Error(EACCES));
    let (_, then) = call(fs.open(ino, 0));
    assert_eq!(done(fs.resume(then, Outcome::Failed)), Reply::Error(EIO));
}

#[test]
fn contents_travel_as_base64() {
    let mut fs = mounted();
    let ino = known(&mut fs, "a");
    let (request, then) = call(fs.write(ino, 5, b"hello world~"));
    assert_eq!(
        request.op,
        FsOp::Write { path: "a".to_string(), offset: 5, data: "aGVsbG8gd29ybGR+".to_string() }
    );
    assert_eq!(
        done(fs.resume(then, success(FsBody::Written { size: 12 }))),
        Reply::Written(12)
    );
    let (request, then) = call(fs.read(ino, 5, 12));
    assert_eq!(request.op, FsOp::Read { path: "a".to_string(), offset: 5, size: 12 });
    let brought = success(FsBody::Data { data: "aGVsbG8gd29ybGR+".to_string() });
    assert_eq!(done(fs.resume(then, brought)), Reply::Data(b"hello world~".to_vec()));
}

#[test]
fn what_was_written_is_read_back() {
    let mut fs = mounted();
    let ino = known(&mut fs, "a");
    for data in [&b""[..], &b"a"[..], &b"ab"[..], &[0u8, 255, 128, 7][..]] {
        let (request, _) = call(fs.write(ino, 0, data));
        let FsOp::Write { data: sent, .. } = request.op else { panic!("no write") };
        let (_, then) = call(fs.read(ino, 0, 100));
        let brought = success(FsBody::Data { data: sent });
        assert_eq!(done(fs.resume(then, brought)), Reply::Data(data.to_vec()));
    }
}

#[test]
fn text_that_is_no_base64_is_an_io_error() {
    let mut fs = mounted();
    let ino = known(&mut fs, "a");
    for text in ["!", "YQ", "YQ=", "Y===", "YR=="] {
        let (_, then) = call(fs.read(ino, 0, 1));
        let brought = success(FsBody::Data { data: text.to_string() });
        assert_eq!(done(fs.resume(then, brought)), Reply::Error(EIO));
        assert_eq!(decode(text), None);
    }
    assert_eq!(decode("YWI="), Some(b"ab".to_vec()));
    assert_eq!(read_reply(None), Reply::Error(EIO));
    assert_eq!(read_reply(Some(vec![1])), Reply::Data(vec![1]));
}

#[test]
fn text_to_write_is_sent_as_it_is() {
    let mut fs = mounted();
    let ino = known(&mut fs, "a");
    let (request, _) = call(fs.write_text(ino, -1, "YQ==".to_string()));
    assert_eq!(
        request.op,
        FsOp::Write { path: "a".to_string(), offset: u64::MAX, data: "YQ==".to_string() }
    );
}

#[test]
fn new_files_have_numbers_even_if_the_host_refuses() {
    let mut fs = mounted();
    let (request, then) = call(fs.create(1, "a", 0o644, 2));
    assert_eq!(request.op, FsOp::Create { path: "a".to_string(), mode: 0o644, flags: 2 });
    assert_eq!(done(fs.resume(then, failure(EACCES))), Reply::Error(EACCES));
    let (request, then) = call(fs.create(1, "a", 0o600, 0));
    assert_eq!(request.id, 3);
    assert_eq!(
        done(fs.resume(then, success(FsBody::Attr(file())))),
        Reply::Created {
            ttl_secs: 1,
            attr: proto_attr_to_fuse(2, &file()),
            generation: 0,
            fh: 0,
            open_flags: 0
        }
    );
}

#[test]
fn directories_are_made_and_filled() {
    let mut fs = mounted();
    let (request, then) = call(fs.mkdir(1, "d", 0o755));
    assert_eq!(request.op, FsOp::Mkdir { path: "d".to_string(), mode: 0o755 });
    assert_eq!(
        done(fs.resume(then, success(FsBody::Attr(file())))),
        Reply::Entry { ttl_secs: 1, attr: proto_attr_to_fuse(2, &file()), generation: 0 }
    );
    let (request, _) = call(fs.create(2, "f", 0, 0));
    assert_eq!(request.op, FsOp::Create { path: "d/f".to_string(), mode: 0, flags: 0 });
}

#[test]
fn entries_are_removed_and_renamed() {
    let mut fs = mounted();
    let d = known(&mut fs, "d");
    let (request, then) = call(fs.unlink(d, "f"));
    assert_eq!(request.op, FsOp::Unlink { path: "d/f".to_string() });
    assert_eq!(done(fs.resume(then, success(FsBody::Empty))), Reply::Empty);
    let (request, then) = call(fs.rmdir(1, "d"));
    assert_eq!(request.op, FsOp::Rmdir { path: "d".to_string() });
    assert_eq!(done(fs.resume(then, failure(39))), Reply::Error(39));
    let (request, then) = call(fs.rename(1, "d", d, "e"));
    assert_eq!(request.op, FsOp::Rename { from: "d".to_string(), to: "d/e".to_string() });
    assert_eq!(done(fs.resume(then, success(FsBody::Empty))), Reply::Empty);
    let (request, _) = call(fs.getattr(d));
    assert_eq!(request.op, FsOp::Stat { path: "d".to_string() });
}

#[test]
fn size_is_set_before_mode() {
    let mut fs = mounted();
    let ino = known(&mut fs, "a");
    let (request, then) = call(fs.setattr(ino, Some(0o600), Some(4)));
    assert_eq!(request.op, FsOp::Truncate { path: "a".to_string(), size: 4 });
    let (request, then) = call(fs.resume(then, success(FsBody::Empty)));
    assert_eq!(request.op, FsOp::Chmod { path: "a".to_string(), mode: 0o600 });
    let (request, then) = call(fs.resume(then, success(FsBody::Empty)));
    assert_eq!(request.op, FsOp::Stat { path: "a".to_string() });
    assert_eq!(
        done(fs.resume(then, success(FsBody::Attr(file())))),
        Reply::Attr { ttl_secs: 1, attr: proto_attr_to_fuse(ino, &file()) }
    );
}

#[test]
fn refused_size_leaves_the_mode_alone() {
    let mut fs = mounted();
    let ino = known(&mut fs, "a");
    let (_, then) = call(fs.setattr(ino, Some(0o600), Some(4)));
    assert_eq!(done(fs.resume(then, failure(EACCES))), Reply::Error(EACCES));
    let (_, then) = call(fs.setattr(ino, Some(0o600), Some(4)));
    assert_eq!(done(fs.resume(then, Outcome::Failed)), Reply::Error(EIO));
    let (request, then) = call(fs.setattr(ino, Some(0o600), None));
    assert_eq!(request.op, FsOp::Chmod { path: "a".to_string(), mode: 0o600 });
    assert_eq!(done(fs.resume(then, failure(EACCES))), Reply::Error(EACCES));
    let (request, _) = call(fs.setattr(ino, None, None));
    assert_eq!(request.op, FsOp::Stat { path: "a".to_string() });
}

#[test]
fn links_are_made_and_read() {
    let mut fs = mounted();
    let (request, then) = call(fs.symlink(1, "l", "t/\u{e9}"));
    assert_eq!(
        request.op,
        FsOp::Symlink { target: "t/\u{e9}".to_string(), linkpath: "l".to_string() }
    );
    let (request, then) = call(fs.resume(then, success(FsBody::Empty)));
    assert_eq!(request.op, FsOp::Stat { path: "l".to_string() });
    assert_eq!(
        done(fs.resume(then, success(FsBody::Attr(file())))),
        Reply::Entry { ttl_secs: 1, attr: proto_attr_to_fuse(2, &file()), generation: 0 }
    );
    let (request, then) = call(fs.readlink(2));
    assert_eq!(request.op, FsOp::Readlink { path: "l".to_string() });
    let brought = success(FsBody::Link { target: "t/\u{e9}".to_string() });
    assert_eq!(done(fs.resume(then, brought)), Reply::Data(vec![b't', b'/', 0xc3, 0xa9]));
}

#[test]
fn second_call_of_a_link_fails_as_io_error() {
    let mut fs = mounted();
    let (_, then) = call(fs.symlink(1, "l", "t"));
    assert_eq!(done(fs.resume(then, failure(EACCES))), Reply::Error(EACCES));
    let (_, then) = call(fs.symlink(1, "l", "t"));
    let (_, then) = call(fs.resume(then, success(FsBody::Empty)));
    assert_eq!(done(fs.resume(then, failure(EACCES))), Reply::Error(EIO));
}

#[test]
fn file_system_is_described() {
    let stat = StatVfs {
        blocks: 1,
        bfree: 2,
        bavail: 3,
        files: 4,
        ffree: 5,
        bsize: 0x1_0000_1000,
        namelen: 255,
    };
    let mut fs = mounted();
    let (request, then) = call(fs.statfs(1));
    assert_eq!(request.op, FsOp::Statfs { path: String::new() });
    assert_eq!(
        done(fs.resume(then, success(FsBody::StatVfs(stat)))),
        Reply::Statfs(StatfsReply {
            blocks: 1,
            bfree: 2,
            bavail: 3,
            files: 4,
            ffree: 5,
            bsize: 0x1000,
            namelen: 255,
            frsize: 0x1000
        })
    );
    let (request, then) = call(fs.statfs(77));
    assert_eq!(request.op, FsOp::Statfs { path: String::new() });
    assert_eq!(done(fs.resume(then, failure(EACCES))), Reply::Error(EIO));
}

#[test]
fn flushing_and_closing_always_succeed() {
    let mut fs = mounted();
    let ino = known(&mut fs, "a");
    let (request, then) = call(fs.flush(ino));
    assert_eq!(request.op, FsOp::Flush { path: "a".to_string() });
    assert_eq!(done(fs.resume(then, failure(EACCES))), Reply::Empty);
    let (request, then) = call(fs.release(ino));
    assert_eq!(request.op, FsOp::Release { path: "a".to_string() });
    assert_eq!(done(fs.resume(then, Outcome::Failed)), Reply::Empty);
}

#[test]
fn faults_are_the_hosts_or_io_errors() {
    assert_eq!(fault_of(&failure(EACCES)), EACCES);
    assert_eq!(fault_of(&Outcome::Failed), EIO);
    assert_eq!(fault_of(&success(FsBody::Empty)), EIO);
}

fn entries() -> Vec<DirEntry> {
    [(".", 0o040000), ("..", 0o040000), ("f", 0o100000), ("l", 0o120000)]
        .iter()
        .map(|(name, file_type)| DirEntry { name: name.to_string(), file_type: *file_type })
        .collect()
}

#[test]
fn directories_are_listed() {
    let mut fs = mounted();
    let d = known(&mut fs, "d");
    let (request, then) = call(fs.readdir(d, 0));
    assert_eq!(request.op, FsOp::Readdir { path: "d".to_string() });
    let brought = success(FsBody::Dir { entries: entries() });
    let mut list = listing(fs.resume(then, brought));
    let mut told = Vec::new();
    while let Some(item) = fs.next_entry(&mut list) {
        told.push((item.ino, item.offset, item.kind, item.name));
    }
    assert_eq!(
        told,
        vec![
            (d, 1, FileKind::Directory, ".".to_string()),
            (1, 2, FileKind::Directory, "..".to_string()),
            (3, 3, FileKind::RegularFile, "f".to_string()),
            (4, 4, FileKind::Symlink, "l".to_string()),
        ]
    );
    let (request, _) = call(fs.getattr(3));
    assert_eq!(request.op, FsOp::Stat { path: "d/f".to_string() });
}

#[test]
fn listing_continues_after_the_last_entry() {
    let mut fs = mounted();
    let (_, then) = call(fs.readdir(1, 2));
    let mut list = listing(fs.resume(then, success(FsBody::Dir { entries: entries() })));
    let item = fs.next_entry(&mut list).unwrap();
    assert_eq!((item.name.as_str(), item.offset, item.ino), ("f", 3, 2));
    for offset in [4, 9, -1] {
        let (_, then) = call(fs.readdir(1, offset));
        let mut list = listing(fs.resume(then, success(FsBody::Dir { entries: entries() })));
        assert_eq!(fs.next_entry(&mut list), None);
    }
    let (_, then) = call(fs.readdir(1, 0));
    assert_eq!(done(fs.resume(then, failure(EACCES))), Reply::Error(EACCES));
}

#[test]
fn listing_and_lookup_agree() {
    let mut fs = mounted();
    let (_, then) = call(fs.readdir(1, 2));
    let mut list = listing(fs.resume(then, success(FsBody::Dir { entries: entries() })));
    let item = fs.next_entry(&mut list).unwrap();
    assert_eq!(known(&mut fs, "f"), item.ino);
}

/// What a kernel with room for `room` entries takes of a listing of the root from `offset`.
fn list_from(fs: &mut HostFs, offset: i64, room: usize) -> Vec<(String, i64, u64)> {
    let (_, then) = call(fs.readdir(1, offset));
    let mut step = fs.resume(then, success(FsBody::Dir { entries: entries() }));
    let mut taken = Vec::new();
    loop {
        let mut list = match step {
            Step::List(list) => list,
            other => {
                assert_eq!(done(other), Reply::Empty);
                return taken;
            }
        };
        assert!(fs.may_list(&list));
        let Some(item) = fs.next_entry(&mut list) else {
            assert_eq!(fs.listing_ended(), Reply::Empty);
            return taken;
        };
        let full = taken.len() == room;
        if !full {
            taken.push((item.name, item.offset, item.ino));
        }
        step = fs.entry_added(list, full);
    }
}

#[test]
fn full_kernel_ends_the_listing() {
    let mut fs = mounted();
    let (_, then) = call(fs.readdir(1, 0));
    let list = listing(fs.resume(then, success(FsBody::Dir { entries: entries() })));
    let next = listing(fs.entry_added(list, false));
    assert_eq!((next.next, next.entries.len()), (0, 4));
    assert_eq!(done(fs.entry_added(next, true)), Reply::Empty);
}

#[test]
fn broken_off_listings_join() {
    let whole = list_from(&mut mounted(), 0, 9);
    assert_eq!(
        whole,
        vec![
            (".".to_string(), 1, 1),
            ("..".to_string(), 2, 1),
            ("f".to_string(), 3, 2),
            ("l".to_string(), 4, 3),
        ]
    );
    for room in 0..5 {
        let mut fs = mounted();
        let mut told = list_from(&mut fs, 0, room);
        assert_eq!(told.len(), room.min(4));
        told.extend(list_from(&mut fs, room as i64, 9));
        assert_eq!(told, whole);
    }
    assert_eq!(list_from(&mut mounted(), 4, 9), vec![]);
}

#[test]
fn refused_entry_keeps_its_number() {
    let mut fs = mounted();
    assert_eq!(list_from(&mut fs, 2, 0), vec![]);
    assert_eq!(known(&mut fs, "g"), 3);
    assert_eq!(list_from(&mut fs, 2, 1), vec![("f".to_string(), 3, 2)]);
}

#[test]
fn numbers_are_left_for_each_request() {
    let mut fs = mounted();
    assert!(fs.may_call(1) && fs.may_call(7));
    assert!(fs.may_rename(1, 1) && fs.may_rename(7, 1) && fs.may_rename(1, 7));
    assert!(fs.may_add(1, "a") && fs.may_add(7, "a"));
    let (_, then) = call(fs.lookup(1, "a"));
    assert!(fs.may_resume(&then, &success(FsBody::Attr(file()))));
    assert!(fs.may_resume(&then, &failure(ENOENT)));
    assert!(fs.may_resume(&then, &Outcome::Failed));
}

#[test]
fn too_long_a_write_is_told_apart() {
    let fs = mounted();
    let groups = isize::MAX as usize / 4;
    assert!(is_encodable(0));
    assert!(is_encodable(groups * 3));
    assert!(!is_encodable(groups * 3 + 1));
    assert!(!is_encodable(usize::MAX));
    assert!(fs.may_write(1, groups * 3));
    assert!(!fs.may_write(1, groups * 3 + 1));
    assert!(fs.may_write(7, usize::MAX));
}

#[test]
fn setattr_gives_no_numbers() {
    let mut fs = mounted();
    let a = known(&mut fs, "a");
    let (_, then) = call(fs.setattr(a, Some(0o600), Some(4)));
    let (_, then) = call(fs.resume(then, success(FsBody::Empty)));
    let (_, then) = call(fs.resume(then, success(FsBody::Empty)));
    assert_eq!(
        done(fs.resume(then, success(FsBody::Attr(file())))),
        Reply::Attr { ttl_secs: 1, attr: proto_attr_to_fuse(a, &file()) }
    );
    assert_eq!(known(&mut fs, "b"), a + 1);
}

#[test]
fn contents_have_one_text() {
    let mut fs = mounted();
    let a = known(&mut fs, "a");
    let cases: [(&[u8], &str); 7] = [
        (b"", ""),
        (b"f", "Zg=="),
        (b"fo", "Zm8="),
        (b"foo", "Zm9v"),
        (b"foob", "Zm9vYg=="),
        (&[0xfb, 0xff, 0xbf], "+/+/"),
        (&[0xff; 30], "////////////////////////////////////////"),
    ];
    for (contents, text) in cases {
        let (request, _) = call(fs.write(a, 0, contents));
        assert_eq!(
            request.op,
            FsOp::Write { path: "a".to_string(), offset: 0, data: text.to_string() }
        );
        assert_eq!(decode(text), Some(contents.to_vec()));
    }
}

#[test]
fn new_entries_keep_their_numbers() {
    let mut fs = mounted();
    let (_, then) = call(fs.create(1, "a", 0o644, 0));
    assert!(matches!(
        done(fs.resume(then, success(FsBody::Attr(file())))),
        Reply::Created { attr, .. } if attr.ino == 2
    ));
    let (_, then) = call(fs.mkdir(1, "d", 0o755));
    assert_eq!(done(fs.resume(then, failure(EACCES))), Reply::Error(EACCES));
    let (_, then) = call(fs.create(1, "lost", 0o644, 0));
    assert_eq!(done(fs.resume(then, Outcome::Failed)), Reply::Error(EIO));
    assert_eq!(known(&mut fs, "b"), 5);
    assert_eq!(known(&mut fs, "lost"), 4);
    assert_eq!(known(&mut fs, "d"), 3);
    assert_eq!(known(&mut fs, "a"), 2);
}

#[test]
fn removed_and_renamed_entries_keep_their_numbers() {
    let mut fs = mounted();
    let a = known(&mut fs, "a");
    let (_, then) = call(fs.unlink(1, "a"));
    assert_eq!(done(fs.resume(then, success(FsBody::Empty))), Reply::Empty);
    let (_, then) = call(fs.rename(1, "x", 1, "a"));
    assert_eq!(done(fs.resume(then, success(FsBody::Empty))), Reply::Empty);
    assert_eq!(known(&mut fs, "a"), a);
    assert_eq!(known(&mut fs, "b"), a + 1);
}
