//! The table that gives every path the guest has met an inode number.
//!
//! Paths are relative to the shared root, whose own path is empty. A path keeps its number for
//! as long as the table lives, and a number is never given to a second path.

use std::collections::HashMap;
use vstd::hash_map::StringHashMap;
use vstd::prelude::*;

verus! {

broadcast use vstd::std_specs::hash::group_hash_axioms;

/// The inode number of the shared root.
pub const ROOT_INO: u64 = 1;

/// What an `InodeTable` holds: the path of each number, the number of each path, and the number
/// that the next new path gets.
#[verifier::ext_equal]
pub struct InodeModel {
    pub next_ino: u64,
    pub paths: Map<u64, Seq<char>>,
    pub inos: Map<Seq<char>, u64>,
}

/// The path of the entry `name` in the directory at `dir`.
pub open spec fn join_path(dir: Seq<char>, name: Seq<char>) -> Seq<char> {
    if dir.len() == 0 {
        name
    } else {
        dir + seq!['/'] + name
    }
}

impl InodeModel {
    /// The two maps are inverse to each other, the numbers in use are exactly those from the
    /// root's up to the next free one, and the root has the empty path.
    pub open spec fn wf(self) -> bool {
        &&& ROOT_INO < self.next_ino
        &&& forall|ino: u64| #[trigger]
            self.paths.contains_key(ino) <==> ROOT_INO <= ino < self.next_ino
        &&& self.paths[ROOT_INO] == Seq::<char>::empty()
        &&& forall|ino: u64| #[trigger]
            self.paths.contains_key(ino) ==> self.inos.contains_key(self.paths[ino])
                && self.inos[self.paths[ino]] == ino
        &&& forall|path: Seq<char>| #[trigger]
            self.inos.contains_key(path) ==> self.paths.contains_key(self.inos[path])
                && self.paths[self.inos[path]] == path
    }

    /// The table that knows the shared root and nothing else.
    pub open spec fn rooted() -> InodeModel {
        InodeModel {
            next_ino: 2,
            paths: map![ROOT_INO => Seq::<char>::empty()],
            inos: map![Seq::<char>::empty() => ROOT_INO],
        }
    }

    /// The path of `ino`, if the number is in use.
    pub open spec fn path_of(self, ino: u64) -> Option<Seq<char>> {
        if self.paths.contains_key(ino) {
            Some(self.paths[ino])
        } else {
            None
        }
    }

    /// The path of the entry `name` in the directory `parent`, if that number is in use.
    pub open spec fn child_path(self, parent: u64, name: Seq<char>) -> Option<Seq<char>> {
        match self.path_of(parent) {
            Some(dir) => Some(join_path(dir, name)),
            None => None,
        }
    }

    /// The number that `path` has, or else the one it would get.
    pub open spec fn ino_for(self, path: Seq<char>) -> u64 {
        if self.inos.contains_key(path) {
            self.inos[path]
        } else {
            self.next_ino
        }
    }

    /// The table in which `path` certainly has a number.
    pub open spec fn with_path(self, path: Seq<char>) -> InodeModel {
        if self.inos.contains_key(path) {
            self
        } else {
            InodeModel {
                next_ino: (self.next_ino + 1) as u64,
                paths: self.paths.insert(self.next_ino, path),
                inos: self.inos.insert(path, self.next_ino),
            }
        }
    }

    /// Every number and every path that `earlier` binds is bound the same way here.
    pub open spec fn extends(self, earlier: InodeModel) -> bool {
        &&& earlier.next_ino <= self.next_ino
        &&& forall|ino: u64| #[trigger]
            earlier.paths.contains_key(ino) ==> self.paths.contains_key(ino) && self.paths[ino]
                == earlier.paths[ino]
        &&& forall|path: Seq<char>| #[trigger]
            earlier.inos.contains_key(path) ==> self.inos.contains_key(path) && self.inos[path]
                == earlier.inos[path]
    }
}

/// Inode numbers and the paths they stand for.
pub struct InodeTable {
    next_ino: u64,
    ino_to_path: HashMap<u64, String>,
    path_to_ino: StringHashMap<u64>,
}

impl View for InodeTable {
    type V = InodeModel;

    closed spec fn view(&self) -> InodeModel {
        InodeModel {
            next_ino: self.next_ino,
            paths: self.ino_to_path@.map_values(|path: String| path@),
            inos: self.path_to_ino@,
        }
    }
}

impl InodeTable {
    /// The invariant that every operation keeps.
    pub open spec fn wf(&self) -> bool {
        self@.wf()
    }

    /// The table that knows the shared root and nothing else.
    pub fn new() -> (table: InodeTable)
        ensures
            table.wf(),
            table@ == InodeModel::rooted(),
            table@ == (InodeModel {
                next_ino: 2,
                paths: map![ROOT_INO => Seq::<char>::empty()],
                inos: map![Seq::<char>::empty() => ROOT_INO],
            }),
    {
        let mut table = InodeTable {
            next_ino: 2,
            ino_to_path: HashMap::new(),
            path_to_ino: StringHashMap::new(),
        };
        table.ino_to_path.insert(ROOT_INO, String::new());
        table.path_to_ino.insert(String::new(), ROOT_INO);
        assert(table@.paths =~= map![ROOT_INO => Seq::<char>::empty()]);
        assert(table@.inos =~= map![Seq::<char>::empty() => ROOT_INO]);
        table
    }

    /// The number that the next new path gets.
    pub fn next_ino(&self) -> (ino: u64)
        ensures
            ino == self@.next_ino,
    {
        self.next_ino
    }

    /// The path of `ino`, if the number is in use.
    pub fn get_path(&self, ino: u64) -> (path: Option<&str>)
        ensures
            match path {
                Some(text) => self@.path_of(ino) == Some(text@),
                None => self@.path_of(ino) is None,
            },
    {
        match self.ino_to_path.get(&ino) {
            Some(path) => Some(path.as_str()),
            None => None,
        }
    }

    /// Whether `path` has a number.
    pub fn contains(&self, path: &str) -> (answer: bool)
        ensures
            answer == self@.inos.contains_key(path@),
    {
        self.path_to_ino.contains_key(path)
    }

    /// The number of `path`, which is given the next free one if it has none yet.
    pub fn get_or_insert(&mut self, path: &str) -> (ino: u64)
        requires
            old(self).wf(),
            old(self)@.inos.contains_key(path@) || old(self)@.next_ino < u64::MAX,
        ensures
            final(self).wf(),
            ino == old(self)@.ino_for(path@),
            final(self)@ == old(self)@.with_path(path@),
            final(self)@.extends(old(self)@),
            final(self)@.path_of(ino) == Some(path@),
    {
        match self.path_to_ino.get(path) {
            Some(ino) => {
                return *ino;
            },
            None => {},
        }
        let ino = self.next_ino;
        self.next_ino = self.next_ino + 1;
        self.ino_to_path.insert(ino, path.to_owned());
        self.path_to_ino.insert(path.to_owned(), ino);
        proof {
            assert(self@.paths =~= old(self)@.paths.insert(ino, path@));
            law_with_path_extends(old(self)@, path@);
        }
        ino
    }

    /// The path of the entry `name` in the directory `parent`, if that number is in use.
    pub fn child_path(&self, parent: u64, name: &str) -> (path: Option<String>)
        ensures
            match path {
                Some(text) => self@.child_path(parent, name@) == Some(text@),
                None => self@.child_path(parent, name@) is None,
            },
    {
        match self.get_path(parent) {
            Some(dir) => Some(join(dir, name)),
            None => None,
        }
    }
}

/// The path of the entry `name` in the directory at `dir`.
pub fn join(dir: &str, name: &str) -> (path: String)
    ensures
        path@ == join_path(dir@, name@),
{
    if dir.is_empty() {
        name.to_owned()
    } else {
        let mut path = dir.to_owned();
        path.append("/");
        path.append(name);
        proof {
            reveal_strlit("/");
            assert("/"@ =~= seq!['/']);
        }
        path
    }
}

/// A path below the root is the directory's path, a slash and the name, and a path in the root is
/// the name alone.
pub proof fn law_join_path(dir: Seq<char>, name: Seq<char>)
    ensures
        dir.len() == 0 ==> join_path(dir, name) == name,
        dir.len() > 0 ==> {
            let path = join_path(dir, name);
            &&& path.len() == dir.len() + 1 + name.len()
            &&& path.take(dir.len() as int) == dir
            &&& path[dir.len() as int] == '/'
            &&& path.skip(dir.len() as int + 1) == name
        },
{
    let path = join_path(dir, name);
    if dir.len() > 0 {
        assert(path.take(dir.len() as int) =~= dir);
        assert(path.skip(dir.len() as int + 1) =~= name);
    }
}

/// The path of a number is the one that the table has for it, and an entry's path is found
/// exactly if its directory's number is in use.
pub proof fn law_paths_are_found(table: InodeModel, ino: u64, name: Seq<char>)
    ensures
        table.paths.contains_key(ino) ==> table.path_of(ino) == Some(table.paths[ino]),
        table.paths.contains_key(ino) ==> table.child_path(ino, name) == Some(
            join_path(table.paths[ino], name),
        ),
        !table.paths.contains_key(ino) ==> table.path_of(ino) is None && table.child_path(
            ino,
            name,
        ) is None,
{
}

/// A path that has a number keeps it, and nothing changes. A path that has none gets the next
/// number, which nothing had before, and nothing else changes.
pub proof fn law_numbering(table: InodeModel, path: Seq<char>)
    requires
        table.wf(),
        table.inos.contains_key(path) || table.next_ino < u64::MAX,
    ensures
        table.with_path(path).paths == table.paths.insert(table.ino_for(path), path),
        table.with_path(path).inos == table.inos.insert(path, table.ino_for(path)),
        table.inos.contains_key(path) ==> {
            &&& table.ino_for(path) == table.inos[path]
            &&& table.with_path(path) == table
        },
        !table.inos.contains_key(path) ==> {
            &&& table.ino_for(path) == table.next_ino
            &&& !table.paths.contains_key(table.ino_for(path))
            &&& table.with_path(path).next_ino == table.next_ino + 1
        },
{
    if table.inos.contains_key(path) {
        assert(table.paths.insert(table.inos[path], path) =~= table.paths);
        assert(table.inos.insert(path, table.inos[path]) =~= table.inos);
    }
}

/// Giving a path a number keeps the table well formed, leaves every earlier binding as it was,
/// and binds the path to the number that was returned.
pub proof fn law_with_path_extends(table: InodeModel, path: Seq<char>)
    requires
        table.wf(),
        table.inos.contains_key(path) || table.next_ino < u64::MAX,
    ensures
        table.with_path(path).wf(),
        table.with_path(path).extends(table),
        table.with_path(path).path_of(table.ino_for(path)) == Some(path),
{
}

/// The entries of a directory are found under the number that the directory's path was given.
pub proof fn law_children_of_new_number(table: InodeModel, path: Seq<char>, name: Seq<char>)
    requires
        table.wf(),
        table.inos.contains_key(path) || table.next_ino < u64::MAX,
    ensures
        table.with_path(path).child_path(table.ino_for(path), name) == Some(join_path(path, name)),
{
}

/// Asking for the same path again gives the same number and changes nothing.
pub proof fn law_with_path_idempotent(table: InodeModel, path: Seq<char>)
    requires
        table.wf(),
        table.inos.contains_key(path) || table.next_ino < u64::MAX,
    ensures
        table.with_path(path).with_path(path) == table.with_path(path),
        table.with_path(path).ino_for(path) == table.ino_for(path),
{
}

/// Two paths have the same number only if they are the same path.
pub proof fn law_ino_identifies_path(table: InodeModel, a: Seq<char>, b: Seq<char>)
    requires
        table.wf(),
        table.inos.contains_key(a),
        table.inos.contains_key(b),
        table.inos[a] == table.inos[b],
    ensures
        a == b,
{
}

/// Two numbers have the same path only if they are the same number.
pub proof fn law_path_identifies_ino(table: InodeModel, a: u64, b: u64)
    requires
        table.wf(),
        table.path_of(a) is Some,
        table.path_of(a) == table.path_of(b),
    ensures
        a == b,
{
}

/// Bindings that survive two steps survive both together.
pub proof fn law_extends_transitive(first: InodeModel, second: InodeModel, third: InodeModel)
    requires
        second.extends(first),
        third.extends(second),
    ensures
        third.extends(first),
{
}

} // verus!
