//! The bookkeeping that lets a path based filesystem serve the inode based
//! kernel protocol: which name each inode stands for, and which inode each
//! name was given.
//!
//! The filesystem itself is called by the caller, between asking here for the
//! paths of the inodes named in a request and handing the filesystem's answer
//! back here.

use crate::errno::{Errno, EEXIST, EISDIR, ENOENT, ENOTDIR};
use crate::path::reply::{
    into_file_attr, spec_into_file_attr, DirectoryEntry, DirectoryEntryPlus, ReplyAttr,
    ReplyCreated, ReplyEntry,
};
use crate::raw::reply as raw;
use crate::path::absolute_path::{bytes_eq, copy_bytes, path_push, root_path, spec_path_push, SLASH};
use crate::path::inode_generator::{
    state_after_allocate, state_after_release, state_next, GeneratorState, InodeGenerator,
};
use crate::{Inode, Result};
use vstd::prelude::*;

verus! {

/// The inode of the root directory.
pub const ROOT_INODE: Inode = 1;

/// A name as the index holds it: the parent's inode and the name's bytes.
pub type NameKey = (u64, Seq<u8>);

/// The name of the root directory: `/` in itself.
pub open spec fn root_key() -> NameKey {
    (ROOT_INODE, root_path())
}

/// The entry `name` of the directory numbered `parent`.
#[derive(Debug)]
pub struct Name {
    /// the parent directory's inode.
    pub parent: Inode,
    /// the name's bytes.
    pub name: Vec<u8>,
}

impl Name {
    /// The name as the index holds it.
    pub open spec fn key(&self) -> NameKey {
        (self.parent, self.name@)
    }

    /// The entry `name` of the directory numbered `parent`.
    pub fn new(parent: Inode, name: &[u8]) -> (r: Name)
        ensures
            r.key() == (parent, name@),
    {
        Name { parent, name: copy_bytes(name) }
    }

    /// The same name, built anew.
    pub fn duplicate(&self) -> (r: Name)
        ensures
            r.key() == self.key(),
    {
        Name { parent: self.parent, name: copy_bytes(self.name.as_slice()) }
    }

    /// Whether this is the name `key`.
    fn is(&self, parent: Inode, name: &[u8]) -> (r: bool)
        ensures
            r == (self.key() == (parent, name@)),
    {
        self.parent == parent && bytes_eq(self.name.as_slice(), name)
    }
}

/// The path of `inode` following `names` upwards, at most `fuel` steps above
/// the first: a name whose parent is the root gives `/` and the name; a name
/// whose chain of parents ends without a name, or does not reach the root
/// within `fuel` steps, gives nothing.
pub open spec fn spec_path_of(names: Map<u64, NameKey>, inode: u64, fuel: nat) -> Option<Seq<u8>>
    decreases fuel,
{
    if !names.contains_key(inode) {
        None
    } else if names[inode].0 == ROOT_INODE {
        Some(spec_path_push(root_path(), names[inode].1))
    } else if fuel == 0 {
        None
    } else {
        match spec_path_of(names, names[inode].0, (fuel - 1) as nat) {
            Some(p) => Some(spec_path_push(p, names[inode].1)),
            None => None,
        }
    }
}

/// The names of inodes once the name `key` is dropped from the index: the inode
/// it led to, if any, loses its name.
pub open spec fn names_without_name(
    names: Map<u64, NameKey>,
    inodes: Map<NameKey, u64>,
    key: NameKey,
) -> Map<u64, NameKey> {
    if inodes.contains_key(key) {
        names.remove(inodes[key])
    } else {
        names
    }
}

/// The index of names once `inode` is forgotten: its name, if it has one, is
/// dropped from the index.
pub open spec fn inodes_without_inode(
    names: Map<u64, NameKey>,
    inodes: Map<NameKey, u64>,
    inode: u64,
) -> Map<NameKey, u64> {
    if names.contains_key(inode) {
        inodes.remove(names[inode])
    } else {
        inodes
    }
}

/// The inode the name `key` gets: the one it was given, or else `next`.
pub open spec fn name_inode(inodes: Map<NameKey, u64>, key: NameKey, next: u64) -> u64 {
    if inodes.contains_key(key) {
        inodes[key]
    } else {
        next
    }
}

/// The names of inodes once the name `key` has an inode: unchanged if it had
/// one, else with the new inode `next` named `key`.
pub open spec fn names_with_name(
    names: Map<u64, NameKey>,
    inodes: Map<NameKey, u64>,
    key: NameKey,
    next: u64,
) -> Map<u64, NameKey> {
    if inodes.contains_key(key) {
        names
    } else {
        names.insert(next, key)
    }
}

/// The index of names once the name `key` has an inode: unchanged if it had
/// one, else with `key` leading to `next`.
pub open spec fn inodes_with_name(inodes: Map<NameKey, u64>, key: NameKey, next: u64) -> Map<
    NameKey,
    u64,
> {
    if inodes.contains_key(key) {
        inodes
    } else {
        inodes.insert(key, next)
    }
}

/// The generator state once the name `key` is dropped: the inode it led to,
/// if any, is released.
pub open spec fn state_without_name(st: GeneratorState, inodes: Map<NameKey, u64>, key: NameKey) -> GeneratorState {
    if inodes.contains_key(key) {
        state_after_release(st, inodes[key])
    } else {
        st
    }
}

/// The generator state once the name `key` has an inode: unchanged if it had
/// one, else one number handed out.
pub open spec fn state_with_name(st: GeneratorState, inodes: Map<NameKey, u64>, key: NameKey) -> GeneratorState {
    if inodes.contains_key(key) {
        st
    } else {
        state_after_allocate(st)
    }
}

/// The names of inodes and the inodes of names.
///
/// Each inode in use has one name; the root's name (`/` in itself) is not in
/// the index from names to inodes, and every other name that is leads back
/// to an inode that has it.
pub struct InodeNameManager {
    inode_to_names: Vec<(Inode, Name)>,
    name_to_inode: Vec<(Name, Inode)>,
    inode_generator: InodeGenerator,
    names_view: Ghost<Map<u64, NameKey>>,
    inodes_view: Ghost<Map<NameKey, u64>>,
}

impl InodeNameManager {
    /// The name of each inode in use.
    pub closed spec fn names(&self) -> Map<u64, NameKey> {
        self.names_view@
    }

    /// The inode each indexed name was given.
    pub closed spec fn inodes(&self) -> Map<NameKey, u64> {
        self.inodes_view@
    }

    /// What the inode number generator holds.
    pub closed spec fn inode_state(&self) -> GeneratorState {
        self.inode_generator.state()
    }

    /// How many more inode numbers can be handed out at least.
    pub open spec fn room(&self) -> int {
        u64::MAX - self.inode_state().0
    }

    /// The inode number the next new name is given.
    pub open spec fn next_inode(&self) -> u64 {
        state_next(self.inode_state())
    }

    /// The number of names held, which bounds the length of any chain of
    /// parents that reaches the root.
    pub closed spec fn size(&self) -> nat {
        self.inode_to_names@.len()
    }

    /// Internal consistency.
    pub closed spec fn wf(&self) -> bool {
        let i2n = self.inode_to_names@;
        let n2i = self.name_to_inode@;
        let names = self.names_view@;
        let inodes = self.inodes_view@;
        &&& self.inode_generator.wf()
        &&& forall|i: int|
            0 <= i < i2n.len() ==> names.contains_key(#[trigger] i2n[i].0) && names[i2n[i].0]
                == i2n[i].1.key()
        &&& forall|i: int, j: int| 0 <= i < j < i2n.len() ==> i2n[i].0 != i2n[j].0
        &&& forall|n: u64|
            names.contains_key(n) ==> exists|i: int| 0 <= i < i2n.len() && #[trigger] i2n[i].0 == n
        &&& forall|i: int|
            0 <= i < n2i.len() ==> inodes.contains_key(#[trigger] n2i[i].0.key()) && inodes[n2i[i].0.key()]
                == n2i[i].1
        &&& forall|i: int, j: int| 0 <= i < j < n2i.len() ==> n2i[i].0.key() != n2i[j].0.key()
        &&& forall|k: NameKey|
            inodes.contains_key(k) ==> exists|i: int| 0 <= i < n2i.len() && #[trigger] n2i[i].0.key() == k
        &&& forall|k: NameKey| #[trigger]
            inodes.contains_key(k) ==> names.contains_key(inodes[k]) && names[inodes[k]] == k
        &&& forall|n: u64| self.inode_generator.allocated().contains(n) <==> #[trigger] names.contains_key(n)
    }

    /// The two maps agree: every indexed name leads to an inode whose name it
    /// is, so no name leads to an inode without a name.
    pub proof fn lemma_maps_agree(&self)
        requires
            self.wf(),
        ensures
            forall|k: NameKey| #[trigger] self.inodes().contains_key(k) ==> self.names().contains_key(self.inodes()[k])
                && self.names()[self.inodes()[k]] == k,
    {
    }

    /// A manager that knows only the root directory.
    pub fn new() -> (r: Self)
        ensures
            r.wf(),
            r.names() == Map::<u64, NameKey>::empty().insert(ROOT_INODE, root_key()),
            r.inodes() == Map::<NameKey, u64>::empty(),
            r.inode_state() == (2u64, Seq::<u64>::empty()),
    {
        let mut inode_generator = InodeGenerator::new();
        let root_inode = inode_generator.allocate_inode();
        assert(root_inode == ROOT_INODE);
        let mut root_name = Vec::new();
        root_name.push(SLASH);
        let mut inode_to_names = Vec::new();
        inode_to_names.push((root_inode, Name { parent: root_inode, name: root_name }));
        let r = InodeNameManager {
            inode_to_names,
            name_to_inode: Vec::new(),
            inode_generator,
            names_view: Ghost(Map::empty().insert(ROOT_INODE, root_key())),
            inodes_view: Ghost(Map::empty()),
        };
        proof {
            assert(r.inode_to_names@[0].1.name@ =~= root_path());
            assert forall|n: u64| r.inode_generator.allocated().contains(n) <==> #[trigger] r.names_view@.contains_key(n) by {
                assert(Set::<u64>::empty().insert(ROOT_INODE).contains(n) <==> n == ROOT_INODE);
            }
            assert forall|n: u64| r.names_view@.contains_key(n) implies exists|i: int| 0 <= i < r.inode_to_names@.len() && #[trigger] r.inode_to_names@[i].0 == n by {
                assert(r.inode_to_names@[0].0 == n);
            }
        }
        r
    }

    /// How many more inode numbers can be handed out at least.
    pub fn room_left(&self) -> (r: u64)
        ensures
            r == self.room(),
    {
        self.inode_generator.room_left()
    }

    /// The position of `inode` among the inodes in use.
    fn find_inode(&self, inode: Inode) -> (r: Option<usize>)
        requires
            self.wf(),
        ensures
            r matches Some(i) ==> i < self.inode_to_names@.len() && self.inode_to_names@[i as int].0
                == inode,
            r is None ==> !self.names().contains_key(inode),
    {
        let mut i: usize = 0;
        while i < self.inode_to_names.len()
            invariant
                self.wf(),
                i <= self.inode_to_names@.len(),
                forall|j: int| 0 <= j < i ==> self.inode_to_names@[j].0 != inode,
            decreases self.inode_to_names@.len() - i,
        {
            if self.inode_to_names[i].0 == inode {
                return Some(i);
            }
            i = i + 1;
        }
        proof {
            if self.names_view@.contains_key(inode) {
                let k = choose|k: int|
                    0 <= k < self.inode_to_names@.len() && #[trigger] self.inode_to_names@[k].0
                        == inode;
                assert(self.inode_to_names@[k].0 != inode);
            }
        }
        None
    }

    /// The position of the name `(parent, name)` in the index of names.
    fn find_name(&self, parent: Inode, name: &[u8]) -> (r: Option<usize>)
        requires
            self.wf(),
        ensures
            r matches Some(i) ==> i < self.name_to_inode@.len() && self.name_to_inode@[i as int].0.key()
                == (parent, name@),
            r is None ==> !self.inodes().contains_key((parent, name@)),
    {
        let mut i: usize = 0;
        while i < self.name_to_inode.len()
            invariant
                self.wf(),
                i <= self.name_to_inode@.len(),
                forall|j: int| 0 <= j < i ==> self.name_to_inode@[j].0.key() != (parent, name@),
            decreases self.name_to_inode@.len() - i,
        {
            if self.name_to_inode[i].0.is(parent, name) {
                return Some(i);
            }
            i = i + 1;
        }
        proof {
            if self.inodes_view@.contains_key((parent, name@)) {
                let k = choose|k: int|
                    0 <= k < self.name_to_inode@.len() && #[trigger] self.name_to_inode@[k].0.key()
                        == (parent, name@);
                assert(self.name_to_inode@[k].0.key() != (parent, name@));
            }
        }
        None
    }

    /// The inode the name was given, if it is indexed.
    pub fn get_name_inode(&self, name: &Name) -> (r: Option<Inode>)
        requires
            self.wf(),
        ensures
            r == (if self.inodes().contains_key(name.key()) {
                Some(self.inodes()[name.key()])
            } else {
                None
            }),
    {
        match self.find_name(name.parent, name.name.as_slice()) {
            Some(i) => Some(self.name_to_inode[i].1),
            None => None,
        }
    }

    /// Whether the name is indexed.
    pub fn contains_name(&self, name: &Name) -> (r: bool)
        requires
            self.wf(),
        ensures
            r == self.inodes().contains_key(name.key()),
    {
        self.find_name(name.parent, name.name.as_slice()).is_some()
    }

    /// Gives the name, which is not indexed yet, a new inode.
    pub fn insert_name(&mut self, name: Name) -> (r: Inode)
        requires
            old(self).wf(),
            old(self).room() >= 1,
            !old(self).inodes().contains_key(name.key()),
        ensures
            final(self).wf(),
            final(self).room() >= old(self).room() - 1,
            r == old(self).next_inode(),
            r != 0,
            !old(self).names().contains_key(r),
            final(self).names() == old(self).names().insert(r, name.key()),
            final(self).inodes() == old(self).inodes().insert(name.key(), r),
            final(self).inode_state() == state_after_allocate(old(self).inode_state()),
    {
        let ghost old_self = *self;
        let ghost key = name.key();
        proof {
            self.inode_generator.lemma_room();
        }
        let inode = self.inode_generator.allocate_inode();
        let copy = name.duplicate();
        self.inode_to_names.push((inode, copy));
        self.name_to_inode.push((name, inode));
        proof {
            self.names_view@ = self.names_view@.insert(inode, key);
            self.inodes_view@ = self.inodes_view@.insert(key, inode);
            let i2n = self.inode_to_names@;
            let n2i = self.name_to_inode@;
            assert forall|n: u64| self.names_view@.contains_key(n) implies exists|i: int|
                0 <= i < i2n.len() && #[trigger] i2n[i].0 == n by {
                if n == inode {
                    assert(i2n[i2n.len() - 1].0 == n);
                } else {
                    let k = choose|k: int|
                        0 <= k < old_self.inode_to_names@.len() && #[trigger] old_self.inode_to_names@[k].0 == n;
                    assert(i2n[k] == old_self.inode_to_names@[k]);
                }
            }
            assert forall|k: NameKey| self.inodes_view@.contains_key(k) implies exists|i: int|
                0 <= i < n2i.len() && #[trigger] n2i[i].0.key() == k by {
                if k == key {
                    assert(n2i[n2i.len() - 1].0.key() == k);
                } else {
                    let j = choose|j: int|
                        0 <= j < old_self.name_to_inode@.len() && #[trigger] old_self.name_to_inode@[j].0.key() == k;
                    assert(n2i[j] == old_self.name_to_inode@[j]);
                }
            }
        }
        inode
    }

    /// Drops the name from the index and, if it was indexed, drops its inode's
    /// name and releases the inode.
    pub fn remove_name(&mut self, name: &Name)
        requires
            old(self).wf(),
        ensures
            final(self).wf(),
            final(self).room() == old(self).room(),
            final(self).names() == names_without_name(old(self).names(), old(self).inodes(), name.key()),
            final(self).inodes() == old(self).inodes().remove(name.key()),
            old(self).inodes().contains_key(name.key()) ==> final(self).next_inode()
                == old(self).inodes()[name.key()],
            !old(self).inodes().contains_key(name.key()) ==> final(self).next_inode()
                == old(self).next_inode(),
            final(self).inode_state() == state_without_name(old(self).inode_state(), old(self).inodes(), name.key()),
    {
        let ghost old_self = *self;
        let ghost key = name.key();
        let j = match self.find_name(name.parent, name.name.as_slice()) {
            None => {
                assert(self.inodes_view@.remove(key) =~= self.inodes_view@);
                return;
            },
            Some(j) => j,
        };
        let inode = self.name_to_inode[j].1;
        let i = match self.find_inode(inode) {
            Some(i) => i,
            None => {
                assert(false);
                return;
            },
        };
        self.name_to_inode.remove(j);
        self.inode_to_names.remove(i);
        self.inode_generator.release_inode(inode);
        proof {
            self.names_view@ = self.names_view@.remove(inode);
            self.inodes_view@ = self.inodes_view@.remove(key);
            old_self.lemma_removed(*self, i as int, j as int, inode, key);
        }
    }

    /// The inode `inode` and, if it has one, its name are gone from `self`,
    /// which is `old` with entry `i` of the inodes and entry `j` of the names
    /// (when `j` is an index) removed.
    proof fn lemma_removed(self, new: Self, i: int, j: int, inode: u64, key: NameKey)
        requires
            self.wf(),
            0 <= i < self.inode_to_names@.len(),
            self.inode_to_names@[i].0 == inode,
            self.names_view@[inode] == key,
            new.inode_to_names@ == self.inode_to_names@.remove(i),
            0 <= j < self.name_to_inode@.len() ==> self.name_to_inode@[j].0.key() == key
                && new.name_to_inode@ == self.name_to_inode@.remove(j),
            !(0 <= j < self.name_to_inode@.len()) ==> new.name_to_inode@ == self.name_to_inode@
                && !self.inodes_view@.contains_key(key),
            new.names_view@ == self.names_view@.remove(inode),
            new.inodes_view@ == self.inodes_view@.remove(key),
            new.inode_generator.wf(),
            new.inode_generator.allocated() == self.inode_generator.allocated().remove(inode),
        ensures
            new.wf(),
    {
        let i2n = new.inode_to_names@;
        let n2i = new.name_to_inode@;
        let oi2n = self.inode_to_names@;
        let on2i = self.name_to_inode@;
        assert forall|a: int| 0 <= a < i2n.len() implies new.names_view@.contains_key(
            #[trigger] i2n[a].0) && new.names_view@[i2n[a].0] == i2n[a].1.key() by {
            let b = if a < i { a } else { a + 1 };
            assert(i2n[a] == oi2n[b]);
            assert(oi2n[b].0 != oi2n[i].0);
        }
        assert forall|a: int, b: int| 0 <= a < b < i2n.len() implies i2n[a].0 != i2n[b].0 by {
            let a2 = if a < i { a } else { a + 1 };
            let b2 = if b < i { b } else { b + 1 };
            assert(i2n[a] == oi2n[a2]);
            assert(i2n[b] == oi2n[b2]);
        }
        assert forall|n: u64| new.names_view@.contains_key(n) implies exists|a: int|
            0 <= a < i2n.len() && #[trigger] i2n[a].0 == n by {
            let k = choose|k: int| 0 <= k < oi2n.len() && #[trigger] oi2n[k].0 == n;
            assert(k != i);
            let a = if k < i { k } else { k - 1 };
            assert(i2n[a] == oi2n[k]);
        }
        assert forall|a: int| 0 <= a < n2i.len() implies new.inodes_view@.contains_key(
            #[trigger] n2i[a].0.key()) && new.inodes_view@[n2i[a].0.key()] == n2i[a].1 by {
            if 0 <= j < on2i.len() {
                let b = if a < j { a } else { a + 1 };
                assert(n2i[a] == on2i[b]);
                assert(on2i[b].0.key() != on2i[j].0.key());
            } else {
                assert(n2i[a] == on2i[a]);
            }
        }
        assert forall|a: int, b: int| 0 <= a < b < n2i.len() implies n2i[a].0.key()
            != n2i[b].0.key() by {
            if 0 <= j < on2i.len() {
                let a2 = if a < j { a } else { a + 1 };
                let b2 = if b < j { b } else { b + 1 };
                assert(n2i[a] == on2i[a2]);
                assert(n2i[b] == on2i[b2]);
            } else {
                assert(n2i[a] == on2i[a]);
                assert(n2i[b] == on2i[b]);
            }
        }
        assert forall|k: NameKey| new.inodes_view@.contains_key(k) implies exists|a: int|
            0 <= a < n2i.len() && #[trigger] n2i[a].0.key() == k by {
            let c = choose|c: int| 0 <= c < on2i.len() && #[trigger] on2i[c].0.key() == k;
            if 0 <= j < on2i.len() {
                assert(c != j);
                let a = if c < j { c } else { c - 1 };
                assert(n2i[a] == on2i[c]);
            } else {
                assert(n2i[c] == on2i[c]);
            }
        }
        assert forall|k: NameKey| #[trigger] new.inodes_view@.contains_key(k) implies new.names_view@.contains_key(new.inodes_view@[k])
            && new.names_view@[new.inodes_view@[k]] == k by {
            assert(self.inodes_view@.contains_key(k));
            let m = self.inodes_view@[k];
            assert(self.names_view@[m] == k);
            assert(m != inode);
        }
        assert forall|n: u64| new.inode_generator.allocated().contains(n) <==> #[trigger] new.names_view@.contains_key(n) by {
            assert(self.inode_generator.allocated().contains(n) <==> self.names_view@.contains_key(n));
        }
    }

    /// Drops the name of `inode`, and that name from the index whatever inode it
    /// leads to there, and releases the inode.
    pub fn remove_inode(&mut self, inode: Inode)
        requires
            old(self).wf(),
        ensures
            final(self).wf(),
            final(self).room() == old(self).room(),
            final(self).names() == old(self).names().remove(inode),
            final(self).inodes() == inodes_without_inode(old(self).names(), old(self).inodes(), inode),
            old(self).names().contains_key(inode) ==> final(self).next_inode() == inode,
            !old(self).names().contains_key(inode) ==> final(self).next_inode()
                == old(self).next_inode(),
            final(self).inode_state() == state_after_release(old(self).inode_state(), inode),
            forall|k: NameKey| #[trigger] final(self).inodes().contains_key(k) ==> final(self).inodes()[k] != inode,
    {
        let ghost old_self = *self;
        match self.find_inode(inode) {
            None => {
                self.inode_generator.release_inode(inode);
                proof {
                    assert(self.names_view@.remove(inode) =~= self.names_view@);
                }
            },
            Some(i) => {
                let ghost key = self.inode_to_names@[i as int].1.key();
                let found = self.find_name(self.inode_to_names[i].1.parent, self.inode_to_names[i].1.name.as_slice());
                let ghost j: int = match found {
                    Some(j) => j as int,
                    None => -1,
                };
                match found {
                    Some(j) => {
                        self.name_to_inode.remove(j);
                    },
                    None => {},
                }
                self.inode_to_names.remove(i);
                self.inode_generator.release_inode(inode);
                proof {
                    self.names_view@ = self.names_view@.remove(inode);
                    self.inodes_view@ = self.inodes_view@.remove(key);
                    old_self.lemma_removed(*self, i as int, j, inode, key);
                    if j < 0 {
                        assert(self.inodes_view@ =~= old_self.inodes_view@);
                    }
                }
            },
        }
    }

    /// The path of `inode` within at most `fuel` steps up.
    fn path_of(&self, inode: Inode, fuel: usize) -> (r: Option<Vec<u8>>)
        requires
            self.wf(),
        ensures
            r matches Some(p) ==> spec_path_of(self.names(), inode, fuel as nat) == Some(p@),
            r is None ==> spec_path_of(self.names(), inode, fuel as nat) is None,
        decreases fuel,
    {
        let i = match self.find_inode(inode) {
            None => return None,
            Some(i) => i,
        };
        let name = &self.inode_to_names[i].1;
        if name.parent == ROOT_INODE {
            let mut p = Vec::new();
            p.push(SLASH);
            assert(p@ =~= root_path());
            path_push(&mut p, name.name.as_slice());
            Some(p)
        } else if fuel == 0 {
            None
        } else {
            match self.path_of(name.parent, fuel - 1) {
                Some(mut p) => {
                    path_push(&mut p, name.name.as_slice());
                    Some(p)
                },
                None => None,
            }
        }
    }

    /// The absolute path of `inode`: its name pushed onto the path of its
    /// parent, a name under the root pushed onto `/`. Nothing when the inode,
    /// or one on its way up, has no name, or the way up does not reach the
    /// root within as many steps as there are names.
    pub fn get_absolute_path(&self, inode: Inode) -> (r: Option<Vec<u8>>)
        requires
            self.wf(),
        ensures
            r matches Some(p) ==> spec_path_of(self.names(), inode, self.size()) == Some(p@),
            r is None ==> spec_path_of(self.names(), inode, self.size()) is None,
    {
        self.path_of(inode, self.inode_to_names.len())
    }

    /// The parent of the name of `inode`, if it has one.
    pub fn parent_of(&self, inode: Inode) -> (r: Option<Inode>)
        requires
            self.wf(),
        ensures
            r == (if self.names().contains_key(inode) {
                Some(self.names()[inode].0)
            } else {
                None
            }),
    {
        match self.find_inode(inode) {
            Some(i) => Some(self.inode_to_names[i].1.parent),
            None => None,
        }
    }

    /// The inode of the name `(parent, name)`: the one it was given, or else a
    /// new one, which the name is then given.
    pub fn get_or_insert(&mut self, parent: Inode, name: &[u8]) -> (r: Inode)
        requires
            old(self).wf(),
            old(self).room() >= 1,
        ensures
            final(self).wf(),
            final(self).room() >= old(self).room() - 1,
            r == name_inode(old(self).inodes(), (parent, name@), old(self).next_inode()),
            final(self).names() == names_with_name(old(self).names(), old(self).inodes(), (parent, name@), old(self).next_inode()),
            final(self).inodes() == inodes_with_name(old(self).inodes(), (parent, name@), old(self).next_inode()),
            old(self).inodes().contains_key((parent, name@)) ==> final(self).next_inode() == old(self).next_inode() && final(self).room() == old(self).room(),
            !old(self).inodes().contains_key((parent, name@)) ==> !old(self).names().contains_key(r),
            final(self).inode_state() == state_with_name(old(self).inode_state(), old(self).inodes(), (parent, name@)),
    {
        match self.find_name(parent, name) {
            Some(j) => self.name_to_inode[j].1,
            None => self.insert_name(Name::new(parent, name)),
        }
    }
}


/// The manager `new` holds the same names and index as `old`.
pub open spec fn kept(old: InodeNameManager, new: InodeNameManager) -> bool {
    &&& new.names() == old.names()
    &&& new.inodes() == old.inodes()
    &&& new.inode_state() == old.inode_state()
}

/// The manager `new` is `old` with the name `key` dropped (see
/// [`InodeNameManager::remove_name`]).
pub open spec fn dropped(old: InodeNameManager, new: InodeNameManager, key: NameKey) -> bool {
    &&& new.names() == names_without_name(old.names(), old.inodes(), key)
    &&& new.inodes() == old.inodes().remove(key)
    &&& new.inode_state() == state_without_name(old.inode_state(), old.inodes(), key)
}

/// The manager `new` is `old` with the name `key` given an inode (see
/// [`InodeNameManager::get_or_insert`]).
pub open spec fn named(old: InodeNameManager, new: InodeNameManager, key: NameKey) -> bool {
    &&& new.names() == names_with_name(old.names(), old.inodes(), key, old.next_inode())
    &&& new.inodes() == inodes_with_name(old.inodes(), key, old.next_inode())
    &&& new.inode_state() == state_with_name(old.inode_state(), old.inodes(), key)
}

/// The inode the name `key` gets in `m`.
pub open spec fn inode_for(m: InodeNameManager, key: NameKey) -> u64 {
    name_inode(m.inodes(), key, m.next_inode())
}

/// The reply to an entry request for the file numbered `inode`.
pub open spec fn spec_entry_reply(inode: Inode, entry: ReplyEntry) -> raw::ReplyEntry {
    raw::ReplyEntry { ttl: entry.ttl, attr: spec_into_file_attr(inode, entry.attr), generation: 0 }
}

/// The reply to a create request for the file numbered `inode`.
pub open spec fn spec_created_reply(inode: Inode, created: ReplyCreated) -> raw::ReplyCreated {
    raw::ReplyCreated {
        ttl: created.ttl,
        attr: spec_into_file_attr(inode, created.attr),
        generation: 0,
        fh: created.fh,
        flags: created.flags,
    }
}

/// The name `.`.
pub open spec fn dot() -> Seq<u8> {
    seq![46u8]
}

/// The name `..`.
pub open spec fn dot_dot() -> Seq<u8> {
    seq![46u8, 46u8]
}

/// The inode of the directory entry `name` read in the directory `parent`:
/// the directory itself for `.`, its parent for `..`, else the inode the
/// name gets.
pub open spec fn spec_dir_entry_inode(m: InodeNameManager, parent: Inode, name: Seq<u8>) -> Inode {
    if name == dot() {
        parent
    } else if name == dot_dot() {
        m.names()[parent].0
    } else {
        inode_for(m, (parent, name))
    }
}

/// The reply to an attribute request for the file numbered `inode`.
pub open spec fn spec_attr_reply(inode: Inode, attr: ReplyAttr) -> raw::ReplyAttr {
    raw::ReplyAttr { ttl: attr.ttl, attr: spec_into_file_attr(inode, attr.attr) }
}

/// The replies a path filesystem's answers become name the file by the
/// inode the bridge gave it, with generation zero, and keep the answer's
/// TTL, owner, group, size, kind and permissions (and for a create, its file
/// handle and flags).
pub proof fn lemma_path_replies_keep_answers(
    inode: Inode,
    entry: ReplyEntry,
    created: ReplyCreated,
    attr: ReplyAttr,
)
    ensures
        spec_entry_reply(inode, entry).ttl == entry.ttl,
        spec_entry_reply(inode, entry).generation == 0,
        spec_entry_reply(inode, entry).attr.ino == inode,
        spec_entry_reply(inode, entry).attr.uid == entry.attr.uid,
        spec_entry_reply(inode, entry).attr.gid == entry.attr.gid,
        spec_entry_reply(inode, entry).attr.size == entry.attr.size,
        spec_entry_reply(inode, entry).attr.kind == entry.attr.kind,
        spec_entry_reply(inode, entry).attr.perm == entry.attr.perm,
        spec_created_reply(inode, created).ttl == created.ttl,
        spec_created_reply(inode, created).generation == 0,
        spec_created_reply(inode, created).attr.ino == inode,
        spec_created_reply(inode, created).attr.uid == created.attr.uid,
        spec_created_reply(inode, created).attr.gid == created.attr.gid,
        spec_created_reply(inode, created).attr.size == created.attr.size,
        spec_created_reply(inode, created).attr.kind == created.attr.kind,
        spec_created_reply(inode, created).attr.perm == created.attr.perm,
        spec_created_reply(inode, created).fh == created.fh,
        spec_created_reply(inode, created).flags == created.flags,
        spec_attr_reply(inode, attr).ttl == attr.ttl,
        spec_attr_reply(inode, attr).attr.ino == inode,
        spec_attr_reply(inode, attr).attr.uid == attr.attr.uid,
        spec_attr_reply(inode, attr).attr.gid == attr.attr.gid,
        spec_attr_reply(inode, attr).attr.size == attr.attr.size,
        spec_attr_reply(inode, attr).attr.kind == attr.attr.kind,
        spec_attr_reply(inode, attr).attr.perm == attr.attr.perm,
{
}

/// The attribute reply for the file numbered `inode`, from the filesystem's answer.
pub fn reply_attr(inode: Inode, result: Result<ReplyAttr>) -> (r: Result<raw::ReplyAttr>)
    ensures
        r == (match result {
            Ok(attr) => Ok(spec_attr_reply(inode, attr)),
            Err(e) => Err(e),
        }),
{
    match result {
        Ok(attr) => Ok(raw::ReplyAttr { ttl: attr.ttl, attr: into_file_attr(inode, &attr.attr) }),
        Err(e) => Err(e),
    }
}

impl InodeNameManager {
    /// The path of the directory `parent`, or the error for a missing one.
    pub fn parent_path(&self, parent: Inode) -> (r: Result<Vec<u8>>)
        requires
            self.wf(),
        ensures
            r matches Ok(p) ==> spec_path_of(self.names(), parent, self.size()) == Some(p@),
            r matches Err(e) ==> e.0 == ENOENT && spec_path_of(self.names(), parent, self.size())
                is None,
    {
        match self.get_absolute_path(parent) {
            Some(p) => Ok(p),
            None => Err(Errno::new_not_exist()),
        }
    }

    /// An entry reply from the filesystem's answer about the name `(parent,
    /// name)`: on success the name gets an inode; on the error `drop_on` the
    /// name is dropped.
    fn entry_done(&mut self, parent: Inode, name: &[u8], result: Result<ReplyEntry>, drop_on: i32) -> (r: Result<raw::ReplyEntry>)
        requires
            old(self).wf(),
            old(self).room() >= 1,
        ensures
            final(self).wf(),
            final(self).room() >= old(self).room() - 1,
            match result {
                Ok(entry) => {
                    &&& r == Ok::<raw::ReplyEntry, Errno>(spec_entry_reply(inode_for(*old(self), (parent, name@)), entry))
                    &&& named(*old(self), *final(self), (parent, name@))
                },
                Err(e) => {
                    &&& r == Err::<raw::ReplyEntry, Errno>(e)
                    &&& e.0 == drop_on ==> dropped(*old(self), *final(self), (parent, name@))
                    &&& e.0 != drop_on ==> kept(*old(self), *final(self))
                },
            },
    {
        match result {
            Err(e) => {
                if e.0 == drop_on {
                    let n = Name::new(parent, name);
                    self.remove_name(&n);
                }
                Err(e)
            },
            Ok(entry) => {
                let inode = self.get_or_insert(parent, name);
                Ok(raw::ReplyEntry { ttl: entry.ttl, attr: into_file_attr(inode, &entry.attr), generation: 0 })
            },
        }
    }

    /// The reply to a lookup of `name` in `parent` from the filesystem's
    /// answer: a found name gets an inode, a missing one is dropped.
    pub fn reply_lookup(&mut self, parent: Inode, name: &[u8], result: Result<ReplyEntry>) -> (r: Result<raw::ReplyEntry>)
        requires
            old(self).wf(),
            old(self).room() >= 1,
        ensures
            final(self).wf(),
            final(self).room() >= old(self).room() - 1,
            match result {
                Ok(entry) => {
                    &&& r == Ok::<raw::ReplyEntry, Errno>(spec_entry_reply(inode_for(*old(self), (parent, name@)), entry))
                    &&& named(*old(self), *final(self), (parent, name@))
                },
                Err(e) => {
                    &&& r == Err::<raw::ReplyEntry, Errno>(e)
                    &&& e.0 == ENOENT ==> dropped(*old(self), *final(self), (parent, name@))
                    &&& e.0 != ENOENT ==> kept(*old(self), *final(self))
                },
            },
    {
        self.entry_done(parent, name, result, ENOENT)
    }

    /// The reply to a symlink `name` made in `parent`: a made link gets an
    /// inode, a missing name is dropped.
    pub fn reply_symlink(&mut self, parent: Inode, name: &[u8], result: Result<ReplyEntry>) -> (r: Result<raw::ReplyEntry>)
        requires
            old(self).wf(),
            old(self).room() >= 1,
        ensures
            final(self).wf(),
            final(self).room() >= old(self).room() - 1,
            match result {
                Ok(entry) => {
                    &&& r == Ok::<raw::ReplyEntry, Errno>(spec_entry_reply(inode_for(*old(self), (parent, name@)), entry))
                    &&& named(*old(self), *final(self), (parent, name@))
                },
                Err(e) => {
                    &&& r == Err::<raw::ReplyEntry, Errno>(e)
                    &&& e.0 == ENOENT ==> dropped(*old(self), *final(self), (parent, name@))
                    &&& e.0 != ENOENT ==> kept(*old(self), *final(self))
                },
            },
    {
        self.entry_done(parent, name, result, ENOENT)
    }

    /// The reply to a node `name` made in `parent`: a made node gets an
    /// inode; on `EEXIST` the name is dropped.
    pub fn reply_mknod(&mut self, parent: Inode, name: &[u8], result: Result<ReplyEntry>) -> (r: Result<raw::ReplyEntry>)
        requires
            old(self).wf(),
            old(self).room() >= 1,
        ensures
            final(self).wf(),
            final(self).room() >= old(self).room() - 1,
            match result {
                Ok(entry) => {
                    &&& r == Ok::<raw::ReplyEntry, Errno>(spec_entry_reply(inode_for(*old(self), (parent, name@)), entry))
                    &&& named(*old(self), *final(self), (parent, name@))
                },
                Err(e) => {
                    &&& r == Err::<raw::ReplyEntry, Errno>(e)
                    &&& e.0 == EEXIST ==> dropped(*old(self), *final(self), (parent, name@))
                    &&& e.0 != EEXIST ==> kept(*old(self), *final(self))
                },
            },
    {
        self.entry_done(parent, name, result, EEXIST)
    }

    /// The reply to a directory `name` made in `parent`: a made directory gets
    /// an inode; on `EEXIST` the name is dropped.
    pub fn reply_mkdir(&mut self, parent: Inode, name: &[u8], result: Result<ReplyEntry>) -> (r: Result<raw::ReplyEntry>)
        requires
            old(self).wf(),
            old(self).room() >= 1,
        ensures
            final(self).wf(),
            final(self).room() >= old(self).room() - 1,
            match result {
                Ok(entry) => {
                    &&& r == Ok::<raw::ReplyEntry, Errno>(spec_entry_reply(inode_for(*old(self), (parent, name@)), entry))
                    &&& named(*old(self), *final(self), (parent, name@))
                },
                Err(e) => {
                    &&& r == Err::<raw::ReplyEntry, Errno>(e)
                    &&& e.0 == EEXIST ==> dropped(*old(self), *final(self), (parent, name@))
                    &&& e.0 != EEXIST ==> kept(*old(self), *final(self))
                },
            },
    {
        self.entry_done(parent, name, result, EEXIST)
    }

    /// After a removal of `name` from `parent`: on success, or on the error
    /// `missing`, the name is dropped; on the error `kept_on` (the name is
    /// there but of the other kind) it gets an inode.
    fn removal_done(&mut self, parent: Inode, name: &[u8], result: Result<()>, kept_on: i32) -> (r: Result<()>)
        requires
            old(self).wf(),
            old(self).room() >= 1,
            kept_on != ENOENT,
        ensures
            final(self).wf(),
            final(self).room() >= old(self).room() - 1,
            r == result,
            match result {
                Ok(()) => dropped(*old(self), *final(self), (parent, name@)),
                Err(e) => {
                    &&& e.0 == ENOENT ==> dropped(*old(self), *final(self), (parent, name@))
                    &&& e.0 == kept_on ==> named(*old(self), *final(self), (parent, name@))
                    &&& e.0 != ENOENT && e.0 != kept_on ==> kept(*old(self), *final(self))
                },
            },
    {
        match &result {
            Err(e) => {
                if e.is_not_exist() {
                    self.remove_name(&Name::new(parent, name));
                } else if e.0 == kept_on {
                    self.get_or_insert(parent, name);
                }
            },
            Ok(()) => {
                self.remove_name(&Name::new(parent, name));
            },
        }
        result
    }

    /// After an unlink of `name` in `parent`: on success or `ENOENT` the name
    /// is dropped; on `EISDIR` it gets an inode if it has none.
    pub fn reply_unlink(&mut self, parent: Inode, name: &[u8], result: Result<()>) -> (r: Result<()>)
        requires
            old(self).wf(),
            old(self).room() >= 1,
        ensures
            final(self).wf(),
            final(self).room() >= old(self).room() - 1,
            r == result,
            match result {
                Ok(()) => dropped(*old(self), *final(self), (parent, name@)),
                Err(e) => {
                    &&& e.0 == ENOENT ==> dropped(*old(self), *final(self), (parent, name@))
                    &&& e.0 == EISDIR ==> named(*old(self), *final(self), (parent, name@))
                    &&& e.0 != ENOENT && e.0 != EISDIR ==> kept(*old(self), *final(self))
                },
            },
    {
        self.removal_done(parent, name, result, EISDIR)
    }

    /// After an rmdir of `name` in `parent`: on success or `ENOENT` the name is
    /// dropped; on `ENOTDIR` it gets an inode if it has none.
    pub fn reply_rmdir(&mut self, parent: Inode, name: &[u8], result: Result<()>) -> (r: Result<()>)
        requires
            old(self).wf(),
            old(self).room() >= 1,
        ensures
            final(self).wf(),
            final(self).room() >= old(self).room() - 1,
            r == result,
            match result {
                Ok(()) => dropped(*old(self), *final(self), (parent, name@)),
                Err(e) => {
                    &&& e.0 == ENOENT ==> dropped(*old(self), *final(self), (parent, name@))
                    &&& e.0 == ENOTDIR ==> named(*old(self), *final(self), (parent, name@))
                    &&& e.0 != ENOENT && e.0 != ENOTDIR ==> kept(*old(self), *final(self))
                },
            },
    {
        self.removal_done(parent, name, result, ENOTDIR)
    }
}


/// The manager `new` is `old` after the name `from` is dropped and the name
/// `to` is given an inode.
pub open spec fn renamed(old: InodeNameManager, new: InodeNameManager, from: NameKey, to: NameKey) -> bool {
    let names = names_without_name(old.names(), old.inodes(), from);
    let inodes = old.inodes().remove(from);
    let next = if old.inodes().contains_key(from) {
        old.inodes()[from]
    } else {
        old.next_inode()
    };
    &&& new.names() == names_with_name(names, inodes, to, next)
    &&& new.inodes() == inodes_with_name(inodes, to, next)
    &&& new.inode_state() == state_with_name(
        state_without_name(old.inode_state(), old.inodes(), from),
        inodes,
        to,
    )
}

/// The paths, on the way up through `names` within `fuel` steps, of those of
/// the inodes `list` that have one, in order.
pub open spec fn spec_paths_of(names: Map<u64, NameKey>, list: Seq<u64>, fuel: nat) -> Seq<Seq<u8>>
    decreases list.len(),
{
    if list.len() == 0 {
        Seq::empty()
    } else {
        let rest = spec_paths_of(names, list.drop_last(), fuel);
        match spec_path_of(names, list.last(), fuel) {
            Some(p) => rest.push(p),
            None => rest,
        }
    }
}

/// The names of inodes once each inode of `list` is forgotten in turn.
pub open spec fn names_after_forgets(names: Map<u64, NameKey>, list: Seq<u64>) -> Map<u64, NameKey>
    decreases list.len(),
{
    if list.len() == 0 {
        names
    } else {
        names_after_forgets(names, list.drop_last()).remove(list.last())
    }
}

/// The index of names once each inode of `list` is forgotten in turn.
pub open spec fn inodes_after_forgets(
    names: Map<u64, NameKey>,
    inodes: Map<NameKey, u64>,
    list: Seq<u64>,
) -> Map<NameKey, u64>
    decreases list.len(),
{
    if list.len() == 0 {
        inodes
    } else {
        inodes_without_inode(
            names_after_forgets(names, list.drop_last()),
            inodes_after_forgets(names, inodes, list.drop_last()),
            list.last(),
        )
    }
}

/// The generator state once each inode of `list` is released in turn.
pub open spec fn state_after_forgets(st: GeneratorState, list: Seq<u64>) -> GeneratorState
    decreases list.len(),
{
    if list.len() == 0 {
        st
    } else {
        state_after_release(state_after_forgets(st, list.drop_last()), list.last())
    }
}

impl InodeNameManager {
    /// After a rename of `name` in `parent` to `new_name` in `new_parent`:
    /// on success the old name is dropped and the new one gets an inode
    /// (the one just released, if the old name had one); on failure nothing
    /// changes.
    pub fn reply_rename(
        &mut self,
        parent: Inode,
        name: &[u8],
        new_parent: Inode,
        new_name: &[u8],
        result: Result<()>,
    ) -> (r: Result<()>)
        requires
            old(self).wf(),
            old(self).room() >= 1,
        ensures
            final(self).wf(),
            final(self).room() >= old(self).room() - 1,
            r == result,
            result is Ok ==> renamed(*old(self), *final(self), (parent, name@), (new_parent, new_name@)),
            result is Err ==> kept(*old(self), *final(self)),
    {
        if result.is_ok() {
            self.remove_name(&Name::new(parent, name));
            self.get_or_insert(new_parent, new_name);
        }
        result
    }

    /// After a link of an inode as `new_name` in `new_parent`: on success the
    /// new name gets an inode; on failure nothing changes.
    pub fn reply_link(&mut self, new_parent: Inode, new_name: &[u8], result: Result<ReplyEntry>) -> (r: Result<raw::ReplyEntry>)
        requires
            old(self).wf(),
            old(self).room() >= 1,
        ensures
            final(self).wf(),
            final(self).room() >= old(self).room() - 1,
            match result {
                Ok(entry) => {
                    &&& r == Ok::<raw::ReplyEntry, Errno>(spec_entry_reply(inode_for(*old(self), (new_parent, new_name@)), entry))
                    &&& named(*old(self), *final(self), (new_parent, new_name@))
                },
                Err(e) => {
                    &&& r == Err::<raw::ReplyEntry, Errno>(e)
                    &&& kept(*old(self), *final(self))
                },
            },
    {
        match result {
            Err(e) => Err(e),
            Ok(entry) => {
                let inode = self.get_or_insert(new_parent, new_name);
                Ok(raw::ReplyEntry { ttl: entry.ttl, attr: into_file_attr(inode, &entry.attr), generation: 0 })
            },
        }
    }

    /// After a create of `name` in `parent`: on success, or when the name
    /// turns out to exist already (`EEXIST`, `EISDIR`), the name gets an inode;
    /// on any other failure nothing changes.
    pub fn reply_create(&mut self, parent: Inode, name: &[u8], result: Result<ReplyCreated>) -> (r: Result<raw::ReplyCreated>)
        requires
            old(self).wf(),
            old(self).room() >= 1,
        ensures
            final(self).wf(),
            final(self).room() >= old(self).room() - 1,
            match result {
                Ok(created) => {
                    &&& r == Ok::<raw::ReplyCreated, Errno>(spec_created_reply(inode_for(*old(self), (parent, name@)), created))
                    &&& named(*old(self), *final(self), (parent, name@))
                },
                Err(e) => {
                    &&& r == Err::<raw::ReplyCreated, Errno>(e)
                    &&& (e.0 == EEXIST || e.0 == EISDIR) ==> named(*old(self), *final(self), (parent, name@))
                    &&& !(e.0 == EEXIST || e.0 == EISDIR) ==> kept(*old(self), *final(self))
                },
            },
    {
        match result {
            Err(e) => {
                if e.is_exist() || e.is_dir() {
                    self.get_or_insert(parent, name);
                }
                Err(e)
            },
            Ok(created) => {
                let inode = self.get_or_insert(parent, name);
                Ok(raw::ReplyCreated {
                    ttl: created.ttl,
                    attr: into_file_attr(inode, &created.attr),
                    generation: 0,
                    fh: created.fh,
                    flags: created.flags,
                })
            },
        }
    }

    /// The inode of the entry `name` read in the directory `parent`.
    fn dir_entry_inode(&mut self, parent: Inode, name: &[u8]) -> (r: Inode)
        requires
            old(self).wf(),
            old(self).room() >= 1,
            name@ == dot_dot() ==> old(self).names().contains_key(parent),
        ensures
            final(self).wf(),
            final(self).room() >= old(self).room() - 1,
            r == spec_dir_entry_inode(*old(self), parent, name@),
            name@ == dot() || name@ == dot_dot() ==> kept(*old(self), *final(self)),
            !(name@ == dot() || name@ == dot_dot()) ==> named(*old(self), *final(self), (parent, name@)),
    {
        if name.len() == 1 && name[0] == 46 {
            assert(name@ =~= dot());
            parent
        } else if name.len() == 2 && name[0] == 46 && name[1] == 46 {
            assert(name@ =~= dot_dot());
            match self.parent_of(parent) {
                Some(p) => p,
                None => {
                    assert(false);
                    0
                },
            }
        } else {
            assert(name@ != dot()) by {
                if name@ == dot() {
                    assert(name@.len() == 1 && name@[0] == 46);
                }
            }
            assert(name@ != dot_dot()) by {
                if name@ == dot_dot() {
                    assert(name@.len() == 2 && name@[0] == 46 && name@[1] == 46);
                }
            }
            self.get_or_insert(parent, name)
        }
    }

    /// The directory entry read in `parent`, with its inode: `parent` for `.`,
    /// the parent's parent for `..`, else the inode its name gets.
    pub fn readdir_entry(&mut self, parent: Inode, entry: &DirectoryEntry) -> (r: raw::DirectoryEntry)
        requires
            old(self).wf(),
            old(self).room() >= 1,
            entry.name@ == dot_dot() ==> old(self).names().contains_key(parent),
        ensures
            final(self).wf(),
            final(self).room() >= old(self).room() - 1,
            r.inode == spec_dir_entry_inode(*old(self), parent, entry.name@),
            r.kind == entry.kind,
            r.name@ == entry.name@,
            r.offset == entry.offset,
            entry.name@ == dot() || entry.name@ == dot_dot() ==> kept(*old(self), *final(self)),
            !(entry.name@ == dot() || entry.name@ == dot_dot()) ==> named(*old(self), *final(self), (parent, entry.name@)),
    {
        let inode = self.dir_entry_inode(parent, entry.name.as_slice());
        raw::DirectoryEntry {
            inode,
            kind: entry.kind,
            name: copy_bytes(entry.name.as_slice()),
            offset: entry.offset,
        }
    }

    /// The directory entry with attributes read in `parent`, with its inode
    /// as for [`Self::readdir_entry`] and generation zero.
    pub fn readdirplus_entry(&mut self, parent: Inode, entry: &DirectoryEntryPlus) -> (r: raw::DirectoryEntryPlus)
        requires
            old(self).wf(),
            old(self).room() >= 1,
            entry.name@ == dot_dot() ==> old(self).names().contains_key(parent),
        ensures
            final(self).wf(),
            final(self).room() >= old(self).room() - 1,
            r.inode == spec_dir_entry_inode(*old(self), parent, entry.name@),
            r.generation == 0,
            r.kind == entry.kind,
            r.name@ == entry.name@,
            r.offset == entry.offset,
            r.attr == spec_into_file_attr(r.inode, entry.attr),
            r.entry_ttl == entry.entry_ttl,
            r.attr_ttl == entry.attr_ttl,
            entry.name@ == dot() || entry.name@ == dot_dot() ==> kept(*old(self), *final(self)),
            !(entry.name@ == dot() || entry.name@ == dot_dot()) ==> named(*old(self), *final(self), (parent, entry.name@)),
    {
        let inode = self.dir_entry_inode(parent, entry.name.as_slice());
        raw::DirectoryEntryPlus {
            inode,
            generation: 0,
            kind: entry.kind,
            name: copy_bytes(entry.name.as_slice()),
            offset: entry.offset,
            attr: into_file_attr(inode, &entry.attr),
            entry_ttl: entry.entry_ttl,
            attr_ttl: entry.attr_ttl,
        }
    }

    /// Forgets `inode` if it has a path: its name is dropped, the inode
    /// released, and the path returned for the filesystem to forget. Without
    /// a path nothing changes.
    pub fn forget(&mut self, inode: Inode) -> (r: Option<Vec<u8>>)
        requires
            old(self).wf(),
        ensures
            final(self).wf(),
            final(self).room() == old(self).room(),
            r matches Some(p) ==> spec_path_of(old(self).names(), inode, old(self).size()) == Some(p@)
                && final(self).names() == old(self).names().remove(inode)
                && final(self).inodes() == inodes_without_inode(old(self).names(), old(self).inodes(), inode)
                && final(self).inode_state() == state_after_release(old(self).inode_state(), inode)
                && forall|k: NameKey| #[trigger] final(self).inodes().contains_key(k) ==> final(self).inodes()[k] != inode,
            r is None ==> spec_path_of(old(self).names(), inode, old(self).size()) is None
                && kept(*old(self), *final(self)),
    {
        let path = self.get_absolute_path(inode);
        if path.is_some() {
            self.remove_inode(inode);
        }
        path
    }

    /// Forgets the inodes `inodes`: returns the paths of those that have one
    /// (for the filesystem to forget), then drops each one's name and
    /// releases it, whether it had a path or not.
    pub fn batch_forget(&mut self, inodes: &[u64]) -> (r: Vec<Vec<u8>>)
        requires
            old(self).wf(),
        ensures
            final(self).wf(),
            final(self).room() == old(self).room(),
            r@.map_values(|p: Vec<u8>| p@) == spec_paths_of(old(self).names(), inodes@, old(self).size()),
            final(self).names() == names_after_forgets(old(self).names(), inodes@),
            final(self).inodes() == inodes_after_forgets(old(self).names(), old(self).inodes(), inodes@),
            final(self).inode_state() == state_after_forgets(old(self).inode_state(), inodes@),
            forall|i: int| 0 <= i < inodes@.len() ==> !final(self).names().contains_key(#[trigger] inodes@[i]),
            forall|k: NameKey, i: int| 0 <= i < inodes@.len() && #[trigger] final(self).inodes().contains_key(k)
                ==> final(self).inodes()[k] != #[trigger] inodes@[i],
    {
        let ghost old_self = *self;
        let mut paths: Vec<Vec<u8>> = Vec::new();
        let mut i: usize = 0;
        while i < inodes.len()
            invariant
                self.wf(),
                *self == old_self,
                i <= inodes@.len(),
                paths@.map_values(|p: Vec<u8>| p@) == spec_paths_of(old_self.names(), inodes@.take(i as int), old_self.size()),
            decreases inodes@.len() - i,
        {
            let ghost before = paths@;
            let found = self.get_absolute_path(inodes[i]);
            assert(inodes@.take(i as int + 1).drop_last() =~= inodes@.take(i as int));
            match found {
                Some(p) => {
                    paths.push(p);
                    assert(paths@.map_values(|p: Vec<u8>| p@) =~= before.map_values(|p: Vec<u8>| p@).push(paths@.last()@));
                },
                None => {},
            }
            i = i + 1;
        }
        assert(inodes@.take(inodes@.len() as int) =~= inodes@);
        let mut i: usize = 0;
        while i < inodes.len()
            invariant
                self.wf(),
                self.room() == old_self.room(),
                i <= inodes@.len(),
                self.names() == names_after_forgets(old_self.names(), inodes@.take(i as int)),
                self.inodes() == inodes_after_forgets(old_self.names(), old_self.inodes(), inodes@.take(i as int)),
                self.inode_state() == state_after_forgets(old_self.inode_state(), inodes@.take(i as int)),
                forall|j: int| 0 <= j < i ==> !self.names().contains_key(#[trigger] inodes@[j]),
            decreases inodes@.len() - i,
        {
            self.remove_inode(inodes[i]);
            assert(inodes@.take(i as int + 1).drop_last() =~= inodes@.take(i as int));
            i = i + 1;
        }
        proof {
            self.lemma_maps_agree();
        }
        paths
    }
}


/// A name that has been given an inode keeps it: once `key` is named, naming
/// it again changes nothing and gives the same inode, and that inode's name
/// is `key`.
pub proof fn lemma_named_is_stable(m0: InodeNameManager, m1: InodeNameManager, m2: InodeNameManager, key: NameKey)
    requires
        m0.wf(),
        m1.wf(),
        named(m0, m1, key),
        named(m1, m2, key),
    ensures
        m1.inodes().contains_key(key),
        m1.inodes()[key] == inode_for(m0, key),
        inode_for(m1, key) == inode_for(m0, key),
        m1.names()[inode_for(m0, key)] == key,
        kept(m1, m2),
{
}

/// A dropped name leads to no inode, and the inode it led to has no name.
pub proof fn lemma_dropped_is_gone(m0: InodeNameManager, m1: InodeNameManager, key: NameKey)
    requires
        m0.wf(),
        dropped(m0, m1, key),
    ensures
        !m1.inodes().contains_key(key),
        m0.inodes().contains_key(key) ==> !m1.names().contains_key(m0.inodes()[key]),
{
}

/// A rename to a name that leads to no inode yet gives the new name the inode
/// the old name had (the number released is the next one handed out).
pub proof fn lemma_rename_keeps_inode(m0: InodeNameManager, m1: InodeNameManager, from: NameKey, to: NameKey)
    requires
        m0.wf(),
        renamed(m0, m1, from, to),
        m0.inodes().contains_key(from),
        !m0.inodes().contains_key(to) || to == from,
    ensures
        m1.inodes().contains_key(to),
        m1.inodes()[to] == m0.inodes()[from],
        m1.names()[m0.inodes()[from]] == to,
        !m1.inodes().contains_key(from) || from == to,
{
}


/// The inodes met going up `k` steps from `x` through `names`, `x` first.
pub open spec fn walk_up(names: Map<u64, NameKey>, x: u64, k: nat) -> Seq<u64>
    decreases k,
{
    if k == 0 {
        seq![x]
    } else {
        seq![x] + walk_up(names, names[x].0, (k - 1) as nat)
    }
}

/// Each inode met going up is the parent of the one met before it.
proof fn lemma_walk_up_step(names: Map<u64, NameKey>, x: u64, k: nat, j: int)
    requires
        0 <= j < k,
    ensures
        walk_up(names, x, k).len() == k + 1,
        walk_up(names, x, k)[j + 1] == names[walk_up(names, x, k)[j]].0,
    decreases k,
{
    lemma_walk_up_len(names, x, k);
    if j == 0 {
        if k > 1 {
            lemma_walk_up_len(names, names[x].0, (k - 1) as nat);
        }
        assert(walk_up(names, x, k)[1] == walk_up(names, names[x].0, (k - 1) as nat)[0]);
    } else {
        lemma_walk_up_step(names, names[x].0, (k - 1) as nat, j - 1);
        lemma_walk_up_len(names, names[x].0, (k - 1) as nat);
    }
}

proof fn lemma_walk_up_len(names: Map<u64, NameKey>, x: u64, k: nat)
    ensures
        walk_up(names, x, k).len() == k + 1,
        walk_up(names, x, k)[0] == x,
    decreases k,
{
    if k > 0 {
        lemma_walk_up_len(names, names[x].0, (k - 1) as nat);
    }
}

/// A path found within `fuel` steps is found within some `k <= fuel` steps
/// along a way up that meets no inode twice, meets only named inodes, and
/// ends at a name whose parent is the root.
proof fn lemma_path_short_walk(names: Map<u64, NameKey>, x: u64, fuel: nat) -> (k: nat)
    requires
        spec_path_of(names, x, fuel) is Some,
    ensures
        k <= fuel,
        spec_path_of(names, x, k) == spec_path_of(names, x, fuel),
        walk_up(names, x, k).no_duplicates(),
        forall|j: int| 0 <= j <= k ==> names.contains_key(#[trigger] walk_up(names, x, k)[j]),
        names[walk_up(names, x, k)[k as int]].0 == ROOT_INODE,
    decreases fuel,
{
    lemma_walk_up_len(names, x, 0);
    if names[x].0 == ROOT_INODE {
        0
    } else {
        let y = names[x].0;
        let k1 = lemma_path_short_walk(names, y, (fuel - 1) as nat);
        let k = k1 + 1;
        let w1 = walk_up(names, y, k1);
        let w = walk_up(names, x, k);
        lemma_walk_up_len(names, y, k1);
        lemma_walk_up_len(names, x, k);
        assert(w =~= seq![x] + w1);
        assert(!w1.contains(x)) by {
            if w1.contains(x) {
                let j = choose|j: int| 0 <= j < w1.len() && w1[j] == x;
                if j == k1 {
                    assert(names[w1[k1 as int]].0 == ROOT_INODE);
                } else {
                    lemma_walk_up_step(names, y, k1, j);
                    assert(w1[j + 1] == y);
                    assert(w1[0] == y);
                }
            }
        }
        assert(w.no_duplicates()) by {
            assert forall|a: int, b: int| 0 <= a < b < w.len() implies w[a] != w[b] by {
                if a == 0 {
                    assert(w[b] == w1[b - 1]);
                } else {
                    assert(w[a] == w1[a - 1]);
                    assert(w[b] == w1[b - 1]);
                }
            }
        }
        assert forall|j: int| 0 <= j <= k implies names.contains_key(#[trigger] w[j]) by {
            if j > 0 {
                assert(w[j] == w1[j - 1]);
            }
        }
        assert(w[k as int] == w1[k1 as int]);
        k
    }
}

/// A path found within `k` steps is found, the same, within more.
proof fn lemma_path_more_fuel(names: Map<u64, NameKey>, x: u64, k: nat, fuel: nat)
    requires
        spec_path_of(names, x, k) is Some,
        k <= fuel,
    ensures
        spec_path_of(names, x, fuel) == spec_path_of(names, x, k),
    decreases k,
{
    if names[x].0 != ROOT_INODE {
        lemma_path_more_fuel(names, names[x].0, (k - 1) as nat, (fuel - 1) as nat);
    }
}

impl InodeNameManager {
    /// There are no more names than entries held.
    proof fn lemma_names_within_size(&self)
        requires
            self.wf(),
        ensures
            self.names().dom().finite(),
            self.names().dom().len() <= self.size(),
    {
        let inodes_held = self.inode_to_names@.map_values(|e: (Inode, Name)| e.0);
        assert(self.names_view@.dom().subset_of(inodes_held.to_set())) by {
            assert forall|n: u64| self.names_view@.dom().contains(n) implies inodes_held.to_set().contains(n) by {
                let i = choose|i: int| 0 <= i < self.inode_to_names@.len() && #[trigger] self.inode_to_names@[i].0 == n;
                assert(inodes_held[i] == n);
            }
        }
        inodes_held.lemma_cardinality_of_set();
        vstd::set_lib::lemma_len_subset(self.names_view@.dom(), inodes_held.to_set());
    }
}

/// Whatever number of steps up finds the path of an inode, as many steps as
/// there are names find the same path: the way up to the root meets no inode
/// twice. So [`InodeNameManager::get_absolute_path`] gives the path of every
/// inode whose chain of parents reaches the root.
pub proof fn lemma_path_found_within_size(m: InodeNameManager, inode: Inode, fuel: nat)
    requires
        m.wf(),
        spec_path_of(m.names(), inode, fuel) is Some,
    ensures
        spec_path_of(m.names(), inode, m.size()) == spec_path_of(m.names(), inode, fuel),
{
    let names = m.names();
    let k = lemma_path_short_walk(names, inode, fuel);
    let w = walk_up(names, inode, k);
    lemma_walk_up_len(names, inode, k);
    m.lemma_names_within_size();
    w.unique_seq_to_set();
    assert(w.to_set().subset_of(names.dom())) by {
        assert forall|n: u64| w.to_set().contains(n) implies names.dom().contains(n) by {
            let j = choose|j: int| 0 <= j < w.len() && w[j] == n;
            assert(names.contains_key(w[j]));
        }
    }
    vstd::set_lib::lemma_len_subset(w.to_set(), names.dom());
    lemma_path_more_fuel(names, inode, k, m.size());
}


/// A path found through `names` is found the same once a new inode is named.
proof fn lemma_path_kept_by_insert(names: Map<u64, NameKey>, n: u64, key: NameKey, x: u64, fuel: nat)
    requires
        !names.contains_key(n),
        spec_path_of(names, x, fuel) is Some,
    ensures
        spec_path_of(names.insert(n, key), x, fuel) == spec_path_of(names, x, fuel),
    decreases fuel,
{
    if names[x].0 != ROOT_INODE {
        lemma_path_kept_by_insert(names, n, key, names[x].0, (fuel - 1) as nat);
    }
}

/// Once the name `(parent, name)` has an inode, the path of that inode is the
/// path of `parent` (`/` for the root) with `name` pushed on, one step further
/// up than the parent's path was found.
pub proof fn lemma_named_path(m0: InodeNameManager, m1: InodeNameManager, parent: Inode, name: Seq<u8>, fuel: nat)
    requires
        m0.wf(),
        m1.wf(),
        named(m0, m1, (parent, name)),
        parent != ROOT_INODE ==> spec_path_of(m0.names(), parent, fuel) is Some,
    ensures
        spec_path_of(m1.names(), inode_for(m0, (parent, name)), fuel + 1) == Some(
            spec_path_push(
                if parent == ROOT_INODE {
                    root_path()
                } else {
                    spec_path_of(m0.names(), parent, fuel)->0
                },
                name,
            ),
        ),
{
    let key = (parent, name);
    let i = inode_for(m0, key);
    if !m0.inodes().contains_key(key) {
        if parent != ROOT_INODE {
            lemma_path_kept_by_insert(m0.names(), i, key, parent, fuel);
        }
    }
    assert(m1.names().contains_key(i) && m1.names()[i] == key);
}

} // verus!
