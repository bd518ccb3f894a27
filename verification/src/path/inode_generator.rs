//! Inode numbers for the path based filesystem: handed out from one upwards,
//! and given out again, last released first, once released.

use crate::Inode;
use vstd::prelude::*;

verus! {

/// Hands out inode numbers. Zero is never handed out.
#[derive(Debug)]
pub struct InodeGenerator {
    /// the lowest number never handed out.
    next: u64,
    /// numbers released and not handed out again, the last released at the end.
    released: Vec<u64>,
}

/// What a generator holds: the lowest number never handed out, and the
/// numbers released and not handed out again, the last released last.
pub type GeneratorState = (u64, Seq<u64>);

/// The numbers handed out and not released.
pub open spec fn state_allocated(st: GeneratorState) -> Set<u64> {
    Set::new(|i: u64| 1 <= i < st.0 && !st.1.contains(i))
}

/// The number the next allocation hands out: the last one released, or else
/// the lowest never handed out.
pub open spec fn state_next(st: GeneratorState) -> u64 {
    if st.1.len() > 0 {
        st.1.last()
    } else {
        st.0
    }
}

/// The state after one number is handed out.
pub open spec fn state_after_allocate(st: GeneratorState) -> GeneratorState {
    if st.1.len() > 0 {
        (st.0, st.1.drop_last())
    } else {
        ((st.0 + 1) as u64, st.1)
    }
}

/// The state after `inode` is released: put last among the released numbers
/// if it was handed out, else unchanged.
pub open spec fn state_after_release(st: GeneratorState, inode: u64) -> GeneratorState {
    if state_allocated(st).contains(inode) {
        (st.0, st.1.push(inode))
    } else {
        st
    }
}

impl InodeGenerator {
    /// What this generator holds.
    pub closed spec fn state(&self) -> GeneratorState {
        (self.next, self.released@)
    }

    /// The numbers handed out and not released.
    pub open spec fn allocated(&self) -> Set<u64> {
        state_allocated(self.state())
    }

    /// The number the next allocation hands out.
    pub open spec fn next_inode(&self) -> u64 {
        state_next(self.state())
    }

    /// Another number can be handed out.
    pub open spec fn can_allocate(&self) -> bool {
        self.state().1.len() > 0 || self.state().0 < u64::MAX
    }

    /// How many numbers above all those handed out so far can still be handed out.
    pub open spec fn room(&self) -> int {
        u64::MAX - self.state().0
    }

    /// Room for one more number means one can be handed out.
    pub proof fn lemma_room(&self)
        ensures
            self.room() >= 1 ==> self.can_allocate(),
            self.room() >= 0,
    {
    }

    /// Internal consistency: the released numbers were handed out before, and
    /// each is released once.
    pub closed spec fn wf(&self) -> bool {
        &&& 1 <= self.next
        &&& forall|i: int|
            0 <= i < self.released@.len() ==> 1 <= #[trigger] self.released@[i] < self.next
        &&& self.released@.no_duplicates()
    }

    /// A generator that has handed out nothing.
    pub fn new() -> (r: Self)
        ensures
            r.wf(),
            r.allocated() == Set::<u64>::empty(),
            r.next_inode() == 1,
            r.can_allocate(),
            r.state() == (1u64, Seq::<u64>::empty()),
    {
        let r = InodeGenerator { next: 1, released: Vec::new() };
        assert(r.allocated() =~= Set::<u64>::empty());
        assert(r.released@ =~= Seq::<u64>::empty());
        r
    }

    /// How many numbers above all those handed out so far can still be handed out.
    pub fn room_left(&self) -> (r: u64)
        ensures
            r == self.room(),
    {
        u64::MAX - self.next
    }

    /// Whether another number can be handed out.
    pub fn has_free_inode(&self) -> (r: bool)
        ensures
            r == self.can_allocate(),
    {
        self.released.len() > 0 || self.next < u64::MAX
    }

    /// Hands out a number: the last one released, or else the lowest never
    /// handed out.
    pub fn allocate_inode(&mut self) -> (r: Inode)
        requires
            old(self).wf(),
            old(self).can_allocate(),
        ensures
            final(self).wf(),
            r == old(self).next_inode(),
            r != 0,
            !old(self).allocated().contains(r),
            final(self).allocated() == old(self).allocated().insert(r),
            final(self).room() >= old(self).room() - 1,
            final(self).state() == state_after_allocate(old(self).state()),
    {
        let ghost before = *self;
        match self.released.pop() {
            Some(inode) => {
                proof {
                    let n = before.released@.len() - 1;
                    assert(before.released@[n] == inode);
                    assert(self.released@ =~= before.released@.drop_last());
                    assert forall|i: int, j: int|
                        0 <= i < j < self.released@.len() implies self.released@[i]
                        != self.released@[j] by {
                        assert(self.released@[i] == before.released@[i]);
                        assert(self.released@[j] == before.released@[j]);
                    }
                    assert forall|i: int| 0 <= i < self.released@.len() implies 1
                        <= #[trigger] self.released@[i] < self.next by {
                        assert(self.released@[i] == before.released@[i]);
                    }
                    assert(!self.released@.contains(inode)) by {
                        if self.released@.contains(inode) {
                            let k = choose|k: int|
                                0 <= k < self.released@.len() && self.released@[k] == inode;
                            assert(before.released@[k] == before.released@[n]);
                        }
                    }
                    assert forall|x: u64| #[trigger] self.released@.contains(x) implies (x
                        != inode && before.released@.contains(x)) by {
                        let k = choose|k: int|
                            0 <= k < self.released@.len() && self.released@[k] == x;
                        assert(before.released@[k] == x);
                    }
                    assert forall|x: u64|
                        before.released@.contains(x) && x != inode implies #[trigger] self.released@.contains(x) by {
                        let k = choose|k: int|
                            0 <= k < before.released@.len() && before.released@[k] == x;
                        if k == n {
                        } else {
                            assert(self.released@[k] == x);
                        }
                    }
                    assert(before.released@.contains(inode)) by {
                        assert(before.released@[n] == inode);
                    }
                    assert(self.allocated() =~= before.allocated().insert(inode));
                }
                inode
            },
            None => {
                let inode = self.next;
                self.next = self.next + 1;
                proof {
                    assert(before.released@.len() == 0);
                    assert(self.allocated() =~= before.allocated().insert(inode));
                }
                inode
            },
        }
    }

    /// Releases `inode` for reuse, if it is handed out; otherwise does nothing.
    pub fn release_inode(&mut self, inode: Inode)
        requires
            old(self).wf(),
        ensures
            final(self).wf(),
            final(self).allocated() == old(self).allocated().remove(inode),
            old(self).allocated().contains(inode) ==> final(self).next_inode() == inode,
            !old(self).allocated().contains(inode) ==> *final(self) == *old(self),
            old(self).can_allocate() ==> final(self).can_allocate(),
            old(self).allocated().contains(inode) ==> final(self).can_allocate(),
            final(self).room() == old(self).room(),
            final(self).state() == state_after_release(old(self).state(), inode),
    {
        let ghost before = *self;
        if 1 <= inode && inode < self.next && !self.is_released(inode) {
            self.released.push(inode);
            proof {
                assert forall|i: int, j: int|
                    0 <= i < j < self.released@.len() implies self.released@[i]
                    != self.released@[j] by {
                    if j == self.released@.len() - 1 {
                        assert(self.released@[i] == before.released@[i]);
                        assert(before.released@.contains(self.released@[i]));
                    } else {
                        assert(self.released@[i] == before.released@[i]);
                        assert(self.released@[j] == before.released@[j]);
                    }
                }
                assert forall|i: int| 0 <= i < self.released@.len() implies 1
                    <= #[trigger] self.released@[i] < self.next by {
                    if i < before.released@.len() {
                        assert(self.released@[i] == before.released@[i]);
                    }
                }
                assert forall|x: u64| #[trigger] self.released@.contains(x) <==> (x == inode
                    || before.released@.contains(x)) by {
                    if self.released@.contains(x) {
                        let k = choose|k: int|
                            0 <= k < self.released@.len() && self.released@[k] == x;
                        if k < before.released@.len() {
                            assert(before.released@[k] == x);
                        }
                    }
                    if before.released@.contains(x) {
                        let k = choose|k: int|
                            0 <= k < before.released@.len() && before.released@[k] == x;
                        assert(self.released@[k] == x);
                    }
                    if x == inode {
                        assert(self.released@[self.released@.len() - 1] == inode);
                    }
                }
                assert(self.allocated() =~= before.allocated().remove(inode));
            }
        } else {
            proof {
                assert(!before.allocated().contains(inode));
                assert(before.allocated().remove(inode) =~= before.allocated());
            }
        }
    }

    /// Whether `inode` is among the released numbers.
    fn is_released(&self, inode: Inode) -> (r: bool)
        ensures
            r == self.released@.contains(inode),
    {
        let mut i: usize = 0;
        while i < self.released.len()
            invariant
                i <= self.released@.len(),
                forall|j: int| 0 <= j < i ==> self.released@[j] != inode,
            decreases self.released@.len() - i,
        {
            if self.released[i] == inode {
                return true;
            }
            i = i + 1;
        }
        false
    }
}

} // verus!
