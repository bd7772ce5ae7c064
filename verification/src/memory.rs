//! A memory that maps values to values.
use vstd::prelude::*;
use crate::relocatable::{MaybeRelocatable, MaybeRelocatableValue};

verus! {

/// A finite map from values to values.  The pairs are kept in a vector in
/// which no key occurs twice.
pub struct Memory {
    data: Vec<(MaybeRelocatable, MaybeRelocatable)>,
}

/// The map that a sequence of pairs gives when inserted from first to last:
/// a later pair replaces an earlier one with the same key.
pub open spec fn pairs_map(s: Seq<(MaybeRelocatable, MaybeRelocatable)>) -> Map<
    MaybeRelocatableValue,
    MaybeRelocatableValue,
>
    decreases s.len(),
{
    if s.len() == 0 {
        Map::empty()
    } else {
        pairs_map(s.drop_last()).insert(s.last().0@, s.last().1@)
    }
}

impl Memory {
    /// No key occurs twice.
    pub closed spec fn wf(&self) -> bool {
        forall|i: int, j: int|
            0 <= i < j < self.data@.len() ==> #[trigger] self.data@[i].0@ != #[trigger] self.data@[j].0@
    }

    pub closed spec fn view(&self) -> Map<MaybeRelocatableValue, MaybeRelocatableValue> {
        Map::new(
            |k: MaybeRelocatableValue|
                exists|i: int| 0 <= i < self.data@.len() && #[trigger] self.data@[i].0@ == k,
            |k: MaybeRelocatableValue|
                {
                    let i = choose|i: int| 0 <= i < self.data@.len() && #[trigger] self.data@[i].0@ == k;
                    self.data@[i].1@
                },
        )
    }

    /// The position of `key`, if it is there.
    fn find(&self, key: &MaybeRelocatable) -> (r: Option<usize>)
        requires
            self.wf(),
        ensures
            match r {
                Some(i) => i < self.data@.len() && self.data@[i as int].0@ == key@,
                None => forall|i: int| 0 <= i < self.data@.len() ==> #[trigger] self.data@[i].0@ != key@,
            },
    {
        let mut i: usize = 0;
        while i < self.data.len()
            invariant
                i <= self.data@.len(),
                forall|j: int| 0 <= j < i ==> #[trigger] self.data@[j].0@ != key@,
            decreases self.data@.len() - i,
        {
            if self.data[i].0.equals(key) {
                return Some(i);
            }
            i = i + 1;
        }
        None
    }

    proof fn lemma_view_at(&self, i: int)
        requires
            self.wf(),
            0 <= i < self.data@.len(),
        ensures
            self.view().contains_key(self.data@[i].0@),
            self.view()[self.data@[i].0@] == self.data@[i].1@,
    {
        let k = self.data@[i].0@;
        assert(self.data@[i].0@ == k);
        let j = choose|j: int| 0 <= j < self.data@.len() && #[trigger] self.data@[j].0@ == k;
        assert(i == j);
    }

    /// An empty memory.
    pub fn new() -> (r: Memory)
        ensures
            r.wf(),
            r.view() == Map::<MaybeRelocatableValue, MaybeRelocatableValue>::empty(),
    {
        let r = Memory { data: Vec::new() };
        assert(r.view() =~= Map::<MaybeRelocatableValue, MaybeRelocatableValue>::empty());
        r
    }

    /// Maps `key` to `val`, replacing what `key` was mapped to.
    pub fn insert(&mut self, key: &MaybeRelocatable, val: &MaybeRelocatable)
        requires
            old(self).wf(),
        ensures
            final(self).wf(),
            final(self).view() == old(self).view().insert(key@, val@),
    {
        let ghost before = self.view();
        match self.find(key) {
            Some(i) => {
                let ghost old_data = self.data@;
                let k = self.data[i].0.duplicate();
                self.data.set(i, (k, val.duplicate()));
                proof {
                    assert forall|a: int, b: int|
                        0 <= a < b < self.data@.len() implies #[trigger] self.data@[a].0@
                        != #[trigger] self.data@[b].0@ by {
                        assert(old_data[a].0@ == self.data@[a].0@);
                        assert(old_data[b].0@ == self.data@[b].0@);
                    }
                    assert forall|k2: MaybeRelocatableValue|
                        #![trigger self.view().contains_key(k2)]
                        self.view().contains_key(k2) == before.insert(key@, val@).contains_key(k2)
                            && (self.view().contains_key(k2) ==> self.view()[k2] == before.insert(
                            key@,
                            val@,
                        )[k2]) by {
                        if k2 == key@ {
                            self.lemma_view_at(i as int);
                        } else {
                            if before.contains_key(k2) {
                                let j = choose|j: int|
                                    0 <= j < old_data.len() && #[trigger] old_data[j].0@ == k2;
                                assert(self.data@[j].0@ == k2);
                                self.lemma_view_at(j);
                                assert(old_data[j] == self.data@[j]);
                                assert(before[k2] == old_data[j].1@) by {
                                    let j2 = choose|j2: int|
                                        0 <= j2 < old_data.len() && #[trigger] old_data[j2].0@ == k2;
                                    assert(j2 == j);
                                }
                            }
                            if self.view().contains_key(k2) {
                                let j = choose|j: int|
                                    0 <= j < self.data@.len() && #[trigger] self.data@[j].0@ == k2;
                                assert(old_data[j].0@ == k2);
                            }
                        }
                    }
                    assert(self.view() =~= before.insert(key@, val@));
                }
            },
            None => {
                let ghost old_data = self.data@;
                self.data.push((key.duplicate(), val.duplicate()));
                proof {
                    let n = old_data.len() as int;
                    assert forall|a: int, b: int|
                        0 <= a < b < self.data@.len() implies #[trigger] self.data@[a].0@
                        != #[trigger] self.data@[b].0@ by {
                        if b == n {
                            assert(old_data[a].0@ == self.data@[a].0@);
                        } else {
                            assert(old_data[a] == self.data@[a]);
                            assert(old_data[b] == self.data@[b]);
                        }
                    }
                    assert forall|k2: MaybeRelocatableValue|
                        #![trigger self.view().contains_key(k2)]
                        self.view().contains_key(k2) == before.insert(key@, val@).contains_key(k2)
                            && (self.view().contains_key(k2) ==> self.view()[k2] == before.insert(
                            key@,
                            val@,
                        )[k2]) by {
                        if k2 == key@ {
                            self.lemma_view_at(n);
                        } else {
                            if before.contains_key(k2) {
                                let j = choose|j: int|
                                    0 <= j < old_data.len() && #[trigger] old_data[j].0@ == k2;
                                assert(old_data[j] == self.data@[j]);
                                self.lemma_view_at(j);
                                assert(before[k2] == old_data[j].1@) by {
                                    let j2 = choose|j2: int|
                                        0 <= j2 < old_data.len() && #[trigger] old_data[j2].0@ == k2;
                                    assert(j2 == j);
                                }
                            }
                            if self.view().contains_key(k2) {
                                let j = choose|j: int|
                                    0 <= j < self.data@.len() && #[trigger] self.data@[j].0@ == k2;
                                assert(j != n);
                                assert(old_data[j] == self.data@[j]);
                            }
                        }
                    }
                    assert(self.view() =~= before.insert(key@, val@));
                }
            },
        }
    }

    /// The value that `addr` is mapped to, if any.
    pub fn get(&self, addr: &MaybeRelocatable) -> (r: Option<&MaybeRelocatable>)
        requires
            self.wf(),
        ensures
            match r {
                Some(v) => self.view().contains_key(addr@) && v@ == self.view()[addr@],
                None => !self.view().contains_key(addr@),
            },
    {
        match self.find(addr) {
            Some(i) => {
                proof {
                    self.lemma_view_at(i as int);
                }
                Some(&self.data[i].1)
            },
            None => None,
        }
    }

    /// The memory holding the given pairs; a later pair replaces an earlier
    /// one with the same key.
    pub fn from_pairs(key_val_list: &[(MaybeRelocatable, MaybeRelocatable)]) -> (r: Memory)
        ensures
            r.wf(),
            r.view() == pairs_map(key_val_list@),
    {
        let mut m = Memory::new();
        let mut i: usize = 0;
        while i < key_val_list.len()
            invariant
                i <= key_val_list@.len(),
                m.wf(),
                m.view() == pairs_map(key_val_list@.subrange(0, i as int)),
            decreases key_val_list@.len() - i,
        {
            m.insert(&key_val_list[i].0, &key_val_list[i].1);
            proof {
                let s = key_val_list@.subrange(0, i + 1);
                assert(s.drop_last() =~= key_val_list@.subrange(0, i as int));
            }
            i = i + 1;
        }
        assert(key_val_list@.subrange(0, key_val_list@.len() as int) =~= key_val_list@);
        m
    }
}

/// A read after a write gives back what was written, and leaves every other
/// key as it was: `before` is a memory, `after` what `insert(key, val)` made of it.
pub proof fn lemma_get_after_insert(
    before: Memory,
    after: Memory,
    key: MaybeRelocatableValue,
    val: MaybeRelocatableValue,
    other: MaybeRelocatableValue,
)
    requires
        before.wf(),
        after.view() == before.view().insert(key, val),
    ensures
        after.view().contains_key(key),
        after.view()[key] == val,
        other != key ==> (after.view().contains_key(other) == before.view().contains_key(other)),
        other != key && before.view().contains_key(other) ==> after.view()[other]
            == before.view()[other],
{
}

} // verus!
