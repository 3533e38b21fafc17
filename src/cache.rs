use vstd::prelude::*;
use crate::record::{RecordView, WorkRecord};

verus! {

/// Records by id, as last read from the store or written through the
/// manager. At most one record per id.
pub struct RecordCache {
    entries: Vec<WorkRecord>,
    model: Ghost<Map<int, RecordView>>,
}

impl View for RecordCache {
    type V = Map<int, RecordView>;

    closed spec fn view(&self) -> Map<int, RecordView> {
        self.model@
    }
}

impl RecordCache {
    /// Ids are unique, and the model holds exactly the entries.
    pub closed spec fn wf(&self) -> bool {
        &&& forall|i: int, j: int|
            0 <= i < j < self.entries@.len() ==> self.entries@[i].id != self.entries@[j].id
        &&& forall|i: int|
            #![trigger self.entries@[i]]
            0 <= i < self.entries@.len() ==> self.model@.contains_key(self.entries@[i].id as int)
                && self.model@[self.entries@[i].id as int] == self.entries@[i]@
        &&& forall|k: int|
            self.model@.contains_key(k) ==> exists|i: int|
                0 <= i < self.entries@.len() && self.entries@[i].id as int == k
    }

    pub fn new() -> (r: Self)
        ensures
            r.wf(),
            r@ == Map::<int, RecordView>::empty(),
    {
        RecordCache { entries: Vec::new(), model: Ghost(Map::empty()) }
    }

    /// Where `id` stands in `entries`, if it is there.
    fn position(&self, id: i32) -> (r: Option<usize>)
        requires
            self.wf(),
        ensures
            r matches Some(i) ==> i < self.entries@.len() && self.entries@[i as int].id == id,
            r is None ==> !self@.contains_key(id as int),
    {
        let mut i: usize = 0;
        while i < self.entries.len()
            invariant
                i <= self.entries@.len(),
                forall|j: int| 0 <= j < i ==> self.entries@[j].id != id,
            decreases self.entries@.len() - i,
        {
            if self.entries[i].id == id {
                return Some(i);
            }
            i = i + 1;
        }
        None
    }

    /// The cached record for `id`.
    pub fn get(&self, id: i32) -> (r: Option<WorkRecord>)
        requires
            self.wf(),
        ensures
            r is Some <==> self@.contains_key(id as int),
            r matches Some(rec) ==> rec@ == self@[id as int],
    {
        match self.position(id) {
            Some(i) => Some(self.entries[i].copied()),
            None => None,
        }
    }

    /// Caches `record` under its id, in place of what was there.
    pub fn put(&mut self, record: WorkRecord)
        requires
            old(self).wf(),
        ensures
            final(self).wf(),
            final(self)@ == old(self)@.insert(record.id as int, record@),
    {
        let ghost old_entries = self.entries@;
        let ghost new_model = self.model@.insert(record.id as int, record@);
        let ghost key = record.id as int;
        let ghost at: int;
        match self.position(record.id) {
            Some(i) => {
                self.entries.set(i, record);
                proof {
                    at = i as int;
                }
            },
            None => {
                self.entries.push(record);
                proof {
                    at = old_entries.len() as int;
                }
            },
        }
        assert(self.entries@[at].id as int == key);
        self.model = Ghost(new_model);
        assert forall|k: int| new_model.contains_key(k) implies exists|i: int|
            0 <= i < self.entries@.len() && self.entries@[i].id as int == k by {
            if k != key {
                let j = choose|j: int| 0 <= j < old_entries.len() && old_entries[j].id as int == k;
                assert(self.entries@[j].id as int == k);
            } else {
                assert(self.entries@[at].id as int == k);
            }
        }
    }

    /// Drops what is cached under `id`.
    pub fn evict(&mut self, id: i32)
        requires
            old(self).wf(),
        ensures
            final(self).wf(),
            final(self)@ == old(self)@.remove(id as int),
    {
        let ghost old_entries = self.entries@;
        let ghost old_model = self.model@;
        let ghost new_model = self.model@.remove(id as int);
        match self.position(id) {
            Some(i) => {
                self.entries.remove(i);
                self.model = Ghost(new_model);
                assert forall|j: int| 0 <= j < self.entries@.len() implies self.entries@[j] == (
                if j < i {
                    old_entries[j]
                } else {
                    old_entries[j + 1]
                }) by {}
                assert forall|a: int, b: int|
                    0 <= a < b < self.entries@.len() implies self.entries@[a].id
                    != self.entries@[b].id by {
                    let a0 = if a < i { a } else { a + 1 };
                    let b0 = if b < i { b } else { b + 1 };
                    assert(old_entries[a0].id != old_entries[b0].id);
                }
                assert forall|j: int|
                    #![trigger self.entries@[j]]
                    0 <= j < self.entries@.len() implies self.model@.contains_key(
                    self.entries@[j].id as int) && self.model@[self.entries@[j].id as int]
                    == self.entries@[j]@ by {
                    let j0 = if j < i { j } else { j + 1 };
                    assert(old_entries[j0].id != old_entries[i as int].id);
                    assert(old_model.contains_key(old_entries[j0].id as int));
                }
                assert forall|k: int| self.model@.contains_key(k) implies exists|j: int|
                    0 <= j < self.entries@.len() && self.entries@[j].id as int == k by {
                    let j = choose|j: int| 0 <= j < old_entries.len() && old_entries[j].id as int == k;
                    if j < i {
                        assert(self.entries@[j].id as int == k);
                    } else {
                        assert(self.entries@[j - 1].id as int == k);
                    }
                }
            },
            None => {
                assert(new_model =~= self.model@);
            },
        }
    }

    /// Every cached record, in no particular order.
    pub fn records(&self) -> (r: Vec<WorkRecord>)
        requires
            self.wf(),
        ensures
            forall|k: int|
                self@.contains_key(k) ==> exists|i: int| 0 <= i < r@.len() && r@[i].id as int == k,
            forall|i: int|
                #![trigger r@[i]]
                0 <= i < r@.len() ==> self@.contains_key(r@[i].id as int) && self@[r@[i].id
                    as int] == r@[i]@,
            forall|i: int, j: int| 0 <= i < j < r@.len() ==> r@[i].id != r@[j].id,
    {
        let mut out: Vec<WorkRecord> = Vec::new();
        let mut i: usize = 0;
        while i < self.entries.len()
            invariant
                i <= self.entries@.len(),
                out@.len() == i,
                forall|j: int| 0 <= j < i ==> out@[j]@ == self.entries@[j]@ && out@[j].id == self.entries@[j].id,
            decreases self.entries@.len() - i,
        {
            out.push(self.entries[i].copied());
            i = i + 1;
        }
        assert forall|k: int| self@.contains_key(k) implies exists|i: int|
            0 <= i < out@.len() && out@[i].id as int == k by {
            let i = choose|i: int| 0 <= i < self.entries@.len() && self.entries@[i].id as int == k;
            assert(out@[i].id as int == k);
        }
        out
    }
}

} // verus!
