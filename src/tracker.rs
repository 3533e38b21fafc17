use vstd::prelude::*;
use crate::session::{ActiveWorkSession, SessionView};

verus! {

/// The running sessions by identifier, at most one for each.
pub struct SessionTracker {
    entries: Vec<ActiveWorkSession>,
    model: Ghost<Map<Seq<char>, SessionView>>,
}

impl View for SessionTracker {
    type V = Map<Seq<char>, SessionView>;

    closed spec fn view(&self) -> Map<Seq<char>, SessionView> {
        self.model@
    }
}

impl SessionTracker {
    /// Identifiers are unique, and the model holds exactly the entries.
    pub closed spec fn wf(&self) -> bool {
        &&& forall|i: int, j: int|
            0 <= i < j < self.entries@.len() ==> self.entries@[i].identifier@
                != self.entries@[j].identifier@
        &&& forall|i: int|
            #![trigger self.entries@[i]]
            0 <= i < self.entries@.len() ==> self.model@.contains_key(self.entries@[i].identifier@)
                && self.model@[self.entries@[i].identifier@] == self.entries@[i]@
        &&& forall|k: Seq<char>|
            self.model@.contains_key(k) ==> exists|i: int|
                0 <= i < self.entries@.len() && self.entries@[i].identifier@ == k
    }

    pub fn new() -> (r: Self)
        ensures
            r.wf(),
            r@ == Map::<Seq<char>, SessionView>::empty(),
    {
        SessionTracker { entries: Vec::new(), model: Ghost(Map::empty()) }
    }

    /// Where the session named `ident` stands in `entries`, if it is there.
    fn position(&self, ident: &String) -> (r: Option<usize>)
        requires
            self.wf(),
        ensures
            r matches Some(i) ==> i < self.entries@.len() && self.entries@[i as int].identifier@
                == ident@,
            r is None ==> !self@.contains_key(ident@),
    {
        let mut i: usize = 0;
        while i < self.entries.len()
            invariant
                i <= self.entries@.len(),
                forall|j: int| 0 <= j < i ==> self.entries@[j].identifier@ != ident@,
            decreases self.entries@.len() - i,
        {
            if self.entries[i].identifier == *ident {
                return Some(i);
            }
            i = i + 1;
        }
        None
    }

    /// Tracks `session`, in place of a running one of the same identifier.
    pub fn start(&mut self, session: ActiveWorkSession)
        requires
            old(self).wf(),
        ensures
            final(self).wf(),
            final(self)@ == old(self)@.insert(session.identifier@, session@),
    {
        let ghost old_entries = self.entries@;
        let ghost key = session.identifier@;
        let ghost new_model = self.model@.insert(key, session@);
        let ghost at: int;
        match self.position(&session.identifier) {
            Some(i) => {
                self.entries.set(i, session);
                proof {
                    at = i as int;
                }
            },
            None => {
                self.entries.push(session);
                proof {
                    at = old_entries.len() as int;
                }
            },
        }
        assert(self.entries@[at].identifier@ == key);
        self.model = Ghost(new_model);
        assert forall|k: Seq<char>| new_model.contains_key(k) implies exists|i: int|
            0 <= i < self.entries@.len() && self.entries@[i].identifier@ == k by {
            if k != key {
                let j = choose|j: int|
                    0 <= j < old_entries.len() && old_entries[j].identifier@ == k;
                assert(self.entries@[j].identifier@ == k);
            } else {
                assert(self.entries@[at].identifier@ == k);
            }
        }
    }

    /// Stops tracking the session named `ident` and hands it back.
    pub fn take(&mut self, ident: &String) -> (r: Option<ActiveWorkSession>)
        requires
            old(self).wf(),
        ensures
            final(self).wf(),
            final(self)@ == old(self)@.remove(ident@),
            r is Some <==> old(self)@.contains_key(ident@),
            r matches Some(s) ==> s@ == old(self)@[ident@],
    {
        let ghost old_entries = self.entries@;
        let ghost old_model = self.model@;
        let ghost new_model = self.model@.remove(ident@);
        match self.position(ident) {
            Some(i) => {
                let session = self.entries.remove(i);
                self.model = Ghost(new_model);
                assert forall|j: int| 0 <= j < self.entries@.len() implies self.entries@[j] == (
                if j < i {
                    old_entries[j]
                } else {
                    old_entries[j + 1]
                }) by {}
                assert forall|a: int, b: int|
                    0 <= a < b < self.entries@.len() implies self.entries@[a].identifier@
                    != self.entries@[b].identifier@ by {
                    let a0 = if a < i { a } else { a + 1 };
                    let b0 = if b < i { b } else { b + 1 };
                    assert(old_entries[a0].identifier@ != old_entries[b0].identifier@);
                }
                assert forall|j: int|
                    #![trigger self.entries@[j]]
                    0 <= j < self.entries@.len() implies self.model@.contains_key(
                    self.entries@[j].identifier@) && self.model@[self.entries@[j].identifier@]
                    == self.entries@[j]@ by {
                    let j0 = if j < i { j } else { j + 1 };
                    assert(old_entries[j0].identifier@ != old_entries[i as int].identifier@);
                    assert(old_model.contains_key(old_entries[j0].identifier@));
                }
                assert forall|k: Seq<char>| self.model@.contains_key(k) implies exists|j: int|
                    0 <= j < self.entries@.len() && self.entries@[j].identifier@ == k by {
                    let j = choose|j: int|
                        0 <= j < old_entries.len() && old_entries[j].identifier@ == k;
                    if j < i {
                        assert(self.entries@[j].identifier@ == k);
                    } else {
                        assert(self.entries@[j - 1].identifier@ == k);
                    }
                }
                Some(session)
            },
            None => {
                assert(new_model =~= self.model@);
                None
            },
        }
    }

    /// A copy of every running session, in no particular order.
    pub fn sessions(&self) -> (r: Vec<ActiveWorkSession>)
        requires
            self.wf(),
        ensures
            forall|k: Seq<char>|
                self@.contains_key(k) ==> exists|i: int|
                    0 <= i < r@.len() && r@[i].identifier@ == k,
            forall|i: int|
                #![trigger r@[i]]
                0 <= i < r@.len() ==> self@.contains_key(r@[i].identifier@)
                    && self@[r@[i].identifier@] == r@[i]@,
            forall|i: int, j: int|
                0 <= i < j < r@.len() ==> r@[i].identifier@ != r@[j].identifier@,
    {
        let mut out: Vec<ActiveWorkSession> = Vec::new();
        let mut i: usize = 0;
        while i < self.entries.len()
            invariant
                i <= self.entries@.len(),
                out@.len() == i,
                forall|j: int| 0 <= j < i ==> out@[j]@ == self.entries@[j]@,
            decreases self.entries@.len() - i,
        {
            out.push(self.entries[i].copied());
            i = i + 1;
        }
        assert forall|k: Seq<char>| self@.contains_key(k) implies exists|i: int|
            0 <= i < out@.len() && out@[i].identifier@ == k by {
            let i = choose|i: int|
                0 <= i < self.entries@.len() && self.entries@[i].identifier@ == k;
            assert(out@[i].identifier@ == k);
        }
        out
    }
}

} // verus!
