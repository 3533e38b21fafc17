use vstd::prelude::*;
use crate::cache::RecordCache;
use crate::record::{
    decode_all, decode_rows, new_row_of, read_back, MAX_STORED_MINUTES, NewRow, RecordView, StoredRow, WorkRecord, UNSAVED_ID,
};
use crate::session::{finished_record, opt_view, ActiveWorkSession, SessionView};
use crate::time::Timestamp;
use crate::tracker::SessionTracker;

verus! {

/// The read cache of work records and the running sessions, as one handle.
///
/// The store itself is kept by the caller: it hands in what the store read
/// and is handed back what the store should write.
pub struct WorkManager {
    records_cache: RecordCache,
    active_sessions: SessionTracker,
}

/// The record of `fetched` where it is a well-formed row numbered `id`.
pub open spec fn fetched_record(id: i32, fetched: Option<StoredRow>) -> Option<RecordView> {
    match fetched {
        Some(row) => match row.decoded() {
            Some(v) => if v.id == id as int {
                Some(v)
            } else {
                None
            },
            None => None,
        },
        None => None,
    }
}

/// What `get_work_record_by_id` does: a cached record is returned as it
/// stands, whatever the store holds; on a miss a well-formed row of that id
/// is cached and returned; otherwise nothing changes and nothing comes back.
pub open spec fn lookup_result(
    before: WorkManager,
    id: i32,
    fetched: Option<StoredRow>,
    r: Option<WorkRecord>,
    after: WorkManager,
) -> bool {
    &&& after.active() == before.active()
    &&& if before.cached().contains_key(id as int) {
        &&& r matches Some(rec) && rec@ == before.cached()[id as int]
        &&& after.cached() == before.cached()
    } else {
        match fetched_record(id, fetched) {
            Some(v) => {
                &&& r matches Some(rec) && rec@ == v
                &&& after.cached() == before.cached().insert(id as int, v)
            },
            None => {
                &&& r is None
                &&& after.cached() == before.cached()
            },
        }
    }
}

/// What `new_session` does: the session named `ident` now runs for
/// `project`, in place of any earlier one of that name.
pub open spec fn started(
    before: WorkManager,
    ident: Seq<char>,
    project: Seq<char>,
    r: ActiveWorkSession,
    after: WorkManager,
) -> bool {
    &&& r@.identifier == ident
    &&& r@.project == project
    &&& after.active() == before.active().insert(ident, r@)
    &&& after.cached() == before.cached()
}

/// What ending a session does, before the cache is considered: the session
/// named `ident`, if it runs, stops and becomes an unnumbered record.
pub open spec fn ended(
    before: WorkManager,
    ident: Seq<char>,
    description: Option<Seq<char>>,
    r: Option<WorkRecord>,
    after: WorkManager,
) -> bool {
    &&& after.active() == before.active().remove(ident)
    &&& r is Some <==> before.active().contains_key(ident)
    &&& r matches Some(rec) ==> exists|end: int|
        rec@ == finished_record(before.active()[ident], description, end)
}

/// The cache side of `end_session_without_saving`: the record, if any, is
/// cached under the unnumbered id.
pub open spec fn kept_unsaved(before: WorkManager, r: Option<WorkRecord>, after: WorkManager) -> bool {
    match r {
        Some(rec) => after.cached() == before.cached().insert(UNSAVED_ID as int, rec@),
        None => after.cached() == before.cached(),
    }
}

impl WorkManager {
    pub closed spec fn wf(&self) -> bool {
        self.records_cache.wf() && self.active_sessions.wf()
    }

    /// The cached records by id.
    pub closed spec fn cached(&self) -> Map<int, RecordView> {
        self.records_cache@
    }

    /// The running sessions by identifier.
    pub closed spec fn active(&self) -> Map<Seq<char>, SessionView> {
        self.active_sessions@
    }

    pub fn new() -> (r: Self)
        ensures
            r.wf(),
            r.cached() == Map::<int, RecordView>::empty(),
            r.active() == Map::<Seq<char>, SessionView>::empty(),
    {
        WorkManager { records_cache: RecordCache::new(), active_sessions: SessionTracker::new() }
    }

    /// The row to insert for `record`; the store numbers it.
    pub fn create_work_record(&self, record: WorkRecord) -> (r: NewRow)
        ensures
            r@ == new_row_of(record@),
    {
        record.to_new_row()
    }

    /// The row to insert for a record of these fields; the store numbers it.
    pub fn create_work_record_raw(
        &self,
        date: Timestamp,
        duration: u64,
        description: String,
        project: String,
    ) -> (r: NewRow)
        ensures
            r@ == new_row_of(
                RecordView {
                    id: UNSAVED_ID as int,
                    date: date.seconds as int,
                    description: description@,
                    duration: duration as nat,
                    project: project@,
                },
            ),
    {
        self.create_work_record(WorkRecord::new(UNSAVED_ID, date, description, duration, project))
    }

    /// The cached record for `id`, if there is one. Where there is none the
    /// caller reads the row from the store and hands it to
    /// `get_work_record_by_id`.
    pub fn cached_record(&self, id: i32) -> (r: Option<WorkRecord>)
        requires
            self.wf(),
        ensures
            r is Some <==> self.cached().contains_key(id as int),
            r matches Some(rec) ==> rec@ == self.cached()[id as int],
    {
        self.records_cache.get(id)
    }

    /// The record for `id`: from the cache where it is there, else from
    /// `fetched`, the row that the store holds for `id`, which is then cached.
    pub fn get_work_record_by_id(&mut self, id: i32, fetched: Option<StoredRow>) -> (r: Option<
        WorkRecord,
    >)
        requires
            old(self).wf(),
        ensures
            final(self).wf(),
            lookup_result(*old(self), id, fetched, r, *final(self)),
    {
        match self.records_cache.get(id) {
            Some(record) => Some(record),
            None => match fetched {
                Some(row) => match row.to_record() {
                    Some(record) => {
                        if record.id == id {
                            self.records_cache.put(record.copied());
                            Some(record)
                        } else {
                            None
                        }
                    },
                    None => None,
                },
                None => None,
            },
        }
    }

    /// Every cached record, in no particular order; the store is not read.
    pub fn get_all_cached_records(&self) -> (r: Vec<WorkRecord>)
        requires
            self.wf(),
        ensures
            forall|k: int|
                self.cached().contains_key(k) ==> exists|i: int|
                    0 <= i < r@.len() && r@[i].id as int == k,
            forall|i: int|
                #![trigger r@[i]]
                0 <= i < r@.len() ==> self.cached().contains_key(r@[i].id as int)
                    && self.cached()[r@[i].id as int] == r@[i]@,
            forall|i: int, j: int| 0 <= i < j < r@.len() ==> r@[i].id != r@[j].id,
    {
        self.records_cache.records()
    }

    /// The records of a full scan of the store, `rows`, in their order;
    /// malformed rows are dropped.
    pub fn get_all_records(&self, rows: &Vec<StoredRow>) -> (r: Vec<WorkRecord>)
        ensures
            r@.map_values(|x: WorkRecord| x@) == decode_all(rows@),
    {
        decode_rows(rows)
    }

    /// Forgets the cached record for `id`, which is being deleted from the
    /// store. `deleted` is what the delete gave: the number of rows removed,
    /// or `None` where it failed. Removing no row is no failure.
    pub fn delete_record_by_id(&mut self, id: i32, deleted: Option<usize>) -> (r: Option<()>)
        requires
            old(self).wf(),
        ensures
            final(self).wf(),
            r is Some <==> deleted is Some,
            final(self).cached() == old(self).cached().remove(id as int),
            final(self).active() == old(self).active(),
    {
        self.records_cache.evict(id);
        match deleted {
            Some(_) => Some(()),
            None => None,
        }
    }

    /// Starts a session named `ident` for `project`, now; a running session
    /// of that name is replaced.
    pub fn new_session(&mut self, ident: String, project: String) -> (r: ActiveWorkSession)
        requires
            old(self).wf(),
        ensures
            final(self).wf(),
            started(*old(self), ident@, project@, r, *final(self)),
    {
        let session = ActiveWorkSession::new(ident, None, project);
        self.active_sessions.start(session.copied());
        session
    }

    /// Ends the session named `ident`, now, and gives its record for the
    /// store to save; `None` where no such session runs.
    pub fn end_session(&mut self, ident: String, description: Option<String>) -> (r: Option<
        WorkRecord,
    >)
        requires
            old(self).wf(),
        ensures
            final(self).wf(),
            ended(*old(self), ident@, opt_view(description), r, *final(self)),
            final(self).cached() == old(self).cached(),
    {
        match self.active_sessions.take(&ident) {
            Some(session) => {
                let ghost view = session@;
                let record = session.end(description);
                assert(view == old(self).active()[ident@]);
                Some(record)
            },
            None => None,
        }
    }

    /// Ends the session named `ident`, now, and keeps its record in the
    /// cache only, under the unnumbered id; `None` where no such session runs.
    pub fn end_session_without_saving(
        &mut self,
        ident: String,
        description: Option<String>,
    ) -> (r: Option<WorkRecord>)
        requires
            old(self).wf(),
        ensures
            final(self).wf(),
            ended(*old(self), ident@, opt_view(description), r, *final(self)),
            kept_unsaved(*old(self), r, *final(self)),
    {
        match self.active_sessions.take(&ident) {
            Some(session) => {
                let record = session.end(description);
                self.records_cache.put(record.copied());
                Some(record)
            },
            None => None,
        }
    }

    /// A copy of every running session, in no particular order.
    pub fn get_active_sessions(&self) -> (r: Vec<ActiveWorkSession>)
        requires
            self.wf(),
        ensures
            forall|k: Seq<char>|
                self.active().contains_key(k) ==> exists|i: int|
                    0 <= i < r@.len() && r@[i].identifier@ == k,
            forall|i: int|
                #![trigger r@[i]]
                0 <= i < r@.len() ==> self.active().contains_key(r@[i].identifier@)
                    && self.active()[r@[i].identifier@] == r@[i]@,
            forall|i: int, j: int|
                0 <= i < j < r@.len() ==> r@[i].identifier@ != r@[j].identifier@,
    {
        self.active_sessions.sessions()
    }
}

/// A record written to the store and read back under the id the store gave
/// it holds the same date, description and project, and its duration in
/// whole minutes; a duration of whole minutes comes back unchanged.
pub proof fn lemma_create_then_read(r: WorkRecord, id: i32)
    ensures
        read_back(new_row_of(r@), id as int) == Some(
            RecordView { id: id as int, duration: (r.duration / 60 * 60) as nat, ..r@ },
        ),
        r.duration % 60 == 0 ==> read_back(new_row_of(r@), id as int) == Some(
            RecordView { id: id as int, ..r@ },
        ),
{
    assert(r.duration / 60 <= MAX_STORED_MINUTES);
}

/// Once a lookup of `id` has given a record, a second lookup of `id` gives
/// the same record and changes nothing, whatever the store would hold.
pub proof fn lemma_cache_coherent(
    m0: WorkManager,
    id: i32,
    fetched1: Option<StoredRow>,
    r1: Option<WorkRecord>,
    m1: WorkManager,
    fetched2: Option<StoredRow>,
    r2: Option<WorkRecord>,
    m2: WorkManager,
)
    requires
        lookup_result(m0, id, fetched1, r1, m1),
        r1 is Some,
        lookup_result(m1, id, fetched2, r2, m2),
    ensures
        r2 matches Some(rec) && rec@ == r1->Some_0@,
        m2.cached() == m1.cached(),
        m2.active() == m1.active(),
{
}

/// A record that a lookup read from a row of a full scan of the store is
/// among the records of that scan.
pub proof fn lemma_fetched_in_scan(
    m0: WorkManager,
    id: i32,
    row: StoredRow,
    r: Option<WorkRecord>,
    m1: WorkManager,
    rows: Seq<StoredRow>,
)
    requires
        !m0.cached().contains_key(id as int),
        lookup_result(m0, id, Some(row), r, m1),
        r is Some,
        rows.contains(row),
    ensures
        decode_all(rows).contains(r->Some_0@),
{
    lemma_decoded_row_in_scan(rows, row);
}

proof fn lemma_decoded_row_in_scan(rows: Seq<StoredRow>, row: StoredRow)
    requires
        rows.contains(row),
        row.decoded() is Some,
    ensures
        decode_all(rows).contains(row.decoded()->Some_0),
    decreases rows.len(),
{
    let rest = rows.drop_last();
    if rows.last() == row {
        assert(decode_all(rows).last() == row.decoded()->Some_0);
    } else {
        let i = choose|i: int| 0 <= i < rows.len() && rows[i] == row;
        assert(rest[i] == row);
        lemma_decoded_row_in_scan(rest, row);
        let j = choose|j: int|
            0 <= j < decode_all(rest).len() && decode_all(rest)[j] == row.decoded()->Some_0;
        match rows.last().decoded() {
            Some(v) => assert(decode_all(rows)[j] == row.decoded()->Some_0),
            None => {},
        }
    }
}

/// Starting a session and then ending it with saving leaves no session of
/// that name running and gives exactly one record, of that session, to save.
pub proof fn lemma_session_lifecycle(
    m0: WorkManager,
    ident: Seq<char>,
    project: Seq<char>,
    s: ActiveWorkSession,
    m1: WorkManager,
    description: Option<Seq<char>>,
    r: Option<WorkRecord>,
    m2: WorkManager,
)
    requires
        started(m0, ident, project, s, m1),
        ended(m1, ident, description, r, m2),
    ensures
        !m2.active().contains_key(ident),
        m2.active() == m0.active().remove(ident),
        r matches Some(rec) && rec@.id == UNSAVED_ID as int && rec@.project == project
            && rec@.date == s@.start && exists|end: int|
            rec@ == finished_record(s@, description, end),
{
}

/// A record kept by ending a session without saving is what a lookup of the
/// unnumbered id gives afterwards, whatever the store would hold.
pub proof fn lemma_unsaved_retrievable(
    m0: WorkManager,
    ident: Seq<char>,
    description: Option<Seq<char>>,
    r: Option<WorkRecord>,
    m1: WorkManager,
    fetched: Option<StoredRow>,
    r2: Option<WorkRecord>,
    m2: WorkManager,
)
    requires
        ended(m0, ident, description, r, m1),
        kept_unsaved(m0, r, m1),
        r is Some,
        lookup_result(m1, UNSAVED_ID, fetched, r2, m2),
    ensures
        r2 matches Some(rec) && rec@ == r->Some_0@,
{
}

} // verus!
