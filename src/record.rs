use vstd::prelude::*;
use crate::time::Timestamp;

verus! {

/// The id of a record that the store has not numbered yet.
pub const UNSAVED_ID: i32 = -1;

/// The largest stored minute count whose length in seconds fits a `u64`.
pub const MAX_STORED_MINUTES: i64 = 307445734561825860;

/// A completed unit of work. `duration` is in seconds.
#[derive(Clone, Debug, Hash)]
pub struct WorkRecord {
    pub id: i32,
    pub date: Timestamp,
    pub description: String,
    pub duration: u64,
    pub project: String,
}

/// What a work record holds, as mathematical values.
pub struct RecordView {
    pub id: int,
    pub date: int,
    pub description: Seq<char>,
    pub duration: nat,
    pub project: Seq<char>,
}

impl View for WorkRecord {
    type V = RecordView;

    open spec fn view(&self) -> RecordView {
        RecordView {
            id: self.id as int,
            date: self.date.seconds as int,
            description: self.description@,
            duration: self.duration as nat,
            project: self.project@,
        }
    }
}

/// The values handed to the store to insert one row; the store numbers it.
#[derive(Clone, Debug)]
pub struct NewRow {
    pub date: Timestamp,
    pub description: String,
    pub duration_minutes: i64,
    pub project: String,
}

/// One row as read back from the store. `date` is `None` where the stored
/// value is not a point in time.
#[derive(Clone, Debug)]
pub struct StoredRow {
    pub id: i64,
    pub date: Option<Timestamp>,
    pub description: String,
    pub duration_minutes: i64,
    pub project: String,
}

/// What a new row holds, as mathematical values.
pub struct NewRowView {
    pub date: int,
    pub description: Seq<char>,
    pub duration_minutes: int,
    pub project: Seq<char>,
}

impl View for NewRow {
    type V = NewRowView;

    open spec fn view(&self) -> NewRowView {
        NewRowView {
            date: self.date.seconds as int,
            description: self.description@,
            duration_minutes: self.duration_minutes as int,
            project: self.project@,
        }
    }
}

/// The row that stores a record: its duration in whole minutes, for the store
/// keeps no finer unit.
pub open spec fn new_row_of(r: RecordView) -> NewRowView {
    NewRowView {
        date: r.date,
        description: r.description,
        duration_minutes: r.duration as int / 60,
        project: r.project,
    }
}

/// The record that a row holds, if it is well formed: an id that fits, a
/// date, and a minute count that is not negative and whose seconds fit.
pub open spec fn row_record(
    id: int,
    date: Option<int>,
    description: Seq<char>,
    minutes: int,
    project: Seq<char>,
) -> Option<RecordView> {
    if i32::MIN <= id <= i32::MAX && date is Some && 0 <= minutes <= MAX_STORED_MINUTES {
        Some(
            RecordView {
                id,
                date: date->Some_0,
                description,
                duration: (minutes * 60) as nat,
                project,
            },
        )
    } else {
        None
    }
}

/// What the store hands back for the row `n` once it has numbered it `id`.
pub open spec fn read_back(n: NewRowView, id: int) -> Option<RecordView> {
    row_record(id, Some(n.date), n.description, n.duration_minutes, n.project)
}

pub open spec fn opt_seconds(d: Option<Timestamp>) -> Option<int> {
    match d {
        Some(t) => Some(t.seconds as int),
        None => None,
    }
}

impl StoredRow {
    pub open spec fn decoded(&self) -> Option<RecordView> {
        row_record(
            self.id as int,
            opt_seconds(self.date),
            self.description@,
            self.duration_minutes as int,
            self.project@,
        )
    }
}

/// The records of the well-formed rows among `rows`, in their order.
pub open spec fn decode_all(rows: Seq<StoredRow>) -> Seq<RecordView>
    decreases rows.len(),
{
    if rows.len() == 0 {
        Seq::empty()
    } else {
        let rest = decode_all(rows.drop_last());
        match rows.last().decoded() {
            Some(v) => rest.push(v),
            None => rest,
        }
    }
}

impl WorkRecord {
    pub fn new(id: i32, date: Timestamp, description: String, duration: u64, project: String) -> (r:
        Self)
        ensures
            r.id == id,
            r.date == date,
            r.description@ == description@,
            r.duration == duration,
            r.project@ == project@,
    {
        WorkRecord { id, date, description, duration, project }
    }

    /// A copy of the record, field for field.
    pub fn copied(&self) -> (r: Self)
        ensures
            r@ == self@,
    {
        WorkRecord {
            id: self.id,
            date: self.date,
            description: self.description.clone(),
            duration: self.duration,
            project: self.project.clone(),
        }
    }

    /// The same record under another id.
    pub fn with_id(self, id: i32) -> (r: Self)
        ensures
            r@ == (RecordView { id: id as int, ..self@ }),
    {
        WorkRecord { id, ..self }
    }

    /// The record under the row id that the store gave it, where that id is
    /// one a record can hold.
    pub fn numbered(self, rowid: i64) -> (r: Option<Self>)
        ensures
            r is Some <==> i32::MIN <= rowid <= i32::MAX,
            r matches Some(rec) ==> rec@ == (RecordView { id: rowid as int, ..self@ }),
    {
        if rowid < i32::MIN as i64 || rowid > i32::MAX as i64 {
            None
        } else {
            Some(self.with_id(rowid as i32))
        }
    }

    /// The row that stores this record: its duration in whole minutes.
    pub fn to_new_row(&self) -> (r: NewRow)
        ensures
            r@ == new_row_of(self@),
    {
        NewRow {
            date: self.date,
            description: self.description.clone(),
            duration_minutes: (self.duration / 60) as i64,
            project: self.project.clone(),
        }
    }
}

impl StoredRow {
    /// The record this row holds, or `None` for a malformed row.
    pub fn to_record(&self) -> (r: Option<WorkRecord>)
        ensures
            r matches Some(rec) ==> self.decoded() == Some(rec@),
            r is None ==> self.decoded() is None,
    {
        if self.id < i32::MIN as i64 || self.id > i32::MAX as i64 {
            return None;
        }
        if self.duration_minutes < 0 || self.duration_minutes > MAX_STORED_MINUTES {
            return None;
        }
        match self.date {
            Some(date) => Some(
                WorkRecord {
                    id: self.id as i32,
                    date,
                    description: self.description.clone(),
                    duration: (self.duration_minutes as u64) * 60,
                    project: self.project.clone(),
                },
            ),
            None => None,
        }
    }
}

/// The records of the well-formed rows, in their order; malformed rows are
/// left out.
pub fn decode_rows(rows: &Vec<StoredRow>) -> (r: Vec<WorkRecord>)
    ensures
        r@.map_values(|x: WorkRecord| x@) == decode_all(rows@),
{
    let mut out: Vec<WorkRecord> = Vec::new();
    let mut i: usize = 0;
    while i < rows.len()
        invariant
            i <= rows@.len(),
            out@.map_values(|x: WorkRecord| x@) == decode_all(rows@.subrange(0, i as int)),
        decreases rows@.len() - i,
    {
        assert(rows@.subrange(0, i + 1).drop_last() == rows@.subrange(0, i as int));
        match rows[i].to_record() {
            Some(rec) => {
                out.push(rec);
            },
            None => {},
        }
        i = i + 1;
        assert(out@.map_values(|x: WorkRecord| x@) =~= decode_all(rows@.subrange(0, i as int)));
    }
    assert(rows@.subrange(0, rows@.len() as int) == rows@);
    out
}

} // verus!
