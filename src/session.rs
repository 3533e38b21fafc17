use vstd::prelude::*;
use crate::record::{RecordView, WorkRecord, UNSAVED_ID};
use crate::time::{elapsed_seconds, Timestamp};

verus! {

/// A session of work that is still running.
#[derive(Clone, Debug)]
pub struct ActiveWorkSession {
    pub identifier: String,
    pub start: Timestamp,
    pub project: String,
}

/// What an active session holds, as mathematical values.
pub struct SessionView {
    pub identifier: Seq<char>,
    pub start: int,
    pub project: Seq<char>,
}

impl View for ActiveWorkSession {
    type V = SessionView;

    open spec fn view(&self) -> SessionView {
        SessionView {
            identifier: self.identifier@,
            start: self.start.seconds as int,
            project: self.project@,
        }
    }
}

/// The record that ends `s` at `end`: not yet numbered, dated at the start,
/// described by `description` or else by the session's identifier.
pub open spec fn finished_record(
    s: SessionView,
    description: Option<Seq<char>>,
    end: int,
) -> RecordView {
    RecordView {
        id: UNSAVED_ID as int,
        date: s.start,
        description: match description {
            Some(d) => d,
            None => s.identifier,
        },
        duration: elapsed_seconds(s.start, end),
        project: s.project,
    }
}

pub open spec fn opt_view(d: Option<String>) -> Option<Seq<char>> {
    match d {
        Some(s) => Some(s@),
        None => None,
    }
}

impl ActiveWorkSession {
    /// A session that starts at `start`, or now where none is given.
    pub fn new(identifier: String, start: Option<Timestamp>, project: String) -> (r: Self)
        ensures
            r.identifier@ == identifier@,
            r.project@ == project@,
            start matches Some(t) ==> r.start == t,
    {
        let start = match start {
            Some(start) => start,
            None => Timestamp::now(),
        };
        ActiveWorkSession { identifier, start, project }
    }

    /// A copy of the session, field for field.
    pub fn copied(&self) -> (r: Self)
        ensures
            r@ == self@,
    {
        ActiveWorkSession {
            identifier: self.identifier.clone(),
            start: self.start,
            project: self.project.clone(),
        }
    }

    /// Seconds that the session has run by `now`.
    pub fn current_duration(&self, now: Timestamp) -> (r: u64)
        ensures
            r as nat == elapsed_seconds(self@.start, now.seconds as int),
    {
        self.start.seconds_until(now)
    }

    /// Ends the session at `end` and gives the record of it.
    pub fn end_at(self, description: Option<String>, end: Timestamp) -> (r: WorkRecord)
        ensures
            r@ == finished_record(self@, opt_view(description), end.seconds as int),
    {
        let duration = self.current_duration(end);
        let description = match description {
            Some(description) => description,
            None => self.identifier,
        };
        WorkRecord::new(UNSAVED_ID, self.start, description, duration, self.project)
    }

    /// Ends the session now and gives the record of it.
    pub fn end(self, description: Option<String>) -> (r: WorkRecord)
        ensures
            exists|end: Timestamp| r@ == finished_record(self@, opt_view(description), end.seconds as int),
    {
        let now = Timestamp::now();
        let r = self.end_at(description, now);
        r
    }
}

} // verus!
