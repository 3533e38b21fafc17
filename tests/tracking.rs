use tkpr::manager::WorkManager;
use tkpr::record::{decode_rows, StoredRow, WorkRecord, UNSAVED_ID};
use tkpr::session::ActiveWorkSession;
use tkpr::time::Timestamp;

fn record(id: i32, seconds: i64, description: &str, duration: u64, project: &str) -> WorkRecord {
    WorkRecord::new(
        id,
        Timestamp::from_seconds(seconds),
        description.to_string(),
        duration,
        project.to_string(),
    )
}

fn row(id: i64, seconds: Option<i64>, description: &str, minutes: i64, project: &str) -> StoredRow {
    StoredRow {
        id,
        date: seconds.map(Timestamp::from_seconds),
        description: description.to_string(),
        duration_minutes: minutes,
        project: project.to_string(),
    }
}

/// What a store would hand back for a row it numbered `id`.
fn stored(id: i64, r: &WorkRecord, m: &WorkManager) -> StoredRow {
    let n = m.create_work_record(r.clone());
    StoredRow {
        id,
        date: Some(n.date),
        description: n.description,
        duration_minutes: n.duration_minutes,
        project: n.project,
    }
}

#[test]
fn create_then_get_by_id_round_trips() {
    let mut m = WorkManager::new();
    let r = record(UNSAVED_ID, 1_700_000_000, "write report", 1800, "docs");
    let fetched = stored(7, &r, &m);
    let got = m.get_work_record_by_id(7, Some(fetched)).unwrap();
    assert_eq!(got.id, 7);
    assert_eq!(got.date, r.date);
    assert_eq!(got.description, "write report");
    assert_eq!(got.duration, 1800);
    assert_eq!(got.project, "docs");
}

#[test]
fn ninety_minutes_read_back_as_ninety_minutes() {
    let m = WorkManager::new();
    let r = record(UNSAVED_ID, 1_700_000_000, "focus", 90 * 60, "proj");
    let n = m.create_work_record(r.clone());
    assert_eq!(n.duration_minutes, 90);
    let all = m.get_all_records(&vec![stored(1, &r, &m)]);
    assert_eq!(all.len(), 1);
    assert_eq!(all[0].duration, 90 * 60);
}

#[test]
fn sub_minute_part_is_lost_on_write() {
    let m = WorkManager::new();
    let n = m.create_work_record_raw(
        Timestamp::from_seconds(0),
        119,
        "d".to_string(),
        "p".to_string(),
    );
    assert_eq!(n.duration_minutes, 1);
    let back = row(3, Some(0), "d", n.duration_minutes, "p").to_record().unwrap();
    assert_eq!(back.duration, 60);
}

#[test]
fn second_lookup_is_served_from_cache() {
    let mut m = WorkManager::new();
    let first = m.get_work_record_by_id(4, Some(row(4, Some(10), "a", 2, "p"))).unwrap();
    assert_eq!(first.description, "a");
    // The store now answers otherwise, or not at all: the cached record stands.
    let second = m.get_work_record_by_id(4, Some(row(4, Some(99), "b", 5, "q"))).unwrap();
    assert_eq!(second.description, "a");
    assert_eq!(second.duration, 120);
    let third = m.get_work_record_by_id(4, None).unwrap();
    assert_eq!(third.date, Timestamp::from_seconds(10));
    assert_eq!(m.cached_record(4).unwrap().project, "p");
}

#[test]
fn lookup_miss_without_row_gives_none() {
    let mut m = WorkManager::new();
    assert!(m.get_work_record_by_id(5, None).is_none());
    assert!(m.cached_record(5).is_none());
    // A row of another id is not the record asked for.
    assert!(m.get_work_record_by_id(5, Some(row(6, Some(0), "x", 1, "p"))).is_none());
    assert!(m.get_all_cached_records().is_empty());
}

#[test]
fn cached_records_are_among_all_records() {
    let mut m = WorkManager::new();
    let rows = vec![row(1, Some(5), "a", 1, "p"), row(2, Some(6), "b", 2, "p"), row(3, Some(7), "c", 3, "q")];
    m.get_work_record_by_id(1, Some(rows[0].clone()));
    m.get_work_record_by_id(3, Some(rows[2].clone()));
    let all = m.get_all_records(&rows);
    let cached = m.get_all_cached_records();
    assert_eq!(cached.len(), 2);
    for c in &cached {
        assert!(all.iter().any(|a| a.id == c.id && a.description == c.description));
    }
}

#[test]
fn malformed_rows_are_dropped_from_a_scan() {
    let m = WorkManager::new();
    let rows = vec![
        row(1, Some(5), "ok", 1, "p"),
        row(2, None, "no date", 1, "p"),
        row(3, Some(5), "negative", -4, "p"),
        row(i64::from(i32::MAX) + 1, Some(5), "id too large", 1, "p"),
        row(4, Some(5), "too long", i64::MAX, "p"),
        row(5, Some(8), "ok too", 0, "q"),
    ];
    let all = m.get_all_records(&rows);
    assert_eq!(all.len(), 2);
    assert_eq!(all[0].id, 1);
    assert_eq!(all[1].id, 5);
    assert_eq!(all[1].duration, 0);
    assert_eq!(decode_rows(&vec![]).len(), 0);
}

#[test]
fn session_lifecycle_gives_one_record_to_save() {
    let mut m = WorkManager::new();
    let s = m.new_session("A".to_string(), "proj1".to_string());
    assert_eq!(s.identifier, "A");
    assert_eq!(m.get_active_sessions().len(), 1);
    let rec = m.end_session("A".to_string(), Some("did things".to_string())).unwrap();
    assert!(m.get_active_sessions().is_empty());
    assert_eq!(rec.id, UNSAVED_ID);
    assert_eq!(rec.project, "proj1");
    assert_eq!(rec.description, "did things");
    assert_eq!(rec.date, s.start);
    let n = m.create_work_record(rec.clone());
    assert_eq!(n.project, "proj1");
    // Saving does not fill the cache.
    assert!(m.get_all_cached_records().is_empty());
}

#[test]
fn ending_unknown_session_gives_none() {
    let mut m = WorkManager::new();
    assert!(m.end_session("never".to_string(), None).is_none());
    assert!(m.end_session_without_saving("never".to_string(), None).is_none());
    m.new_session("A".to_string(), "p".to_string());
    assert!(m.end_session("B".to_string(), None).is_none());
    assert_eq!(m.get_active_sessions().len(), 1);
}

#[test]
fn unsaved_record_stays_retrievable() {
    let mut m = WorkManager::new();
    m.new_session("A".to_string(), "proj".to_string());
    let rec = m.end_session_without_saving("A".to_string(), None).unwrap();
    assert_eq!(rec.description, "A");
    assert!(m.get_active_sessions().is_empty());
    let got = m.get_work_record_by_id(UNSAVED_ID, None).unwrap();
    assert_eq!(got.description, "A");
    assert_eq!(got.project, "proj");
    assert_eq!(m.get_all_cached_records().len(), 1);
}

#[test]
fn deleting_missing_id_succeeds() {
    let mut m = WorkManager::new();
    assert_eq!(m.delete_record_by_id(42, Some(0)), Some(()));
    assert_eq!(m.delete_record_by_id(42, None), None);
}

#[test]
fn delete_evicts_cached_record() {
    let mut m = WorkManager::new();
    m.get_work_record_by_id(9, Some(row(9, Some(1), "a", 1, "p"))).unwrap();
    assert_eq!(m.delete_record_by_id(9, Some(1)), Some(()));
    assert!(m.cached_record(9).is_none());
    assert!(m.get_work_record_by_id(9, None).is_none());
}

#[test]
fn restarting_a_session_keeps_the_last_project() {
    let mut m = WorkManager::new();
    m.new_session("A".to_string(), "proj1".to_string());
    m.new_session("A".to_string(), "proj2".to_string());
    let active = m.get_active_sessions();
    assert_eq!(active.len(), 1);
    assert_eq!(active[0].identifier, "A");
    assert_eq!(active[0].project, "proj2");
}

#[test]
fn session_end_measures_from_start_to_end() {
    let s = ActiveWorkSession::new("id".to_string(), Some(Timestamp::from_seconds(100)), "p".to_string());
    assert_eq!(s.current_duration(Timestamp::from_seconds(400)), 300);
    let r = s.clone().end_at(None, Timestamp::from_seconds(400));
    assert_eq!(r.duration, 300);
    assert_eq!(r.description, "id");
    assert_eq!(r.date, Timestamp::from_seconds(100));
    assert_eq!(r.id, UNSAVED_ID);
    let back = s.end_at(Some("desc".to_string()), Timestamp::from_seconds(50));
    assert_eq!(back.duration, 0);
    assert_eq!(back.description, "desc");
}

#[test]
fn clock_reads_the_present() {
    let t = Timestamp::now();
    assert!(t.seconds > 1_600_000_000);
    let s = ActiveWorkSession::new("x".to_string(), None, "p".to_string());
    assert!(s.start.seconds >= t.seconds);
}

#[test]
fn saved_record_takes_store_id() {
    let r = record(UNSAVED_ID, 0, "d", 60, "p");
    assert_eq!(r.clone().numbered(12).unwrap().id, 12);
    assert!(r.clone().numbered(i64::from(i32::MAX) + 1).is_none());
    assert_eq!(r.copied().description, "d");
}
