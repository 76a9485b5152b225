use chronolog::embedding::{EmbeddingVector, VECTOR_DIM};
use chronolog::scheduler::{Action, CaptureScheduler, Event, Phase};
use chronolog::store::{ColumnType, MemoryRecord, StoreError, VectorStoreTable, fresh_record, memory_schema};

fn record_with_vector(bits: Vec<u32>) -> MemoryRecord {
    MemoryRecord {
        id: "00000000-0000-0000-0000-000000000000".to_string(),
        timestamp: "2026-01-01 00:00:00".to_string(),
        file_path: "snapshots/00000000-0000-0000-0000-000000000000.png".to_string(),
        vector: EmbeddingVector::new(bits),
    }
}

#[test]
fn memory_schema_has_the_four_fixed_columns() {
    let s = memory_schema();
    assert_eq!(s.columns.len(), 4);
    assert_eq!(s.columns[0].name, "id");
    assert!(matches!(s.columns[0].dtype, ColumnType::Utf8));
    assert!(!s.columns[0].nullable);
    assert_eq!(s.columns[1].name, "timestamp");
    assert!(matches!(s.columns[1].dtype, ColumnType::Utf8));
    assert!(!s.columns[1].nullable);
    assert_eq!(s.columns[2].name, "file_path");
    assert!(matches!(s.columns[2].dtype, ColumnType::Utf8));
    assert!(!s.columns[2].nullable);
    assert_eq!(s.columns[3].name, "vector");
    assert!(matches!(s.columns[3].dtype, ColumnType::FixedSizeListFloat32(512)));
    assert!(s.columns[3].nullable);
}

#[test]
fn open_or_create_is_idempotent() {
    let t1 = VectorStoreTable::open_or_create(Vec::new());
    let t2 = VectorStoreTable::open_or_create(Vec::new());
    assert_eq!(t1.schema.columns.len(), t2.schema.columns.len());
    let mut i: usize = 0;
    while i < t1.schema.columns.len() {
        assert_eq!(t1.schema.columns[i].name, t2.schema.columns[i].name);
        assert_eq!(t1.schema.columns[i].nullable, t2.schema.columns[i].nullable);
        match (&t1.schema.columns[i].dtype, &t2.schema.columns[i].dtype) {
            (ColumnType::Utf8, ColumnType::Utf8) => {},
            (ColumnType::FixedSizeListFloat32(a), ColumnType::FixedSizeListFloat32(b)) => {
                assert_eq!(a, b);
            },
            _ => panic!("column types differ"),
        }
        i += 1;
    }
    assert_eq!(t1.row_count(), 0);
    assert_eq!(t2.row_count(), 0);
}

#[test]
fn append_is_visible_through_a_reopened_handle() {
    // A record appended through one handle, handed back as the backing
    // contents, is visible through a second handle opened afterwards.
    let mut t1 = VectorStoreTable::open_or_create(Vec::new());
    let mut rec = record_with_vector(vec![3u32; VECTOR_DIM]);
    rec.id = "first".to_string();
    assert!(t1.append(rec).is_ok());
    let t2 = VectorStoreTable::open_or_create(t1.rows.clone());
    assert_eq!(t2.row_count(), 1);
    assert_eq!(t2.rows[0].id, "first");
    assert_eq!(t2.rows[0].vector.bits, vec![3u32; VECTOR_DIM]);
}

#[test]
fn open_preserves_existing_rows() {
    // Opening against a store that already holds records keeps every one
    // of them: nothing is truncated, dropped or migrated.
    let mut t1 = VectorStoreTable::open_or_create(Vec::new());
    assert!(t1.append(record_with_vector(vec![1u32; VECTOR_DIM])).is_ok());
    assert!(t1.append(record_with_vector(vec![2u32; VECTOR_DIM])).is_ok());
    let t2 = VectorStoreTable::open_or_create(t1.rows.clone());
    assert_eq!(t2.row_count(), 2);
    assert_eq!(t2.rows[0].vector.bits[0], 1);
    assert_eq!(t2.rows[1].vector.bits[0], 2);
}

#[test]
fn append_accepts_a_full_width_vector() {
    let mut t = VectorStoreTable::open_or_create(Vec::new());
    let r = t.append(record_with_vector(vec![0u32; VECTOR_DIM]));
    assert!(r.is_ok());
    assert_eq!(t.row_count(), 1);
}

#[test]
fn append_rejects_a_short_vector() {
    let mut t = VectorStoreTable::open_or_create(Vec::new());
    let r = t.append(record_with_vector(vec![0u32; VECTOR_DIM - 1]));
    assert!(matches!(r, Err(StoreError::SchemaMismatch)));
    assert_eq!(t.row_count(), 0);
}

#[test]
fn append_rejects_a_long_vector() {
    let mut t = VectorStoreTable::open_or_create(Vec::new());
    let r = t.append(record_with_vector(vec![0u32; VECTOR_DIM + 1]));
    assert!(matches!(r, Err(StoreError::SchemaMismatch)));
    assert_eq!(t.row_count(), 0);
}

#[test]
fn append_keeps_insertion_order() {
    let mut t = VectorStoreTable::open_or_create(Vec::new());
    let mut first = record_with_vector(vec![1u32; VECTOR_DIM]);
    first.id = "a".to_string();
    let mut second = record_with_vector(vec![2u32; VECTOR_DIM]);
    second.id = "b".to_string();
    assert!(t.append(first).is_ok());
    assert!(t.append(second).is_ok());
    assert_eq!(t.rows[0].id, "a");
    assert_eq!(t.rows[1].id, "b");
}

#[test]
fn fresh_record_shapes_its_fields() {
    let rec = fresh_record("snapshots", EmbeddingVector::new(vec![0u32; VECTOR_DIM]));
    assert_eq!(rec.id.len(), 36);
    let id_bytes = rec.id.as_bytes();
    let mut i: usize = 0;
    while i < 36 {
        if i == 8 || i == 13 || i == 18 || i == 23 {
            assert_eq!(id_bytes[i], b'-');
        } else {
            let c = id_bytes[i];
            assert!((b'0' <= c && c <= b'9') || (b'a' <= c && c <= b'f'));
        }
        i += 1;
    }
    assert!(rec.timestamp.len() >= 19);
    let ts = rec.timestamp.as_bytes();
    assert_eq!(ts[4], b'-');
    assert_eq!(ts[7], b'-');
    assert_eq!(ts[10], b' ');
    assert_eq!(ts[13], b':');
    assert_eq!(ts[16], b':');
    assert_eq!(rec.file_path, format!("snapshots/{}.png", rec.id));
    assert_eq!(rec.vector.len(), VECTOR_DIM);
}

#[test]
fn two_fresh_records_have_distinct_identifiers() {
    let a = fresh_record("snapshots", EmbeddingVector::new(Vec::new()));
    let b = fresh_record("snapshots", EmbeddingVector::new(Vec::new()));
    assert_ne!(a.id, b.id);
}

fn drive(s: &mut CaptureScheduler, events: &[Event], expected: &[Action]) {
    assert_eq!(events.len(), expected.len());
    let mut i: usize = 0;
    while i < events.len() {
        let a = s.step(events[i]);
        assert_eq!(a, expected[i]);
        i += 1;
    }
}

#[test]
fn successful_cycle_saves_one_file_and_one_row() {
    // The scenario of a solid-color capture run through a stub engine that
    // returns a fixed 512-length vector of zeros: one new snapshot file,
    // one new store row, and the stored vector round-trips to 512 zeros.
    let mut s = CaptureScheduler::new();
    let mut table = VectorStoreTable::open_or_create(Vec::new());
    drive(
        &mut s,
        &[
            Event::Tick,
            Event::Captured,
            Event::PreviewOk,
            Event::Preprocessed,
            Event::InferSucceeded { len: VECTOR_DIM },
        ],
        &[
            Action::CaptureScreen,
            Action::BuildPreview,
            Action::PreprocessFrame,
            Action::RunInference,
            Action::SaveSnapshot,
        ],
    );
    // The environment saves the snapshot, then appends the record.
    let stub_embedding: Vec<u32> = vec![0f32.to_bits(); VECTOR_DIM];
    assert_eq!(s.step(Event::SaveOk), Action::AppendRecord);
    let rec = fresh_record("snapshots", EmbeddingVector::new(stub_embedding));
    assert!(table.append(rec).is_ok());
    assert_eq!(s.step(Event::AppendOk), Action::Sleep);
    assert_eq!(s.step(Event::SleepDone), Action::AwaitTick);
    assert_eq!(s.phase, Phase::Idle);
    assert_eq!(s.files_saved, 1);
    assert_eq!(s.rows_appended, 1);
    assert_eq!(s.cycles_completed, 1);
    assert_eq!(s.cycles_skipped, 0);
    assert_eq!(table.row_count(), 1);
    let stored = &table.rows[0].vector;
    assert_eq!(stored.len(), 512);
    let mut i: usize = 0;
    while i < 512 {
        assert_eq!(f32::from_bits(stored.bits[i]), 0.0f32);
        i += 1;
    }
}

#[test]
fn no_display_cycle_skips_and_continues() {
    let mut s = CaptureScheduler::new();
    drive(
        &mut s,
        &[Event::Tick, Event::NoDisplay, Event::SleepDone],
        &[Action::CaptureScreen, Action::Sleep, Action::AwaitTick],
    );
    assert_eq!(s.phase, Phase::Idle);
    assert_eq!(s.files_saved, 0);
    assert_eq!(s.rows_appended, 0);
    assert_eq!(s.cycles_skipped, 1);
    assert_eq!(s.cycles_completed, 1);
}

#[test]
fn capture_failure_cycle_skips_and_continues() {
    let mut s = CaptureScheduler::new();
    drive(
        &mut s,
        &[Event::Tick, Event::CaptureFailed, Event::SleepDone],
        &[Action::CaptureScreen, Action::Sleep, Action::AwaitTick],
    );
    assert_eq!(s.files_saved, 0);
    assert_eq!(s.rows_appended, 0);
    assert_eq!(s.cycles_skipped, 1);
    assert_eq!(s.cycles_completed, 1);
}

#[test]
fn failing_engine_three_cycles_persist_nothing() {
    // A stub engine that always fails: three cycles, three completed sleep
    // intervals, zero files and zero rows.
    let mut s = CaptureScheduler::new();
    let mut table = VectorStoreTable::open_or_create(Vec::new());
    let mut cycle: usize = 0;
    while cycle < 3 {
        drive(
            &mut s,
            &[
                Event::Tick,
                Event::Captured,
                Event::PreviewOk,
                Event::Preprocessed,
                Event::InferFailed,
                Event::SleepDone,
            ],
            &[
                Action::CaptureScreen,
                Action::BuildPreview,
                Action::PreprocessFrame,
                Action::RunInference,
                Action::Sleep,
                Action::AwaitTick,
            ],
        );
        cycle += 1;
    }
    assert_eq!(s.files_saved, 0);
    assert_eq!(s.rows_appended, 0);
    assert_eq!(s.cycles_completed, 3);
    assert_eq!(table.row_count(), 0);
}

#[test]
fn empty_embedding_skips_persistence() {
    let mut s = CaptureScheduler::new();
    drive(
        &mut s,
        &[
            Event::Tick,
            Event::Captured,
            Event::PreviewFailed,
            Event::Preprocessed,
            Event::InferSucceeded { len: 0 },
            Event::SleepDone,
        ],
        &[
            Action::CaptureScreen,
            Action::BuildPreview,
            Action::PreprocessFrame,
            Action::RunInference,
            Action::Sleep,
            Action::AwaitTick,
        ],
    );
    assert_eq!(s.files_saved, 0);
    assert_eq!(s.rows_appended, 0);
    assert_eq!(s.cycles_completed, 1);
}

#[test]
fn save_failure_appends_no_row() {
    let mut s = CaptureScheduler::new();
    drive(
        &mut s,
        &[
            Event::Tick,
            Event::Captured,
            Event::PreviewOk,
            Event::Preprocessed,
            Event::InferSucceeded { len: VECTOR_DIM },
            Event::SaveFailed,
            Event::SleepDone,
        ],
        &[
            Action::CaptureScreen,
            Action::BuildPreview,
            Action::PreprocessFrame,
            Action::RunInference,
            Action::SaveSnapshot,
            Action::Sleep,
            Action::AwaitTick,
        ],
    );
    assert_eq!(s.files_saved, 0);
    assert_eq!(s.rows_appended, 0);
}

#[test]
fn append_failure_leaves_an_orphaned_file() {
    // The accepted inconsistency: the snapshot file stays, no row appears.
    let mut s = CaptureScheduler::new();
    drive(
        &mut s,
        &[
            Event::Tick,
            Event::Captured,
            Event::PreviewOk,
            Event::Preprocessed,
            Event::InferSucceeded { len: VECTOR_DIM },
            Event::SaveOk,
            Event::AppendFailed,
            Event::SleepDone,
        ],
        &[
            Action::CaptureScreen,
            Action::BuildPreview,
            Action::PreprocessFrame,
            Action::RunInference,
            Action::SaveSnapshot,
            Action::AppendRecord,
            Action::Sleep,
            Action::AwaitTick,
        ],
    );
    assert_eq!(s.files_saved, 1);
    assert_eq!(s.rows_appended, 0);
    assert_eq!(s.cycles_completed, 1);
}

#[test]
fn rows_never_exceed_files_across_mixed_cycles() {
    // Two fully successful cycles, then one whose append fails: three
    // files on disk, two rows in the table, and rows stay at or below
    // files throughout.
    let mut s = CaptureScheduler::new();
    let success = [
        Event::Tick,
        Event::Captured,
        Event::PreviewOk,
        Event::Preprocessed,
        Event::InferSucceeded { len: VECTOR_DIM },
        Event::SaveOk,
        Event::AppendOk,
        Event::SleepDone,
    ];
    let orphan = [
        Event::Tick,
        Event::Captured,
        Event::PreviewOk,
        Event::Preprocessed,
        Event::InferSucceeded { len: VECTOR_DIM },
        Event::SaveOk,
        Event::AppendFailed,
        Event::SleepDone,
    ];
    let mut i: usize = 0;
    while i < success.len() {
        s.step(success[i]);
        assert!(s.rows_appended <= s.files_saved);
        i += 1;
    }
    i = 0;
    while i < success.len() {
        s.step(success[i]);
        assert!(s.rows_appended <= s.files_saved);
        i += 1;
    }
    i = 0;
    while i < orphan.len() {
        s.step(orphan[i]);
        assert!(s.rows_appended <= s.files_saved);
        i += 1;
    }
    assert_eq!(s.cycles_completed, 3);
    assert_eq!(s.files_saved, 3);
    assert_eq!(s.rows_appended, 2);
}

#[test]
fn unexpected_event_changes_nothing() {
    let mut s = CaptureScheduler::new();
    let before = s;
    assert_eq!(s.step(Event::SaveOk), Action::AwaitTick);
    assert_eq!(s, before);
}
