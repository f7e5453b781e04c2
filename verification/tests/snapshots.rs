//! Whole updates: what a snapshot is after one or more input documents.

use session_storage::config::StorageConfig;
use session_storage::document::parse_json;
use session_storage::json::JsonValue;
use session_storage::manager::{
    LoadError, RuntimeSettings, SnapshotRead, StorageEnv, StorageManager, UpdateStart,
};
use session_storage::session::{SessionMeta, SessionSnapshot, TranscriptState};
use session_storage::transcript::{resume_offset, TranscriptRead};
use session_storage::update::{follow_input, Surroundings, UpdateError};
use session_storage::usd::Usd;
use session_storage::clock::UtcTime;

fn plus(a: Usd, b: Usd) -> Usd {
    usd(dollars(a) + dollars(b))
}

fn usd(amount: f64) -> Usd {
    Usd { bits: amount.to_bits() }
}

fn dollars(amount: Usd) -> f64 {
    f64::from_bits(amount.bits)
}

fn json(text: &str) -> JsonValue {
    parse_json(text).expect("a JSON document")
}

fn env() -> StorageEnv {
    StorageEnv {
        home_dir: None,
        default_dir: ".store".to_string(),
        global_project_id: "global".to_string(),
    }
}

fn manager(project_id: &str) -> StorageManager {
    StorageManager::with_config(StorageConfig::default(), Some(project_id.to_string()), &env())
}

fn surroundings(transcript: TranscriptRead) -> Surroundings {
    Surroundings { current_dir: Some("/work".to_string()), transcript }
}

/// Reads the transcript file with the content `file` as the stored state asks.
fn read(stored: &SnapshotRead, path: &str, file: &[u8]) -> TranscriptRead {
    let fresh = TranscriptState::default();
    let state = match stored {
        SnapshotRead::Read(snapshot) => &snapshot.transcript_state,
        _ => &fresh,
    };
    let file_len = file.len() as u64;
    let offset = resume_offset(state, path, file_len) as usize;
    TranscriptRead::Unread { file_len, bytes: file[offset..].to_vec() }
}

fn update(
    manager: &StorageManager,
    input: &JsonValue,
    stored: SnapshotRead,
    transcript: TranscriptRead,
) -> SessionSnapshot {
    manager
        .update_snapshot_from_value(input, stored, &surroundings(transcript), &plus)
        .expect("an updated snapshot")
}

#[test]
fn test_snapshot_cost_accumulates_on_reset() {
    let manager = manager("test-project");

    let first_input = json(
        r#"{"session_id": "session-cost", "cost": {
            "total_cost_usd": 1.0, "total_duration_ms": 10000, "total_api_duration_ms": 5000,
            "total_lines_added": 10, "total_lines_removed": 2, "input_tokens": 1000,
            "output_tokens": 200, "cache_read_tokens": 50, "cache_write_tokens": 25}}"#,
    );
    let first = update(&manager, &first_input, SnapshotRead::Missing, TranscriptRead::Missing);

    let second_input = json(
        r#"{"session_id": "session-cost", "cost": {
            "total_cost_usd": 2.0, "total_duration_ms": 20000, "total_api_duration_ms": 9000,
            "total_lines_added": 20, "total_lines_removed": 4, "input_tokens": 2000,
            "output_tokens": 400, "cache_read_tokens": 70, "cache_write_tokens": 30}}"#,
    );
    let second =
        update(&manager, &second_input, SnapshotRead::Read(first), TranscriptRead::Missing);

    let reset_input = json(
        r#"{"session_id": "session-cost", "cost": {
            "total_cost_usd": 0.5, "total_duration_ms": 2000, "total_api_duration_ms": 1000,
            "total_lines_added": 5, "total_lines_removed": 1, "input_tokens": 500,
            "output_tokens": 100, "cache_read_tokens": 40, "cache_write_tokens": 10}}"#,
    );
    let third =
        update(&manager, &reset_input, SnapshotRead::Read(second), TranscriptRead::Missing);

    let snapshot =
        manager.get_snapshot(SnapshotRead::Read(third)).unwrap().expect("snapshot should exist");
    let cost = &snapshot.history.cost;
    assert!(
        (dollars(cost.total.total_cost_usd) - 2.5).abs() < f64::EPSILON,
        "total cost should include accumulated cycles"
    );
    assert_eq!(dollars(cost.current.total_cost_usd), 0.5);
    assert_eq!(dollars(cost.accumulated.total_cost_usd), 2.0);
    assert_eq!(dollars(cost.total.total_cost_usd), 2.5);
    assert_eq!(cost.total.total_lines_added, 25);
    assert_eq!(cost.total.total_lines_removed, 5);
    assert_eq!(cost.total.total_duration_ms, 22_000);
    assert_eq!(cost.total.total_api_duration_ms, 10_000);
    assert_eq!(snapshot.meta.session_id, "session-cost");

    let kept = snapshot.latest.get("cost").expect("a cost document");
    assert!(kept.get("input_tokens").is_none());
    assert!(kept.get("output_tokens").is_none());
    assert!(kept.get("cache_read_tokens").is_none());
    assert!(kept.get("cache_write_tokens").is_none());
    assert_eq!(kept.get("total_lines_added").unwrap().as_u64(), Some(5));
}

#[test]
fn test_snapshot_updates_tokens_from_transcript() {
    let manager = manager("token-project");
    let path = "/store/projects/token-project/token-session.jsonl";
    let mut file: Vec<u8> = Vec::new();

    file.extend_from_slice(
        br#"{"type":"assistant","uuid":"msg-1","timestamp":"2025-01-01T00:00:00Z","message":{"usage":{"input_tokens":10,"output_tokens":5,"cache_creation_input_tokens":100,"cache_read_input_tokens":20}}}"#,
    );
    file.push(b'\n');
    let input = json(
        r#"{"session_id": "token-session",
            "transcript_path": "/store/projects/token-project/token-session.jsonl",
            "cost": {"total_cost_usd": 0.1},
            "model": {"id": "sonnet-4-5-20250929", "display_name": "Sonnet 4.5"}}"#,
    );
    let stored = SnapshotRead::Missing;
    let transcript = read(&stored, path, &file);
    let first = update(&manager, &input, stored, transcript);
    let tokens = first.history.tokens.as_ref().expect("token history should exist");
    assert_eq!(tokens.context_used, 135);
    assert_eq!(first.transcript_state.processed_offset, file.len() as u64);
    assert_eq!(first.transcript_state.processed_messages, 1);

    file.extend_from_slice(
        br#"{"isCompactSummary":true,"timestamp":"2025-01-01T00:00:30Z","uuid":"summary-1"}"#,
    );
    file.push(b'\n');
    let stored = SnapshotRead::Read(first);
    let transcript = read(&stored, path, &file);
    let second = update(&manager, &input, stored, transcript);
    let tokens_after_summary =
        second.history.tokens.as_ref().expect("token history should exist after summary");
    assert_eq!(tokens_after_summary.context_used, 0);
    assert_eq!(tokens_after_summary.input, 0);
    assert_eq!(tokens_after_summary.last_timestamp.as_deref(), Some("2025-01-01T00:00:30Z"));
    assert_eq!(tokens_after_summary.last_message_uuid, None);

    file.extend_from_slice(
        br#"{"type":"assistant","uuid":"msg-2","timestamp":"2025-01-01T00:01:00Z","message":{"usage":{"input_tokens":20,"output_tokens":10,"cache_creation_input_tokens":200,"cache_read_input_tokens":40}}}"#,
    );
    file.push(b'\n');
    let stored = SnapshotRead::Read(second);
    let transcript = read(&stored, path, &file);
    let third = update(&manager, &input, stored, transcript);
    let tokens = third.history.tokens.as_ref().expect("token history should exist");
    assert_eq!(tokens.input, 20);
    assert_eq!(tokens.output, 10);
    assert_eq!(tokens.cache_creation_input, 200);
    assert_eq!(tokens.cache_read_input, 40);
    assert_eq!(tokens.context_used, 270);
    assert_eq!(tokens.last_message_uuid.as_deref(), Some("msg-2"));
    assert_eq!(tokens.system_baseline, Some(20));
    assert_eq!(third.transcript_state.processed_messages, 3);
    assert_eq!(third.transcript_state.last_message_uuid.as_deref(), Some("msg-2"));

    assert_eq!(third.history.model_usage.len(), 1);
    let model = &third.history.model_usage[0];
    assert_eq!(model.id, "sonnet-4-5-20250929");
    assert_eq!(model.display_name.as_deref(), Some("Sonnet 4.5"));
    assert_eq!(model.last_used_at.as_deref(), Some("2025-01-01T00:01:00Z"));

    // Reading the whole file at once leads to the same place.
    let stored = SnapshotRead::Missing;
    let transcript = read(&stored, path, &file);
    let at_once = update(&manager, &input, stored, transcript);
    assert_eq!(at_once.history.tokens.as_ref().unwrap().context_used, 270);
    assert_eq!(at_once.transcript_state.processed_messages, 3);
    assert_eq!(at_once.transcript_state.processed_offset, file.len() as u64);
}

#[test]
fn test_system_baseline_detected_on_first_assistant_message() {
    let manager = manager("baseline-project");
    let path = "/store/projects/baseline-project/baseline-session.jsonl";
    let mut file: Vec<u8> = Vec::new();

    file.extend_from_slice(
        br#"{"type":"assistant","uuid":"msg-1","timestamp":"2025-01-01T00:00:00Z","message":{"usage":{"input_tokens":18000,"output_tokens":500,"cache_creation_input_tokens":0,"cache_read_input_tokens":0}}}"#,
    );
    file.push(b'\n');
    let input = json(
        r#"{"session_id": "baseline-session",
            "transcript_path": "/store/projects/baseline-project/baseline-session.jsonl"}"#,
    );
    let stored = SnapshotRead::Missing;
    let transcript = read(&stored, path, &file);
    let first = update(&manager, &input, stored, transcript);
    let tokens = first.history.tokens.as_ref().expect("tokens should exist");
    assert_eq!(tokens.system_baseline, Some(18000));

    file.extend_from_slice(
        br#"{"type":"assistant","uuid":"msg-2","timestamp":"2025-01-01T00:01:00Z","message":{"usage":{"input_tokens":25000,"output_tokens":1000,"cache_creation_input_tokens":0,"cache_read_input_tokens":0}}}"#,
    );
    file.push(b'\n');
    let stored = SnapshotRead::Read(first);
    let transcript = read(&stored, path, &file);
    let second = update(&manager, &input, stored, transcript);
    let tokens = second.history.tokens.as_ref().expect("tokens should exist");
    assert_eq!(tokens.system_baseline, Some(18000));
    assert_eq!(tokens.input, 25000);
}

#[test]
fn a_disabled_manager_touches_nothing() {
    let config = StorageConfig { enable_cost_persistence: false, ..StorageConfig::default() };
    let manager = StorageManager::with_config(config, None, &env());
    let input = json(r#"{"session_id": "s", "cost": {"total_lines_added": 3}}"#);
    assert!(matches!(manager.begin_update(&input), UpdateStart::Disabled));
    let snapshot = update(&manager, &input, SnapshotRead::Unreadable, TranscriptRead::Missing);
    assert_eq!(snapshot.meta.session_id, "disabled");
    assert_eq!(snapshot.history.cost.total.total_lines_added, 0);
    assert!(snapshot.history.tokens.is_none());
    assert!(matches!(snapshot.latest, JsonValue::Null));
    assert!(manager.save_snapshot(&snapshot).is_none());
}

#[test]
fn an_input_without_a_session_is_refused() {
    let manager = manager("p");
    for text in ["{}", "[]", "null", r#"{"session_id": 7, "sessionId": "s"}"#] {
        let input = json(text);
        assert!(matches!(manager.begin_update(&input), UpdateStart::MissingSessionId));
        let result = manager.update_snapshot_from_value(
            &input,
            SnapshotRead::Missing,
            &surroundings(TranscriptRead::Missing),
            &plus,
        );
        assert_eq!(result.err(), Some(UpdateError::MissingSessionId));
    }
}

#[test]
fn a_snapshot_that_cannot_be_loaded_is_an_error() {
    let manager = manager("p");
    let input = json(r#"{"sessionId": "s"}"#);
    let around = surroundings(TranscriptRead::Missing);
    let result =
        manager.update_snapshot_from_value(&input, SnapshotRead::Unreadable, &around, &plus);
    assert_eq!(result.err(), Some(UpdateError::SnapshotUnreadable));
    let result =
        manager.update_snapshot_from_value(&input, SnapshotRead::Malformed, &around, &plus);
    assert_eq!(result.err(), Some(UpdateError::SnapshotMalformed));
    let result = manager.update_snapshot_from_value(&input, SnapshotRead::Missing, &around, &plus);
    assert_eq!(result.unwrap().meta.session_id, "s");
    assert_eq!(
        manager.get_snapshot(SnapshotRead::Unreadable).err(),
        Some(LoadError::Unreadable)
    );
    assert_eq!(manager.get_snapshot(SnapshotRead::Malformed).err(), Some(LoadError::Malformed));
    assert!(matches!(manager.get_snapshot(SnapshotRead::Missing), Ok(None)));
}

#[test]
fn a_snapshot_is_written_where_it_is_read() {
    let manager = manager("p");
    let input = json(r#"{"session_id": "abc"}"#);
    let snapshot = update(&manager, &input, SnapshotRead::Missing, TranscriptRead::Missing);
    let written = manager.save_snapshot(&snapshot).unwrap();
    let expected =
        [".store", "projects", "p", "statusline-pro", "sessions", "abc.json"].map(String::from);
    assert_eq!(written.segments, expected);
    match manager.begin_update(&input) {
        UpdateStart::Load(path) => assert_eq!(path.segments, written.segments),
        _ => panic!("the snapshot is loaded"),
    }
}

#[test]
fn counters_that_overflow_are_reported() {
    let manager = manager("p");
    let around = surroundings(TranscriptRead::Missing);
    let high = json(r#"{"session_id": "s", "cost": {"total_duration_ms": 18446744073709551615}}"#);
    let low = json(r#"{"session_id": "s", "cost": {"total_duration_ms": 1}}"#);
    let stored = update(&manager, &high, SnapshotRead::Missing, TranscriptRead::Missing);
    let result =
        manager.update_snapshot_from_value(&low, SnapshotRead::Read(stored), &around, &plus);
    assert_eq!(result.err(), Some(UpdateError::CounterOverflow));

    let input = json(r#"{"session_id": "s", "transcript_path": "t"}"#);
    let line = br#"{"type":"assistant","message":{"usage":{"input_tokens":18446744073709551615,"output_tokens":1}}}"#;
    let around = surroundings(TranscriptRead::Unread {
        file_len: line.len() as u64,
        bytes: line.to_vec(),
    });
    let result =
        manager.update_snapshot_from_value(&input, SnapshotRead::Missing, &around, &plus);
    assert_eq!(result.err(), Some(UpdateError::CounterOverflow));
}

#[test]
fn an_unreadable_transcript_is_an_error() {
    let manager = manager("p");
    let input = json(r#"{"session_id": "s", "transcriptPath": "t", "timestamp": "now"}"#);
    for transcript in [
        TranscriptRead::Unreadable,
        TranscriptRead::Unread { file_len: 2, bytes: vec![0xff, 10] },
    ] {
        let around = surroundings(transcript);
        let result =
            manager.update_snapshot_from_value(&input, SnapshotRead::Missing, &around, &plus);
        assert_eq!(result.err(), Some(UpdateError::TranscriptUnreadable));
        // Where the input names no transcript, none is looked at.
        let quiet = json(r#"{"session_id": "s"}"#);
        let result =
            manager.update_snapshot_from_value(&quiet, SnapshotRead::Missing, &around, &plus);
        assert!(result.is_ok());
    }
    let snapshot = update(&manager, &input, SnapshotRead::Missing, TranscriptRead::Missing);
    assert_eq!(snapshot.transcript_state.transcript_path.as_deref(), Some("t"));
}

#[test]
fn metadata_follow_the_update() {
    let created = UtcTime { seconds: 100, nanos: 5 };
    let updated = UtcTime { seconds: 200, nanos: 6 };
    let later = UtcTime { seconds: 300, nanos: 7 };
    let around = surroundings(TranscriptRead::Missing);

    let mut blank = SessionSnapshot::new_at("old", created, created);
    blank.meta.created_at = None;
    let input = json(r#"{"session_id": "s"}"#);
    let first = follow_input(blank, "s", &input, &around, updated, created, &plus).unwrap();
    assert_eq!(first.meta.session_id, "s");
    assert_eq!(first.meta.created_at, Some(created));
    assert_eq!(first.meta.last_update_time, Some(updated));
    assert_eq!(first.meta.project_path.as_deref(), Some("/work"));

    let input = json(r#"{"session_id": "s", "workspace": {"project_dir": "/p"}}"#);
    let second = follow_input(first, "s", &input, &around, later, later, &plus).unwrap();
    assert_eq!(second.meta.created_at, Some(created));
    assert_eq!(second.meta.last_update_time, Some(later));
    assert_eq!(second.meta.project_path.as_deref(), Some("/p"));
}

#[test]
fn what_is_not_mentioned_stays() {
    let manager = manager("p");
    let line = br#"{"type":"assistant","timestamp":"t1","message":{"usage":{"input_tokens":4}}}"#;
    let input = json(
        r#"{"session_id": "s", "transcript_path": "t", "cost": {"total_lines_added": 9},
            "modelInfo": {"model_id": "m"}}"#,
    );
    let transcript =
        TranscriptRead::Unread { file_len: line.len() as u64, bytes: line.to_vec() };
    let first = update(&manager, &input, SnapshotRead::Missing, transcript);
    let quiet = json(r#"{"session_id": "s"}"#);
    let second =
        update(&manager, &quiet, SnapshotRead::Read(first), TranscriptRead::Missing);
    assert_eq!(second.history.cost.total.total_lines_added, 9);
    assert_eq!(second.history.tokens.as_ref().unwrap().input, 4);
    assert_eq!(second.history.model_usage.len(), 1);
    assert_eq!(second.history.model_usage[0].last_used_at.as_deref(), Some("t1"));
    assert_eq!(second.transcript_state.transcript_path.as_deref(), Some("t"));
}

#[test]
fn new_sessions_are_dated_now() {
    let before = chrono::Utc::now().timestamp();
    let snapshot = SessionSnapshot::new("s");
    let meta = SessionMeta::default();
    let after = chrono::Utc::now().timestamp();
    for time in [snapshot.meta.created_at, snapshot.meta.last_update_time, meta.created_at] {
        let time = time.expect("a time");
        assert!(before <= time.seconds && time.seconds <= after);
        assert!(time.nanos < 1_000_000_000);
    }
    assert_eq!(snapshot.meta.session_id, "s");
    assert_eq!(meta.session_id, "");
}

#[test]
fn paths_follow_from_configuration_and_project() {
    let mut manager = StorageManager::new(
        RuntimeSettings {
            config: StorageConfig {
                storage_path: Some("/base".into()),
                ..StorageConfig::default()
            },
            project_id: None,
        },
        &env(),
    );
    assert_eq!(manager.project_id(), None);
    assert_eq!(manager.paths().user_config_dir.segments, ["statusline-pro"]);
    assert_eq!(manager.paths().user_config_path.segments, ["statusline-pro", "config.toml"]);
    assert_eq!(
        manager.paths().project_config_dir.segments,
        ["projects", "global", "statusline-pro"]
    );
    assert_eq!(
        manager.paths().project_config_path.segments,
        ["projects", "global", "statusline-pro", "config.toml"]
    );
    let dirs = manager.ensure_directories();
    assert_eq!(dirs.len(), 3);
    assert_eq!(dirs[2].segments, ["projects", "global", "statusline-pro", "sessions"]);

    manager.set_project_id("mine", &env());
    assert_eq!(manager.project_id(), Some("mine"));
    assert_eq!(
        manager.paths().sessions_dir.segments,
        ["projects", "mine", "statusline-pro", "sessions"]
    );
    assert_eq!(manager.session_file_path("a").segments[4], "a.json");
}

#[test]
fn following_again_changes_only_the_time() {
    let first_time = UtcTime { seconds: 100, nanos: 5 };
    let second_time = UtcTime { seconds: 200, nanos: 6 };
    let line = br#"{"type":"assistant","uuid":"u","timestamp":"t1","message":{"usage":{"input_tokens":4}}}"#;
    let input = json(
        r#"{"session_id": "s", "transcript_path": "t", "model": {"id": "m"},
            "cost": {"total_lines_added": 9, "total_cost_usd": 0.25, "x": null}}"#,
    );
    let file_len = line.len() as u64;
    let new = SessionSnapshot::new_at("s", first_time, first_time);
    let around = surroundings(TranscriptRead::Unread { file_len, bytes: line.to_vec() });
    let once =
        follow_input(new, "s", &input, &around, first_time, first_time, &plus).unwrap();
    let again = surroundings(TranscriptRead::Unread { file_len, bytes: Vec::new() });
    let twice = follow_input(
        once.clone(),
        "s",
        &input,
        &again,
        second_time,
        second_time,
        &plus,
    )
    .unwrap();
    assert_eq!(twice.meta.last_update_time, Some(second_time));
    let same = SessionSnapshot {
        meta: SessionMeta { last_update_time: Some(first_time), ..twice.meta },
        ..twice
    };
    assert_eq!(format!("{same:?}"), format!("{once:?}"));
}

#[test]
fn a_given_directory_comes_before_the_default_one() {
    let home = StorageEnv { home_dir: Some("/home/u".into()), ..env() };
    let by_default = StorageManager::with_config(StorageConfig::default(), None, &home);
    assert_eq!(
        format!("{:?}", by_default.paths().user_config_dir),
        r#"StoragePath { root: Directory("/home/u"), segments: [".store", "statusline-pro"] }"#
    );
    let config = StorageConfig { storage_path: Some("/data".into()), ..StorageConfig::default() };
    let given = StorageManager::with_config(config, None, &home);
    assert_eq!(
        format!("{:?}", given.paths().user_config_dir),
        r#"StoragePath { root: Directory("/data"), segments: ["statusline-pro"] }"#
    );
    assert!(given.config().enable_conversation_tracking);
}
