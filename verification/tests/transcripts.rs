//! Transcripts and the cleaning up of sessions.

use session_storage::clock::UtcTime;
use session_storage::config::StorageConfig;
use session_storage::document::parse_json;
use session_storage::manager::{CleanupPlan, SessionFile, StorageEnv, StorageManager};
use session_storage::session::{SessionSnapshot, TokenHistory, TranscriptState};
use session_storage::transcript::{
    is_compact_summary, process_transcript_stream, read_tokens_from_transcript, resume_offset,
    take_in_document, token_entry_from_message, token_entry_from_summary, TranscriptError,
    TranscriptProgress, TranscriptRead,
};

fn start() -> TranscriptProgress {
    TranscriptProgress { current_offset: 0, processed_messages: 0, latest_tokens: None }
}

fn message(input: u64) -> String {
    format!(
        r#"{{"type":"assistant","uuid":"u{input}","timestamp":"t{input}","message":{{"usage":{{"input_tokens":{input}}}}}}}"#
    )
}

fn process(text: &str) -> TranscriptProgress {
    process_transcript_stream(start(), &text.as_bytes().to_vec()).unwrap()
}

fn manager(config: StorageConfig) -> StorageManager {
    let env = StorageEnv {
        home_dir: None,
        default_dir: "d".to_string(),
        global_project_id: "g".to_string(),
    };
    StorageManager::with_config(config, None, &env)
}

#[test]
fn blank_lines_are_read_and_broken_ones_are_counted() {
    let text = format!("\n  \t\n\u{a0}\u{2003}\u{3000}\nnot json\n{}\n{{}}", message(3));
    let progress = process(&text);
    assert_eq!(progress.current_offset, text.len() as u64);
    assert_eq!(progress.processed_messages, 3);
    let tokens = progress.latest_tokens.unwrap();
    assert_eq!(tokens.input, 3);
    assert_eq!(tokens.context_used, 3);
    assert_eq!(tokens.last_message_uuid.as_deref(), Some("u3"));
    assert_eq!(process("").processed_messages, 0);
}

#[test]
fn white_space_around_a_document_is_cut_off() {
    let text = format!("\u{2028}\u{85} {} \u{1680}\r\n", message(4));
    assert_eq!(process(&text).latest_tokens.unwrap().input, 4);
}

#[test]
fn reading_in_two_parts_is_reading_at_once() {
    let first = format!("{}\n", message(1));
    let second = format!("{}\n{}", message(2), message(7));
    let whole = format!("{first}{second}");
    let at_once = process(&whole);
    let halfway = process(&first);
    let in_parts =
        process_transcript_stream(halfway, &second.as_bytes().to_vec()).unwrap();
    assert_eq!(at_once.current_offset, in_parts.current_offset);
    assert_eq!(at_once.processed_messages, in_parts.processed_messages);
    let (at_once, in_parts) = (at_once.latest_tokens.unwrap(), in_parts.latest_tokens.unwrap());
    assert_eq!(at_once.input, 7);
    assert_eq!(in_parts.input, 7);
    assert_eq!(at_once.system_baseline, Some(1));
    assert_eq!(in_parts.system_baseline, Some(1));
}

#[test]
fn lines_that_are_no_text_are_refused() {
    let bytes = [message(1).as_bytes(), b"\n\xff\n"].concat();
    let result = process_transcript_stream(start(), &bytes);
    assert_eq!(result.err(), Some(TranscriptError::NotUtf8));
}

#[test]
fn counters_stay_in_range() {
    let full = TranscriptProgress { processed_messages: u64::MAX, ..start() };
    let result = process_transcript_stream(full, &b"x".to_vec());
    assert_eq!(result.err(), Some(TranscriptError::CounterOverflow));
    let full = TranscriptProgress { processed_messages: u64::MAX, ..start() };
    assert_eq!(process_transcript_stream(full, &b" ".to_vec()).unwrap().current_offset, 1);
    let far = TranscriptProgress { current_offset: u64::MAX, ..start() };
    let result = process_transcript_stream(far, &b" ".to_vec());
    assert_eq!(result.err(), Some(TranscriptError::CounterOverflow));
}

#[test]
fn messages_report_their_usage() {
    let value = parse_json(
        r#"{"type":"assistant","uuid":7,"timestamp":"t","message":{"usage":{"input_tokens":1,"output_tokens":2,"cache_creation_input_tokens":4,"cache_read_input_tokens":8}}}"#,
    )
    .unwrap();
    let tokens = token_entry_from_message(&value).unwrap();
    assert_eq!(tokens.context_used, 15);
    assert_eq!(tokens.last_message_uuid, None);
    assert_eq!(tokens.last_timestamp.as_deref(), Some("t"));
    assert_eq!(tokens.system_baseline, None);
    for text in [
        r#"{"type":"user","message":{"usage":{}}}"#,
        r#"{"type":"assistant"}"#,
        r#"{"type":"assistant","message":{}}"#,
        r#"{"message":{"usage":{}}}"#,
    ] {
        assert!(token_entry_from_message(&parse_json(text).unwrap()).is_none());
    }
}

#[test]
fn a_summary_starts_over() {
    let summary = parse_json(
        r#"{"isCompactSummary":true,"timestamp":"s","type":"assistant","message":{"usage":{"input_tokens":3}}}"#,
    )
    .unwrap();
    assert!(is_compact_summary(&summary));
    assert!(!is_compact_summary(&parse_json(r#"{"isCompactSummary":"true"}"#).unwrap()));
    assert_eq!(token_entry_from_summary(&summary).last_timestamp.as_deref(), Some("s"));
    let known = TokenHistory { input: 9, system_baseline: Some(9), ..TokenHistory::default() };
    let after = take_in_document(Some(known), &summary).unwrap().unwrap();
    assert_eq!(after.input, 0);
    assert_eq!(after.context_used, 0);
    assert_eq!(after.system_baseline, None);
    let next = take_in_document(Some(after), &parse_json(&message(5)).unwrap());
    assert_eq!(next.unwrap().unwrap().system_baseline, Some(5));
    let other = take_in_document(None, &parse_json("[1]").unwrap());
    assert!(other.unwrap().is_none());
    let huge = format!(
        r#"{{"type":"assistant","message":{{"usage":{{"input_tokens":{},"output_tokens":1}}}}}}"#,
        u64::MAX
    );
    let result = take_in_document(None, &parse_json(&huge).unwrap());
    assert_eq!(result.err(), Some(TranscriptError::CounterOverflow));
}

#[test]
fn a_summary_wipes_what_came_before() {
    let before = format!("{}\n{}\n", message(40), message(50));
    let summary = "{\"isCompactSummary\":true,\"timestamp\":\"s\"}\n";
    let rest = format!("{}\n{}", message(6), message(7));
    let after = process(&format!("{before}{summary}{rest}")).latest_tokens.unwrap();
    let alone = process(&format!("{summary}{rest}")).latest_tokens.unwrap();
    assert_eq!(after.input, 7);
    assert_eq!(after.system_baseline, Some(6));
    assert_eq!(format!("{after:?}"), format!("{alone:?}"));
}

#[test]
fn another_or_a_shorter_file_is_read_from_its_start() {
    let state = TranscriptState {
        transcript_path: Some("a".to_string()),
        processed_offset: 10,
        processed_messages: 2,
        ..TranscriptState::default()
    };
    assert_eq!(resume_offset(&state, "a", 10), 10);
    assert_eq!(resume_offset(&state, "a", 9), 0);
    assert_eq!(resume_offset(&state, "b", 10), 0);
    assert_eq!(resume_offset(&TranscriptState::default(), "a", 5), 0);

    let time = UtcTime { seconds: 0, nanos: 0 };
    let mut snapshot = SessionSnapshot::new_at("s", time, time);
    snapshot.transcript_state = state;
    let read = TranscriptRead::Unread { file_len: 4, bytes: b"x\ny\n".to_vec() };
    assert_eq!(read_tokens_from_transcript(&mut snapshot, "a", &read), Ok(()));
    assert_eq!(snapshot.transcript_state.processed_offset, 4);
    assert_eq!(snapshot.transcript_state.processed_messages, 2);
    let read = TranscriptRead::Unread { file_len: 6, bytes: b"z\n".to_vec() };
    assert_eq!(read_tokens_from_transcript(&mut snapshot, "a", &read), Ok(()));
    assert_eq!(snapshot.transcript_state.processed_offset, 6);
    assert_eq!(snapshot.transcript_state.processed_messages, 3);
    let result = read_tokens_from_transcript(&mut snapshot, "b", &TranscriptRead::Unreadable);
    assert_eq!(result, Err(TranscriptError::Unreadable));
    assert_eq!(snapshot.transcript_state.transcript_path.as_deref(), Some("a"));
    assert_eq!(snapshot.transcript_state.processed_offset, 6);
}

#[test]
fn expired_sessions_are_removed() {
    let manager = manager(StorageConfig::default());
    let now = UtcTime { seconds: 30 * 86_400 + 1000, nanos: 5 };
    let cutoff = UtcTime { seconds: 1000, nanos: 5 };
    assert_eq!(manager.plan_cleanup(&now), CleanupPlan::RemoveBefore(cutoff));
    let file = |extension: &str, seconds, nanos| SessionFile {
        extension: Some(extension.to_string()),
        modified: Some(UtcTime { seconds, nanos }),
    };
    assert!(file("json", 1000, 4).is_expired(&cutoff));
    assert!(file("json", 999, 9).is_expired(&cutoff));
    assert!(!file("json", 1000, 5).is_expired(&cutoff));
    assert!(!file("json", 1001, 0).is_expired(&cutoff));
    assert!(!file("tmp", 0, 0).is_expired(&cutoff));
    assert!(!file("JSON", 0, 0).is_expired(&cutoff));
    let unknown = SessionFile { extension: Some("json".to_string()), modified: None };
    assert!(!unknown.is_expired(&cutoff));
    let bare = SessionFile { extension: None, modified: Some(UtcTime { seconds: 0, nanos: 0 }) };
    assert!(!bare.is_expired(&cutoff));
}

#[test]
fn cleaning_up_can_be_switched_off() {
    for config in [
        StorageConfig { enable_startup_cleanup: false, ..StorageConfig::default() },
        StorageConfig { session_expiry_days: None, ..StorageConfig::default() },
        StorageConfig { session_expiry_days: Some(0), ..StorageConfig::default() },
    ] {
        assert_eq!(manager(config).cleanup_old_sessions(), CleanupPlan::Skip);
    }
}

#[test]
fn the_cutoff_lies_the_expiry_window_back() {
    let days = 3;
    let config = StorageConfig { session_expiry_days: Some(days), ..StorageConfig::default() };
    let span = chrono::Duration::try_days(i64::from(days)).unwrap();
    let before = (chrono::Utc::now() - span).timestamp();
    let plan = manager(config).cleanup_old_sessions();
    let after = (chrono::Utc::now() - span).timestamp();
    match plan {
        CleanupPlan::RemoveBefore(cutoff) => {
            assert!(before <= cutoff.seconds && cutoff.seconds <= after);
        }
        _ => panic!("a cutoff"),
    }
}

#[test]
fn a_window_beyond_all_dates_has_no_cutoff() {
    let first = chrono::DateTime::<chrono::Utc>::MIN_UTC.timestamp();
    let last = chrono::DateTime::<chrono::Utc>::MAX_UTC.timestamp();
    assert_eq!(first, session_storage::clock::FIRST_SECOND);
    assert_eq!(last, session_storage::clock::LAST_SECOND);
    let one = manager(StorageConfig { session_expiry_days: Some(1), ..StorageConfig::default() });
    let edge = UtcTime { seconds: first + 86_400, nanos: 0 };
    assert_eq!(
        one.plan_cleanup(&edge),
        CleanupPlan::RemoveBefore(UtcTime { seconds: first, nanos: 0 })
    );
    let beyond = UtcTime { seconds: first + 86_399, nanos: 999_999_999 };
    assert_eq!(one.plan_cleanup(&beyond), CleanupPlan::OutOfRange);
    let after_all = UtcTime { seconds: last + 1, nanos: 0 };
    assert_eq!(one.plan_cleanup(&after_all), CleanupPlan::OutOfRange);
    let all = manager(StorageConfig {
        session_expiry_days: Some(u32::MAX),
        ..StorageConfig::default()
    });
    assert_eq!(all.cleanup_old_sessions(), CleanupPlan::OutOfRange);
}
