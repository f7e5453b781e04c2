//! Documents: reading them, taking them apart and reducing them.

use session_storage::cost::{CostHistory, CostMetrics};
use session_storage::document::parse_json;
use session_storage::input::{
    determine_project_path, extract_cost_value, extract_model, extract_session_id,
    extract_timestamp, extract_transcript_path,
};
use session_storage::json::{JsonObject, JsonValue};
use session_storage::models::update_model_usage;
use session_storage::sanitize::sanitize_latest_value;
use session_storage::session::SessionHistory;
use session_storage::usd::Usd;

fn json(text: &str) -> JsonValue {
    parse_json(text).expect("a JSON document")
}

/// The value as serde_json has it, for comparison.
fn outside(value: &JsonValue) -> serde_json::Value {
    match value {
        JsonValue::Null => serde_json::Value::Null,
        JsonValue::Bool(b) => serde_json::Value::Bool(*b),
        JsonValue::Number(n) => match (n.unsigned, n.signed) {
            (Some(u), _) => serde_json::Value::from(u),
            (None, Some(i)) => serde_json::Value::from(i),
            (None, None) => serde_json::Value::from(f64::from_bits(n.double_bits)),
        },
        JsonValue::Text(s) => serde_json::Value::from(s.as_str()),
        JsonValue::Array(items) => serde_json::Value::Array(items.iter().map(outside).collect()),
        JsonValue::Object(object) => serde_json::Value::Object(
            (0..object.len())
                .map(|i| (object.key(i).clone(), outside(object.value(i))))
                .collect(),
        ),
    }
}

fn expect(text: &str) -> serde_json::Value {
    serde_json::from_str(text).unwrap()
}

fn plus(a: Usd, b: Usd) -> Usd {
    Usd { bits: (f64::from_bits(a.bits) + f64::from_bits(b.bits)).to_bits() }
}

fn usd(amount: f64) -> Usd {
    Usd { bits: amount.to_bits() }
}

#[test]
fn documents_are_read_as_serde_json_reads_them() {
    for text in [
        "null",
        "true",
        "0",
        "-3",
        "18446744073709551615",
        "-9223372036854775808",
        "1.5",
        "1e300",
        r#""text""#,
        "[]",
        "{}",
        r#"[1, [2, {"a": null}], "x"]"#,
        r#"{"b": 1, "a": {"c": [true, false]}, "b": 2}"#,
    ] {
        assert_eq!(outside(&json(text)), expect(text));
        let value = JsonValue::from_value(expect(text));
        assert_eq!(outside(&value), expect(text));
        assert_eq!(outside(&value.clone()), expect(text));
    }
    for text in ["", "{", "[1,]", "nul", "1 2", "\u{a0}1"] {
        assert!(parse_json(text).is_none());
    }
}

#[test]
fn numbers_carry_their_integers_and_their_double() {
    match json("-2") {
        JsonValue::Number(n) => {
            assert_eq!(n.unsigned, None);
            assert_eq!(n.signed, Some(-2));
            assert_eq!(n.double_bits, (-2.0f64).to_bits());
        }
        _ => panic!("a number"),
    }
    match json("7") {
        JsonValue::Number(n) => {
            assert_eq!(n.unsigned, Some(7));
            assert_eq!(n.signed, Some(7));
            assert_eq!(n.double_bits, 7.0f64.to_bits());
        }
        _ => panic!("a number"),
    }
    match json("0.25") {
        JsonValue::Number(n) => {
            assert_eq!(n.unsigned, None);
            assert_eq!(n.signed, None);
            assert_eq!(n.double_bits, 0.25f64.to_bits());
        }
        _ => panic!("a number"),
    }
}

#[test]
fn members_are_found_by_key() {
    let mut object = JsonObject::new();
    assert!(object.is_empty());
    object.insert("a".to_string(), JsonValue::Bool(true));
    object.insert("b".to_string(), JsonValue::Null);
    object.insert("a".to_string(), JsonValue::Bool(false));
    assert_eq!(object.len(), 2);
    assert_eq!(object.get("a").unwrap().as_bool(), Some(false));
    assert!(object.get("c").is_none());
    let value = JsonValue::Object(object);
    assert!(matches!(value.get_either("x", "b"), Some(JsonValue::Null)));
    assert_eq!(value.get_either("a", "b").unwrap().as_bool(), Some(false));
    assert!(json("[1]").get("0").is_none());
    assert_eq!(json("3").as_str(), None);
    assert_eq!(json("3").as_bool(), None);
    assert_eq!(json("-3").as_u64(), None);
    assert_eq!(json("3.0").as_u64(), None);
}

#[test]
fn documents_are_reduced_to_what_they_say() {
    for (given, kept) in [
        ("null", "null"),
        ("{}", "{}"),
        (r#"{"a": null, "b": {}, "c": [], "d": 0, "e": "", "f": false}"#, r#"{"d": 0, "e": "", "f": false}"#),
        (r#"[null, {}, [], [null], {"a": null}, 1]"#, "[1]"),
        (r#"{"a": {"b": {"c": [null, {}]}}}"#, "{}"),
        (
            r#"{"cost": {"input_tokens": 1, "output_tokens": 2, "total_tokens": 3, "cache_read_tokens": 4, "cache_write_tokens": 5, "total_cost_usd": 1.5}, "input_tokens": 6}"#,
            r#"{"cost": {"total_cost_usd": 1.5}, "input_tokens": 6}"#,
        ),
        (r#"{"cost": {"input_tokens": 1}}"#, "{}"),
        (r#"{"cost": 5}"#, r#"{"cost": 5}"#),
        (
            r#"{"cost": {"cost": {"input_tokens": 1, "x": 2}, "y": {"input_tokens": 3}}}"#,
            r#"{"cost": {"cost": {"x": 2}, "y": {"input_tokens": 3}}}"#,
        ),
        (r#"{"cost": {"cost": {"input_tokens": 1}}}"#, "{}"),
        (r#"[{"cost": {"total_tokens": 1, "a": [null]}}, {"cost": [1]}]"#, r#"[{"cost": [1]}]"#),
    ] {
        let mut value = json(given);
        sanitize_latest_value(&mut value);
        assert_eq!(outside(&value), expect(kept));
        sanitize_latest_value(&mut value);
        assert_eq!(outside(&value), expect(kept));
    }
}

#[test]
fn inputs_are_read_under_both_spellings() {
    let input = json(
        r#"{"sessionId": "s", "sessionCost": {"a": 1}, "modelInfo": "m", "last_update_time": "t",
            "transcriptPath": "p"}"#,
    );
    assert_eq!(extract_session_id(&input), Some("s"));
    assert_eq!(outside(extract_cost_value(&input).unwrap()), expect(r#"{"a": 1}"#));
    assert_eq!(extract_model(&input).unwrap().as_str(), Some("m"));
    assert_eq!(extract_timestamp(&input), Some("t"));
    assert_eq!(extract_transcript_path(&input), Some("p"));

    let input = json(
        r#"{"session_id": null, "sessionId": "s", "timestamp": 5, "last_update_time": "t",
            "transcript_path": "a", "transcriptPath": "b", "cost": null, "sessionCost": 1}"#,
    );
    assert_eq!(extract_session_id(&input), None);
    assert_eq!(extract_timestamp(&input), Some("t"));
    assert_eq!(extract_transcript_path(&input), Some("a"));
    assert!(matches!(extract_cost_value(&input), Some(JsonValue::Null)));
    assert!(extract_model(&input).is_none());
}

#[test]
fn the_project_path_is_the_first_that_is_known() {
    let path = |text: &str, existing, current| {
        determine_project_path(&json(text), existing, current)
    };
    let all = r#"{"workspace": {"project_dir": "/w"}, "cwd": "/c"}"#;
    assert_eq!(path(all, Some("/e"), Some("/d")).as_deref(), Some("/w"));
    let camel = r#"{"workspaceInfo": {"projectDir": "/w"}, "cwd": "/c"}"#;
    assert_eq!(path(camel, Some("/e"), Some("/d")).as_deref(), Some("/w"));
    let number = r#"{"workspace": {"project_dir": 3, "projectDir": "/w"}, "currentDir": "/c"}"#;
    assert_eq!(path(number, Some("/e"), Some("/d")).as_deref(), Some("/c"));
    let empty = r#"{"workspace": {}, "workspaceInfo": {"projectDir": "/w"}}"#;
    assert_eq!(path(empty, Some("/e"), Some("/d")).as_deref(), Some("/e"));
    assert_eq!(path("{}", None, Some("/d")).as_deref(), Some("/d"));
    assert_eq!(path("{}", None, None), None);
}

#[test]
fn models_are_listed_once() {
    let mut history = SessionHistory::default();
    update_model_usage(&mut history, None, Some("t0"));
    update_model_usage(&mut history, Some(&json("{}")), Some("t0"));
    update_model_usage(&mut history, Some(&json(r#"{"id": 4}"#)), Some("t0"));
    assert!(history.model_usage.is_empty());
    update_model_usage(&mut history, Some(&json(r#"{"id": "a"}"#)), None);
    update_model_usage(
        &mut history,
        Some(&json(r#"{"model_id": "b", "displayName": "B"}"#)),
        Some("t1"),
    );
    update_model_usage(
        &mut history,
        Some(&json(r#"{"id": "a", "display_name": "A"}"#)),
        Some("t2"),
    );
    update_model_usage(&mut history, Some(&json(r#"{"id": "b"}"#)), None);
    assert_eq!(history.model_usage.len(), 2);
    assert_eq!(history.model_usage[0].id, "a");
    assert_eq!(history.model_usage[0].display_name.as_deref(), Some("A"));
    assert_eq!(history.model_usage[0].last_used_at.as_deref(), Some("t2"));
    assert_eq!(history.model_usage[1].id, "b");
    assert_eq!(history.model_usage[1].display_name.as_deref(), Some("B"));
    assert_eq!(history.model_usage[1].last_used_at.as_deref(), Some("t1"));
}

#[test]
fn metrics_are_read_from_a_cost_document() {
    let metrics = CostMetrics::from_cost_value(&json(
        r#"{"total_cost_usd": 2, "total_duration_ms": 1.5, "total_api_duration_ms": -1,
            "total_lines_added": 3, "total_lines_removed": "4"}"#,
    ));
    assert_eq!(f64::from_bits(metrics.total_cost_usd.bits), 2.0);
    assert_eq!(metrics.total_duration_ms, 0);
    assert_eq!(metrics.total_api_duration_ms, 0);
    assert_eq!(metrics.total_lines_added, 3);
    assert_eq!(metrics.total_lines_removed, 0);
    let metrics = CostMetrics::from_cost_value(&json("null"));
    assert_eq!(metrics.total_cost_usd.bits, 0);
}

#[test]
fn counters_that_start_over_are_carried() {
    let mut history = CostHistory::default();
    let reading = |lines: u64, amount: f64| CostMetrics {
        total_cost_usd: usd(amount),
        total_lines_added: lines,
        ..CostMetrics::default()
    };
    for (lines, amount, total_lines, total_amount) in [
        (5, 1.0, 5, 1.0),
        (5, 1.0, 5, 1.0),
        (8, 0.25, 8, 1.25),
        (2, 0.5, 10, 1.5),
        (0, 0.0, 10, 1.5),
        (1, 0.0, 11, 1.5),
    ] {
        let metrics = reading(lines, amount);
        assert!(history.can_apply(&metrics));
        let before = history.total.total_lines_added;
        history.apply(&metrics, &plus);
        assert_eq!(history.total.total_lines_added, total_lines);
        assert_eq!(f64::from_bits(history.total.total_cost_usd.bits), total_amount);
        assert!(before <= history.total.total_lines_added);
    }
    assert!(!history.can_apply(&reading(u64::MAX, 0.0)));
    assert!(history.can_apply(&reading(u64::MAX - 10, 0.0)));
}

#[test]
fn a_repeated_reading_is_counted_once() {
    let mut history = CostHistory::default();
    let reading = |amount: f64| CostMetrics {
        total_cost_usd: usd(amount),
        total_duration_ms: 3,
        ..CostMetrics::default()
    };
    for amount in [2.0, 0.1, 0.7, -1.0, 0.0] {
        history.apply(&reading(amount), &plus);
        let once = format!("{history:?}");
        history.apply(&reading(amount), &plus);
        assert_eq!(format!("{history:?}"), once);
    }
    assert_eq!(f64::from_bits(history.accumulated.total_cost_usd.bits), 2.0 + 0.7);
}

#[test]
fn amounts_compare_as_doubles_do() {
    let amounts = [
        0.0,
        -0.0,
        1.0,
        -1.0,
        0.5,
        -0.5,
        f64::MIN_POSITIVE,
        -f64::MIN_POSITIVE,
        f64::MAX,
        f64::MIN,
        f64::INFINITY,
        f64::NEG_INFINITY,
        f64::NAN,
        -f64::NAN,
    ];
    for a in amounts {
        for b in amounts {
            assert_eq!(usd(a).less_than(&usd(b)), a < b);
        }
    }
}
