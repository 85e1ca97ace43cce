use doubao_voice_input::json::JsonValue;
use doubao_voice_input::transcription::{results_from_document, TranscriptionResult};

#[test]
fn status_updates() {
    let c = TranscriptionResult::completed();
    assert_eq!((c.text.as_str(), c.is_final, c.status.as_deref(), c.error.as_deref()), ("", true, Some("completed"), None));
    let f = TranscriptionResult::failed("boom".to_string());
    assert_eq!((f.status.as_deref(), f.error.as_deref()), (Some("failed"), Some("boom")));
    let x = TranscriptionResult::cancelled();
    assert_eq!((x.status.as_deref(), x.error.as_deref(), x.is_final), (Some("cancelled"), None, true));
    let t = TranscriptionResult::text("hi".to_string(), false);
    assert_eq!((t.text.as_str(), t.is_final, t.status.is_none(), t.error.is_none()), ("hi", false, true, true));
}

#[test]
fn documents_without_results_give_nothing() {
    assert!(results_from_document(&JsonValue::Null).is_empty());
    let doc = JsonValue::Object(vec![("results".to_string(), JsonValue::Str("no".to_string()))]);
    assert!(results_from_document(&doc).is_empty());
    let doc = JsonValue::Object(vec![(
        "results".to_string(),
        JsonValue::Array(vec![
            JsonValue::Object(vec![("text".to_string(), JsonValue::Number(Some(1)))]),
            JsonValue::Null,
            JsonValue::Object(vec![
                ("text".to_string(), JsonValue::Str("ok".to_string())),
                ("is_interim".to_string(), JsonValue::Str("false".to_string())),
            ]),
        ]),
    )]);
    let r = results_from_document(&doc);
    assert_eq!(r.len(), 1);
    assert_eq!(r[0].text, "ok");
    assert!(!r[0].is_final);
}

#[test]
fn json_lookups() {
    let doc = JsonValue::Object(vec![
        ("a".to_string(), JsonValue::Bool(true)),
        ("b".to_string(), JsonValue::Number(Some(-3))),
        ("c".to_string(), JsonValue::Array(vec![JsonValue::Null])),
    ]);
    assert_eq!(doc.get("a").and_then(|v| v.as_bool()), Some(true));
    assert_eq!(doc.get("b").and_then(|v| v.as_i64()), Some(-3));
    assert_eq!(doc.get("c").and_then(|v| v.as_array()).map(|v| v.len()), Some(1));
    assert!(doc.get("d").is_none());
    assert!(doc.get("a").and_then(|v| v.as_str()).is_none());
}
