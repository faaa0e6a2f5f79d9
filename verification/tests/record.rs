use webhook_inbox::record::{decode_error, DecodeError, WebhookPayload, WebhookRecord};
use webhook_inbox::json::JsonFault;

fn object(text: &str) -> serde_json::Map<String, serde_json::Value> {
    serde_json::from_str(text).unwrap()
}

#[test]
fn decode_accepts_an_object_of_any_shape() {
    let payload = WebhookPayload::decode(
        br#"{"foo": "bar", "n": 7, "nested": {"list": [1, 2.5, null, true]}}"#,
    )
    .unwrap();
    assert_eq!(payload.timestamp, None);
    assert_eq!(
        payload.extra,
        object(r#"{"foo": "bar", "n": 7, "nested": {"list": [1, 2.5, null, true]}}"#)
    );
}

#[test]
fn decode_accepts_the_empty_object() {
    let payload = WebhookPayload::decode(b"{}").unwrap();
    assert_eq!(payload.timestamp, None);
    assert!(payload.extra.is_empty());
}

#[test]
fn decode_splits_the_timestamp_off() {
    let payload =
        WebhookPayload::decode(br#"{"timestamp": "Jan 01, 2024 00:00:00", "foo": "bar"}"#).unwrap();
    assert_eq!(payload.timestamp.as_deref(), Some("Jan 01, 2024 00:00:00"));
    assert_eq!(payload.extra, object(r#"{"foo": "bar"}"#));
    assert!(!payload.extra.contains_key("timestamp"));
}

#[test]
fn decode_keeps_an_empty_timestamp() {
    let payload = WebhookPayload::decode(br#"{"timestamp": ""}"#).unwrap();
    assert_eq!(payload.timestamp.as_deref(), Some(""));
    assert!(payload.extra.is_empty());
}

#[test]
fn decode_rejects_text_that_is_not_json() {
    assert_eq!(WebhookPayload::decode(b"not json").unwrap_err(), DecodeError::Syntax);
    assert_eq!(WebhookPayload::decode(b"{\"a\": 1,}").unwrap_err(), DecodeError::Syntax);
    assert_eq!(WebhookPayload::decode(b"{} trailing").unwrap_err(), DecodeError::Syntax);
    assert_eq!(WebhookPayload::decode(&[0xff, 0xfe]).unwrap_err(), DecodeError::Syntax);
}

#[test]
fn decode_rejects_text_that_ends_early() {
    assert_eq!(WebhookPayload::decode(b"").unwrap_err(), DecodeError::Syntax);
    assert_eq!(WebhookPayload::decode(b"{\"a\": ").unwrap_err(), DecodeError::Syntax);
}

#[test]
fn decode_rejects_json_that_is_not_an_object() {
    assert_eq!(WebhookPayload::decode(b"[1, 2]").unwrap_err(), DecodeError::Data);
    assert_eq!(WebhookPayload::decode(b"5").unwrap_err(), DecodeError::Data);
    assert_eq!(WebhookPayload::decode(b"\"text\"").unwrap_err(), DecodeError::Data);
    assert_eq!(WebhookPayload::decode(b"null").unwrap_err(), DecodeError::Data);
}

#[test]
fn decode_accepts_a_timestamp_that_is_not_a_string() {
    let payload = WebhookPayload::decode(br#"{"timestamp": 1700000000, "foo": "bar"}"#).unwrap();
    assert_eq!(payload.timestamp, None);
    assert_eq!(payload.extra, object(r#"{"timestamp": 1700000000, "foo": "bar"}"#));

    let payload = WebhookPayload::decode(br#"{"timestamp": null}"#).unwrap();
    assert_eq!(payload.timestamp, None);
    assert_eq!(payload.extra, object(r#"{"timestamp": null}"#));

    let payload = WebhookPayload::decode(br#"{"timestamp": {"at": "noon"}}"#).unwrap();
    assert_eq!(payload.timestamp, None);
    assert_eq!(payload.extra, object(r#"{"timestamp": {"at": "noon"}}"#));
}

#[test]
fn from_object_agrees_with_decode() {
    let payload = WebhookPayload::from_object(object(r#"{"timestamp": "t", "a": [1]}"#));
    assert_eq!(payload.timestamp.as_deref(), Some("t"));
    assert_eq!(payload.extra, object(r#"{"a": [1]}"#));
    let payload = WebhookPayload::from_object(object(r#"{"timestamp": false, "a": [1]}"#));
    assert_eq!(payload.timestamp, None);
    assert_eq!(payload.extra, object(r#"{"timestamp": false, "a": [1]}"#));
    let payload = WebhookPayload::from_object(object(r#"{"a": [1]}"#));
    assert_eq!(payload.timestamp, None);
    assert_eq!(payload.extra, object(r#"{"a": [1]}"#));
}

#[test]
fn every_fault_but_data_is_a_syntax_error() {
    assert_eq!(decode_error(JsonFault::Io), DecodeError::Syntax);
    assert_eq!(decode_error(JsonFault::Syntax), DecodeError::Syntax);
    assert_eq!(decode_error(JsonFault::Eof), DecodeError::Syntax);
    assert_eq!(decode_error(JsonFault::Data), DecodeError::Data);
}

#[test]
fn a_supplied_timestamp_is_kept() {
    let payload = WebhookPayload::decode(br#"{"timestamp": "supplied", "foo": 1}"#).unwrap();
    let record = payload.into_record("now".to_string());
    assert_eq!(record.received_at, "supplied");
    assert_eq!(record.body, object(r#"{"foo": 1}"#));
}

#[test]
fn a_missing_timestamp_is_defaulted() {
    let payload = WebhookPayload::decode(br#"{"foo": 1}"#).unwrap();
    let record = payload.into_record("now".to_string());
    assert_eq!(record.received_at, "now");
    assert_eq!(record.body, object(r#"{"foo": 1}"#));
}

#[test]
fn to_json_is_the_pretty_printed_object_with_its_timestamp() {
    let record =
        WebhookRecord { received_at: "T".to_string(), body: object(r#"{"foo": "bar"}"#) };
    assert_eq!(record.to_json(), "{\n  \"foo\": \"bar\",\n  \"timestamp\": \"T\"\n}");
}

#[test]
fn to_json_of_an_empty_body_holds_the_timestamp_alone() {
    let record = WebhookRecord { received_at: "T".to_string(), body: object("{}") };
    assert_eq!(record.to_json(), "{\n  \"timestamp\": \"T\"\n}");
}

#[test]
fn to_json_round_trips_every_member() {
    let text = r#"{"z": [1, {"k": null}], "a": {"b": {"c": "d"}}, "n": -3.5, "ok": true}"#;
    let record = WebhookPayload::decode(text.as_bytes()).unwrap().into_record("T".to_string());
    let mut expected = object(text);
    expected.insert("timestamp".to_string(), serde_json::Value::String("T".to_string()));
    assert_eq!(object(&record.to_json()), expected);
}

#[test]
fn to_json_round_trips_a_supplied_timestamp() {
    let text = r#"{"timestamp": "supplied", "foo": "bar"}"#;
    let record = WebhookPayload::decode(text.as_bytes()).unwrap().into_record("T".to_string());
    assert_eq!(object(&record.to_json()), object(text));
}

#[test]
fn a_timestamp_that_is_not_a_string_is_stamped_and_listed_as_it_came() {
    let text = r#"{"timestamp": 1700000000, "foo": "bar"}"#;
    let record = WebhookPayload::decode(text.as_bytes()).unwrap().into_record("T".to_string());
    assert_eq!(record.received_at, "T");
    assert_eq!(record.body, object(text));
    assert_eq!(record.to_object(), object(text));
    assert_eq!(record.to_json(), "{\n  \"foo\": \"bar\",\n  \"timestamp\": 1700000000\n}");
}

#[test]
fn to_object_adds_the_time_of_receipt() {
    let record =
        WebhookRecord { received_at: "T".to_string(), body: object(r#"{"foo": "bar"}"#) };
    assert_eq!(record.to_object(), object(r#"{"foo": "bar", "timestamp": "T"}"#));
    assert_eq!(
        record.to_object().get("timestamp").and_then(|v| v.as_str()),
        Some("T")
    );
}

#[test]
fn to_json_leaves_the_record_as_it_was() {
    let record =
        WebhookRecord { received_at: "T".to_string(), body: object(r#"{"foo": "bar"}"#) };
    let _ = record.to_json();
    assert_eq!(record.body, object(r#"{"foo": "bar"}"#));
    assert_eq!(record.received_at, "T");
}

#[test]
fn a_clone_holds_the_same_record() {
    let record =
        WebhookRecord { received_at: "T".to_string(), body: object(r#"{"foo": [1, 2]}"#) };
    let copy = record.clone();
    assert_eq!(copy.received_at, "T");
    assert_eq!(copy.body, object(r#"{"foo": [1, 2]}"#));
    assert_eq!(record.body, copy.body);
}
