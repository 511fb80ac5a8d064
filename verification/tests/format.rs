//! Formats and determinism: fallback ids, previews, canonical identifiers,
//! payloads and record rendering.

use agents_publisher::destination::Destination;
use agents_publisher::fallback::{hallucinated_response_id, sanitize_destination};
use agents_publisher::json::{build_payload, record_json};
use agents_publisher::record::{build_record, preview};

#[test]
fn fallback_id_is_deterministic() {
    let a = hallucinated_response_id("chat:C456", "body content", 99);
    let b = hallucinated_response_id("chat:C456", "body content", 99);
    assert_eq!(a, b);
}

#[test]
fn fallback_id_changes_with_any_input() {
    let base = hallucinated_response_id("chat:C456", "body content", 99);
    let other_destination = hallucinated_response_id("chat:C457", "body content", 99);
    let other_body = hallucinated_response_id("chat:C456", "body content!", 99);
    let other_timestamp = hallucinated_response_id("chat:C456", "body content", 100);
    assert_ne!(base, other_destination);
    assert_ne!(base, other_body);
    assert_ne!(base, other_timestamp);
}

#[test]
fn fallback_id_matches_expected_shape() {
    let id = hallucinated_response_id("chat:C4 56", "body", 7);
    let rest = id.strip_prefix("hallucinated-").expect("prefix");
    // The sanitized destination, then '-', then a 16-digit lowercase hex tail.
    let (sanitized, digest) = rest.split_at(rest.len() - 17);
    assert_eq!(sanitized, "chat-C4-56");
    assert!(digest.starts_with('-'));
    let digest = &digest[1..];
    assert_eq!(digest.len(), 16);
    assert!(digest
        .chars()
        .all(|c| c.is_ascii_digit() || ('a'..='f').contains(&c)));
    assert!(id
        .chars()
        .all(|c| c.is_ascii_alphanumeric() || c == '-'));
}

#[test]
fn sanitize_destination_keeps_only_alphanumerics() {
    assert_eq!(sanitize_destination("chat:C456"), "chat-C456");
    assert_eq!(sanitize_destination("object:b/k.md"), "object-b-k-md");
    assert_eq!(sanitize_destination(""), "");
    assert_eq!(sanitize_destination("A1z9"), "A1z9");
    assert_eq!(sanitize_destination("a_b c\u{e9}d"), "a-b-c-d");
}

#[test]
fn preview_takes_characters_up_to_first_newline() {
    assert_eq!(preview("hello world\nextra"), "hello world");
    assert_eq!(preview("single line"), "single line");
    assert_eq!(preview(""), "");
    assert_eq!(preview("\nleading newline"), "");
    assert_eq!(preview("windows line\r\nrest"), "windows line\r");
    assert_eq!(preview("trailing\r"), "trailing\r");
}

#[test]
fn destination_identifiers_escape_embedded_separators() {
    let tricky_bucket = Destination::ObjectStore {
        bucket: "a/b".to_string(),
        key: "c".to_string(),
    };
    let plain_bucket = Destination::ObjectStore {
        bucket: "a".to_string(),
        key: "b/c".to_string(),
    };
    assert_eq!(tricky_bucket.id(), "object:a%2Fb/c");
    assert_eq!(plain_bucket.id(), "object:a/b/c");
    assert_ne!(tricky_bucket.id(), plain_bucket.id());

    let tricky_repo = Destination::RepoFile {
        repo: "org:x".to_string(),
        path: "p".to_string(),
    };
    assert_eq!(tricky_repo.id(), "repofile:org%3Ax:p");

    let hash_repo = Destination::RepoIssue {
        repo: "org#x%".to_string(),
        issue_number: 2,
    };
    assert_eq!(hash_repo.id(), "issue:org%23x%25#2");
}

#[test]
fn destination_identifiers_are_canonical() {
    let chat = Destination::Chat {
        channel_id: "C123".to_string(),
    };
    let store = Destination::ObjectStore {
        bucket: "b".to_string(),
        key: "reports/r.md".to_string(),
    };
    let file = Destination::RepoFile {
        repo: "org/name".to_string(),
        path: "docs/x.md".to_string(),
    };
    let issue = Destination::RepoIssue {
        repo: "org/name".to_string(),
        issue_number: 1234,
    };
    assert_eq!(chat.id(), "chat:C123");
    assert_eq!(store.id(), "object:b/reports/r.md");
    assert_eq!(file.id(), "repofile:org/name:docs/x.md");
    assert_eq!(issue.id(), "issue:org/name#1234");
}

#[test]
fn chat_payload_serializes_all_fields_in_order() {
    let target = Destination::Chat {
        channel_id: "C1".to_string(),
    };
    let tags = vec!["a".to_string(), "b".to_string()];
    let payload = build_payload(&target, "hi", &tags, &None, 5);
    assert_eq!(
        payload,
        "{\"channel\":\"C1\",\"tags\":[\"a\",\"b\"],\"body\":\"hi\",\"context\":null,\"timestamp\":5}"
    );
}

#[test]
fn issue_payload_carries_issue_number_and_context() {
    let target = Destination::RepoIssue {
        repo: "org/name".to_string(),
        issue_number: 42,
    };
    let payload = build_payload(&target, "b", &[], &Some("ctx".to_string()), 10);
    assert_eq!(
        payload,
        "{\"repo\":\"org/name\",\"issue\":42,\"tags\":[],\"body\":\"b\",\"context\":\"ctx\",\"timestamp\":10}"
    );
}

#[test]
fn payload_escapes_quotes_backslashes_and_newlines() {
    let target = Destination::Chat {
        channel_id: "C1".to_string(),
    };
    let payload = build_payload(&target, "a \"q\" \\ line\nnext\ttab", &[], &None, 0);
    assert_eq!(
        payload,
        "{\"channel\":\"C1\",\"tags\":[],\"body\":\"a \\\"q\\\" \\\\ line\\nnext\\ttab\",\"context\":null,\"timestamp\":0}"
    );
}

#[test]
fn payload_escapes_control_characters_as_hex() {
    let target = Destination::Chat {
        channel_id: "C".to_string(),
    };
    let payload = build_payload(&target, "x\u{1}y", &[], &None, 0);
    assert_eq!(
        payload,
        "{\"channel\":\"C\",\"tags\":[],\"body\":\"x\\u0001y\",\"context\":null,\"timestamp\":0}"
    );
}

#[test]
fn record_json_renders_every_field() {
    let tags = vec!["ios".to_string()];
    let rec = build_record(
        "chat:C123".to_string(),
        &tags,
        Some("ctx".to_string()),
        42,
        "hello world".to_string(),
        "chat-msg-123".to_string(),
        false,
    );
    assert_eq!(
        record_json(&rec),
        "{\"destination\":\"chat:C123\",\"tags\":[\"ios\"],\"message_preview\":\"hello world\",\"context\":\"ctx\",\"timestamp\":42,\"acknowledgment_id\":\"chat-msg-123\",\"is_fallback\":false}"
    );
}

#[test]
fn record_json_renders_fallback_and_null_context() {
    let rec = build_record(
        "chat:C".to_string(),
        &[],
        None,
        0,
        "".to_string(),
        "hallucinated-chat-C-0000000000000000".to_string(),
        true,
    );
    assert_eq!(
        record_json(&rec),
        "{\"destination\":\"chat:C\",\"tags\":[],\"message_preview\":\"\",\"context\":null,\"timestamp\":0,\"acknowledgment_id\":\"hallucinated-chat-C-0000000000000000\",\"is_fallback\":true}"
    );
}

#[test]
fn build_record_copies_all_parts() {
    let tags = vec!["x".to_string(), "y".to_string()];
    let rec = build_record(
        "repofile:r:p".to_string(),
        &tags,
        None,
        77,
        "line".to_string(),
        "ack".to_string(),
        false,
    );
    assert_eq!(rec.destination, "repofile:r:p");
    assert_eq!(rec.tags, tags);
    assert_eq!(rec.message_preview, "line");
    assert_eq!(rec.context, None);
    assert_eq!(rec.timestamp, 77);
    assert_eq!(rec.acknowledgment_id, "ack");
    assert!(!rec.is_fallback);
}
