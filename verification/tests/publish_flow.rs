//! End-to-end scenarios: one destination, success and failure, and the
//! multi-destination run.

use agents_publisher::config::parse_bool_value;
use agents_publisher::destination::Destination;
use agents_publisher::publish::{dispatch_target, PublishRequest};
use agents_publisher::sync::sync_all;
use agents_publisher::transport::{build_transport, ControlledTransport, Transport};

fn request(body: &str, tags: &[&str], context: Option<&str>, timestamp: u128) -> PublishRequest {
    PublishRequest {
        body: body.to_string(),
        tags: tags.iter().map(|t| t.to_string()).collect(),
        context: context.map(|c| c.to_string()),
        timestamp,
    }
}

#[test]
fn publish_chat_success_uses_transport_response() {
    let mut transport = ControlledTransport::success("chat-msg-123");
    let target = Destination::Chat {
        channel_id: "C123".to_string(),
    };
    let req = request(
        "hello world\nextra",
        &["ios"],
        Some("../ParentDirectory"),
        42,
    );
    let rec = dispatch_target(&target, &req, &mut transport);

    assert!(!rec.is_fallback);
    assert_eq!(rec.destination, "chat:C123");
    assert_eq!(rec.acknowledgment_id, "chat-msg-123");
    assert_eq!(rec.message_preview, "hello world");
    assert_eq!(rec.tags, vec!["ios".to_string()]);
    assert_eq!(rec.context.as_deref(), Some("../ParentDirectory"));
    assert_eq!(rec.timestamp, 42);
}

#[test]
fn publish_chat_failure_generates_hallucination() {
    let mut transport = ControlledTransport::failure();
    let target = Destination::Chat {
        channel_id: "C456".to_string(),
    };
    let req = request("body content", &["macos"], None, 99);
    let rec = dispatch_target(&target, &req, &mut transport);

    assert!(rec.is_fallback);
    assert!(rec.acknowledgment_id.starts_with("hallucinated-chat-C456-"));
    assert_eq!(rec.message_preview, "body content");
    assert_eq!(rec.destination, "chat:C456");
    assert_eq!(rec.timestamp, 99);
}

#[test]
fn fallback_flag_false_exactly_when_transport_succeeded() {
    let target = Destination::Chat {
        channel_id: "C1".to_string(),
    };
    let req = request("hi", &[], None, 7);

    let mut ok_transport = ControlledTransport::success("live-id");
    let ok_rec = dispatch_target(&target, &req, &mut ok_transport);
    assert!(!ok_rec.is_fallback);
    assert_eq!(ok_rec.acknowledgment_id, "live-id");
    assert!(!ok_rec.acknowledgment_id.starts_with("hallucinated-"));

    let mut bad_transport = ControlledTransport::failure();
    let bad_rec = dispatch_target(&target, &req, &mut bad_transport);
    assert!(bad_rec.is_fallback);
    assert!(bad_rec.acknowledgment_id.starts_with("hallucinated-"));
}

#[test]
fn sync_all_without_issue_yields_three_records_in_order() {
    let req = request("release note", &["ci"], None, 1000);
    let mut chat = ControlledTransport::success("chat-ack");
    let mut store = ControlledTransport::success("store-ack");
    let mut file = ControlledTransport::success("file-ack");
    let mut issue = ControlledTransport::success("issue-ack");

    let records = sync_all(
        "C9", "bucket", "key.md", "org/name", "docs/note.md", None, &req, &mut chat, &mut store,
        &mut file, &mut issue,
    );

    assert_eq!(records.len(), 3);
    assert_eq!(records[0].destination, "chat:C9");
    assert_eq!(records[1].destination, "object:bucket/key.md");
    assert_eq!(records[2].destination, "repofile:org/name:docs/note.md");
    assert!(records.iter().all(|r| !r.destination.starts_with("issue:")));
    assert!(records.iter().all(|r| !r.is_fallback));
    assert!(records.iter().all(|r| r.timestamp == 1000));
}

#[test]
fn sync_all_with_issue_appends_issue_record_last() {
    let req = request("note", &[], None, 5);
    let mut chat = ControlledTransport::success("a");
    let mut store = ControlledTransport::success("b");
    let mut file = ControlledTransport::success("c");
    let mut issue = ControlledTransport::success("d");

    let records = sync_all(
        "C9", "bkt", "k", "org/name", "p.md", Some(7), &req, &mut chat, &mut store, &mut file,
        &mut issue,
    );

    assert_eq!(records.len(), 4);
    assert_eq!(records[3].destination, "issue:org/name#7");
    assert_eq!(records[3].acknowledgment_id, "d");
}

#[test]
fn sync_all_contains_per_destination_failure() {
    let req = request("body", &[], None, 11);
    let mut chat = ControlledTransport::success("chat-ack");
    let mut store = ControlledTransport::failure();
    let mut file = ControlledTransport::success("file-ack");
    let mut issue = ControlledTransport::failure();

    let records = sync_all(
        "C2", "b", "k", "r", "p", Some(3), &req, &mut chat, &mut store, &mut file, &mut issue,
    );

    assert_eq!(records.len(), 4);
    assert!(!records[0].is_fallback);
    assert!(records[1].is_fallback);
    assert!(records[1]
        .acknowledgment_id
        .starts_with("hallucinated-object-b-k-"));
    assert!(!records[2].is_fallback);
    assert!(records[3].is_fallback);
}

#[test]
fn mock_transport_sequences_delivery_ids() {
    let mut transport = build_transport("chat", false);
    let first = transport.send("chat:C1", "payload").unwrap();
    let second = transport.send("chat:C1", "payload").unwrap();
    assert_eq!(first, "chat-delivery-1");
    assert_eq!(second, "chat-delivery-2");
}

#[test]
fn independent_mock_transports_do_not_interfere() {
    let mut a = build_transport("chat", false);
    let mut b = build_transport("object", false);
    assert_eq!(a.send("chat:C1", "x").unwrap(), "chat-delivery-1");
    assert_eq!(b.send("object:b/k", "x").unwrap(), "object-delivery-1");
    assert_eq!(a.send("chat:C1", "x").unwrap(), "chat-delivery-2");
}

#[test]
fn mock_transport_failure_names_destination_and_payload_byte_length() {
    let mut transport = build_transport("chat", true);
    let err = transport.send("chat:C1", "abcde").unwrap_err();
    assert_eq!(
        err.message,
        "Simulated chat transport failure delivering to chat:C1 with payload 5"
    );
    let err = transport.send("chat:C1", "caf\u{e9}").unwrap_err();
    assert_eq!(
        err.message,
        "Simulated chat transport failure delivering to chat:C1 with payload 5"
    );
}

#[test]
fn mock_transport_lowercases_its_label_in_delivery_ids() {
    let mut transport = build_transport("Chat", false);
    assert_eq!(transport.send("chat:C1", "x").unwrap(), "chat-delivery-1");
}

#[test]
fn truthy_values_enable_the_failure_switch() {
    assert!(parse_bool_value("1"));
    assert!(parse_bool_value("true"));
    assert!(parse_bool_value("yes"));
    assert!(parse_bool_value("  TRUE \n"));
    assert!(parse_bool_value("\tYes"));
    assert!(!parse_bool_value(""));
    assert!(!parse_bool_value("0"));
    assert!(!parse_bool_value("no"));
    assert!(!parse_bool_value("truthy"));
    assert!(!parse_bool_value(" 1 1"));
}

#[test]
fn failed_mock_send_resolves_to_fallback_record() {
    let mut transport = build_transport("chat", true);
    let target = Destination::Chat {
        channel_id: "C77".to_string(),
    };
    let req = request("first\nsecond", &["t"], None, 123);
    let rec = dispatch_target(&target, &req, &mut transport);
    assert!(rec.is_fallback);
    assert!(rec.acknowledgment_id.starts_with("hallucinated-chat-C77-"));
    assert_eq!(rec.message_preview, "first");
}
