//! The bus client: registration messages, declared order across reconnects,
//! and the id-filtered payloads.

use coproc::data::Tag;
use coproc::nt::{
    registration_message, tag_payloads, value_frames, Action, BusClient, Event, Phase, Topic,
    RETRY_DELAY_MS,
};

fn topics() -> Vec<Topic> {
    vec![
        Topic::new(String::from("/vision/tags"), 16, String::from("json"), 4).unwrap(),
        Topic::new(String::from("/vision/ids"), 8, String::from("int[]"), 18).unwrap(),
        Topic::new(String::from("/vision/time"), 4, String::from("double"), 1).unwrap(),
    ]
}

#[test]
fn registration_message_is_single_publish_array() {
    let t = Topic::new(String::from("/vision/tags"), 16, String::from("json"), 4).unwrap();
    let msg = registration_message(&t);
    assert_eq!(
        msg,
        "[{\"method\":\"publish\",\"params\":{\"name\":\"/vision/tags\",\"properties\":{},\"pubuid\":16,\"type\":\"json\"}}]"
    );
    // Well-formed JSON: parses as an array holding exactly one publish request.
    let v: serde_json::Value = serde_json::from_str(&msg).unwrap();
    let arr = v.as_array().unwrap();
    assert_eq!(arr.len(), 1);
    assert_eq!(arr[0]["method"], "publish");
    assert_eq!(arr[0]["params"]["pubuid"], 16);
    assert_eq!(arr[0]["params"]["name"], "/vision/tags");
    assert_eq!(arr[0]["params"]["type"], "json");
    assert!(arr[0]["params"]["properties"].as_object().unwrap().is_empty());
}

#[test]
fn handshake_subprotocol_is_fixed() {
    assert_eq!(coproc::nt::subprotocol(), "v4.1.networktables.first.wpi.edu");
    assert_eq!(coproc::nt::TICK_MS, 20);
}

#[test]
fn topic_rejects_text_that_needs_escaping() {
    assert!(Topic::new(String::from("/a\"b"), 1, String::from("json"), 4).is_none());
    assert!(Topic::new(String::from("/a\\b"), 1, String::from("json"), 4).is_none());
    assert!(Topic::new(String::from("/a\nb"), 1, String::from("json"), 4).is_none());
    assert!(Topic::new(String::from("/ok"), 1, String::from("json"), 4).is_some());
}

#[test]
fn client_rejects_duplicate_publisher_ids() {
    let mut ts = topics();
    ts[2] = Topic::new(String::from("/vision/other"), 16, String::from("double"), 1).unwrap();
    assert!(BusClient::new(ts).is_none());
    assert!(BusClient::new(topics()).is_some());
}

#[test]
fn registrations_go_out_in_declared_order() {
    let mut c = BusClient::new(topics()).unwrap();
    assert!(matches!(c.step(Event::Woke), Action::OpenConnection));
    assert!(matches!(c.step(Event::ConnectSucceeded), Action::SendRegistration { idx: 0 }));
    assert!(matches!(c.step(Event::SendSucceeded), Action::SendRegistration { idx: 1 }));
    assert!(matches!(c.step(Event::SendSucceeded), Action::SendRegistration { idx: 2 }));
    assert!(matches!(c.step(Event::SendSucceeded), Action::Idle));
    assert!(matches!(c.current_phase(), Phase::Streaming));
    assert!(matches!(c.step(Event::TickDue), Action::SendValues));
    assert_eq!(
        c.registration(1),
        "[{\"method\":\"publish\",\"params\":{\"name\":\"/vision/ids\",\"properties\":{},\"pubuid\":8,\"type\":\"int[]\"}}]"
    );
}

#[test]
fn connect_failure_backs_off_two_seconds() {
    let mut c = BusClient::new(topics()).unwrap();
    c.step(Event::Woke);
    let a = c.step(Event::ConnectFailed);
    assert!(matches!(a, Action::Sleep { ms } if ms == RETRY_DELAY_MS));
    assert_eq!(RETRY_DELAY_MS, 2000);
    assert!(matches!(c.current_phase(), Phase::Disconnected));
}

#[test]
fn send_failure_while_streaming_disconnects_and_reregisters() {
    let mut c = BusClient::new(topics()).unwrap();
    c.step(Event::Woke);
    c.step(Event::ConnectSucceeded);
    c.step(Event::SendSucceeded);
    c.step(Event::SendSucceeded);
    c.step(Event::SendSucceeded);
    assert!(matches!(c.current_phase(), Phase::Streaming));
    c.step(Event::TickDue);

    // A forced send failure while streaming drops straight to Disconnected.
    c.step(Event::SendFailed);
    assert!(matches!(c.current_phase(), Phase::Disconnected));

    // The next successful connect starts the registration sequence from the
    // first topic again, before any value frame.
    c.step(Event::Woke);
    assert!(matches!(c.step(Event::ConnectSucceeded), Action::SendRegistration { idx: 0 }));
    assert!(matches!(c.step(Event::SendSucceeded), Action::SendRegistration { idx: 1 }));
    assert!(matches!(c.step(Event::TickDue), Action::Idle));
}

#[test]
fn registration_failure_backs_off_and_restarts() {
    let mut c = BusClient::new(topics()).unwrap();
    c.step(Event::Woke);
    c.step(Event::ConnectSucceeded);
    let a = c.step(Event::SendFailed);
    assert!(matches!(a, Action::Sleep { ms: 2000 }));
    assert!(matches!(c.current_phase(), Phase::Disconnected));
}

#[test]
fn payloads_keep_only_identified_targets() {
    let tags = vec![
        Tag { id: Some(1), json: String::from("{\"id\":1,\"c\":[0.5,0.5]}") },
        Tag { id: None, json: String::from("{\"c\":[0.1,0.9]}") },
        Tag { id: Some(7), json: String::from("{\"id\":7,\"c\":[0.2,0.3]}") },
    ];
    let (ids, json) = tag_payloads(&tags);
    assert_eq!(ids, vec![1, 7]);
    assert_eq!(json, "[{\"id\":1,\"c\":[0.5,0.5]},{\"id\":7,\"c\":[0.2,0.3]}]");
    let v: serde_json::Value = serde_json::from_str(&json).unwrap();
    assert_eq!(v.as_array().unwrap().len(), 2);
}

#[test]
fn value_frames_pack_the_wire_tuples() {
    let tags = vec![
        Tag { id: Some(5), json: String::from("{\"id\":5}") },
        Tag { id: None, json: String::from("{}") },
    ];
    let ts = topics();
    let (tags_frame, ids_frame) = value_frames(&tags, &ts[0], &ts[1]);

    // Each frame is a four-element MessagePack array.
    assert_eq!(tags_frame[0], 0x94);
    assert_eq!(ids_frame[0], 0x94);

    // Decoding gives back exactly the (publisher, 0, type, value) tuples.
    let t: (u32, i64, u32, String) = rmp_serde::from_slice(&tags_frame).unwrap();
    assert_eq!(t, (16, 0, 4, String::from("[{\"id\":5}]")));
    let i: (u32, i64, u32, Vec<u32>) = rmp_serde::from_slice(&ids_frame).unwrap();
    assert_eq!(i, (8, 0, 18, vec![5]));
}

#[test]
fn payloads_of_no_targets_are_empty() {
    let (ids, json) = tag_payloads(&Vec::new());
    assert!(ids.is_empty());
    assert_eq!(json, "[]");
}
