//! Tests of authentication, the client session, configuration merging and
//! the telemetry batcher.

use base64::Engine;
use hmac::KeyInit;
use hmac::Mac;
use bot_controller::auth::{authenticate, make_digest, make_random_string};
use bot_controller::config::ControllerMode;
use bot_controller::merge::{merge_values, Value};
use bot_controller::message::{Command, Message, TimestampedMessage};
use bot_controller::session::{
    ClientFlowControl, ClientSession, ErrorCode, MessageToClient, MessageToServer,
    TelemetryBatcher, MAX_SEND_LATENCY_MILLIS, PING_TIMEOUT_MILLIS,
};
use bot_controller::gimbal_poller::ValueTracker;
use bot_controller::message::{
    GimbalRequestScope, GimbalValueAddress, GimbalValueData, GimbalValueRequest,
};

#[test]
fn auth_round_trip_accepts_honest_digest() {
    // The client digest is the base64 of HMAC-SHA-512("k", "abc"); computed
    // both through the library and directly against the crypto crates.
    let digest = make_digest("abc", "k");
    let mut mac = hmac::Hmac::<sha2::Sha512>::new_from_slice(b"k").unwrap();
    mac.update(b"abc");
    let expected = base64::engine::general_purpose::STANDARD.encode(mac.finalize().into_bytes());
    assert_eq!(digest, expected);
    assert!(authenticate("abc", "k", &digest));
}

#[test]
fn auth_rejects_tampered_digest() {
    let digest = make_digest("abc", "k");
    // Flip one bit of the first character.
    let mut bytes = digest.clone().into_bytes();
    bytes[0] ^= 0x01;
    let tampered = String::from_utf8(bytes).unwrap();
    assert!(!authenticate("abc", "k", &tampered));
    // A different key fails too, as does text that is not base64.
    assert!(!authenticate("abc", "wrong", &digest));
    assert!(!authenticate("abc", "k", "!!not-base64!!"));
}

#[test]
fn session_honors_commands_only_after_auth() {
    let mut session = ClientSession::new(String::from("abc"));

    // A command before authentication earns an error and goes nowhere.
    let refused = session.handle_message(
        MessageToServer::Command(Command::SetMode(ControllerMode::Halted)),
        "k",
        None,
    );
    assert!(refused.forward.is_none());
    match refused.reply {
        Some(MessageToClient::Error(e)) => assert_eq!(e.code, ErrorCode::AuthRequired),
        other => panic!("unexpected reply {:?}", other),
    }

    // The honest digest authenticates.
    let digest = make_digest("abc", "k");
    let ok = session.handle_message(MessageToServer::Auth(digest), "k", None);
    assert_eq!(ok.reply, Some(MessageToClient::AuthStatus(true)));

    // The same command is now forwarded to the bus.
    let honored = session.handle_message(
        MessageToServer::Command(Command::SetMode(ControllerMode::Halted)),
        "k",
        None,
    );
    assert!(honored.reply.is_none());
    assert_eq!(
        honored.forward,
        Some(Message::Command(Command::SetMode(ControllerMode::Halted)))
    );
}

#[test]
fn session_rejects_wrong_digest() {
    let mut session = ClientSession::new(String::from("abc"));
    let wrong = make_digest("abc", "other-key");
    let r = session.handle_message(MessageToServer::Auth(wrong), "k", None);
    assert_eq!(r.reply, Some(MessageToClient::AuthStatus(false)));
    let still_refused = session.handle_message(
        MessageToServer::Command(Command::ManualControlReset),
        "k",
        None,
    );
    assert!(still_refused.forward.is_none());
}

#[test]
fn random_challenge_has_fixed_length() {
    let a = make_random_string();
    assert_eq!(a.len(), 30);
}

fn obj(entries: Vec<(&str, Value)>) -> Value {
    Value::Object(entries.into_iter().map(|(k, v)| (String::from(k), v)).collect())
}

fn get<'a>(v: &'a Value, key: &str) -> Option<&'a Value> {
    match v {
        Value::Object(fields) => fields.iter().find(|(k, _)| k == key).map(|(_, x)| x),
        _ => None,
    }
}

#[test]
fn merge_object_null_deletes_key() {
    let base = obj(vec![
        ("keep", Value::Number(1)),
        ("drop", Value::Number(2)),
    ]);
    let update = obj(vec![("drop", Value::Null)]);
    let merged = merge_values(&base, &update);
    assert!(get(&merged, "drop").is_none());
    assert_eq!(get(&merged, "keep"), Some(&Value::Number(1)));
}

#[test]
fn merge_array_null_skips_element() {
    let base = Value::Array(vec![Value::Number(1), Value::Number(2)]);
    let update = Value::Array(vec![Value::Null, Value::Number(9)]);
    let merged = merge_values(&base, &update);
    assert_eq!(merged, Value::Array(vec![Value::Number(1), Value::Number(9)]));
}

#[test]
fn merge_scalar_replaces_wholesale() {
    let base = obj(vec![("x", Value::Number(1))]);
    let update = Value::Bool(true);
    assert_eq!(merge_values(&base, &update), Value::Bool(true));

    // Scalars replace inside objects too, and new keys are created.
    let update2 = obj(vec![
        ("x", Value::Str(String::from("seven"))),
        ("y", Value::Number(3)),
    ]);
    let merged = merge_values(&base, &update2);
    assert_eq!(get(&merged, "x"), Some(&Value::Str(String::from("seven"))));
    assert_eq!(get(&merged, "y"), Some(&Value::Number(3)));
}

#[test]
fn merge_recurses_into_nested_objects() {
    let base = obj(vec![(
        "gimbal",
        obj(vec![("max_rate", Value::Number(5)), ("gain", Value::Number(2))]),
    )]);
    let update = obj(vec![("gimbal", obj(vec![("gain", Value::Number(7))]))]);
    let merged = merge_values(&base, &update);
    let gimbal = get(&merged, "gimbal").unwrap();
    assert_eq!(get(gimbal, "max_rate"), Some(&Value::Number(5)));
    assert_eq!(get(gimbal, "gain"), Some(&Value::Number(7)));
}

#[test]
fn merge_array_appends_past_end() {
    let base = Value::Array(vec![Value::Number(1)]);
    let update = Value::Array(vec![Value::Null, Value::Null, Value::Number(3)]);
    let merged = merge_values(&base, &update);
    assert_eq!(
        merged,
        Value::Array(vec![Value::Number(1), Value::Null, Value::Number(3)])
    );
}

#[test]
fn batcher_keeps_timestamps_monotone() {
    let mut batcher = TelemetryBatcher::new(100);
    // A message from before the connection opened is dropped.
    batcher.push(TimestampedMessage {
        timestamp: 50,
        message: Message::Command(Command::ManualControlReset),
    });
    batcher.push(TimestampedMessage {
        timestamp: 105,
        message: Message::Command(Command::ManualControlReset),
    });
    batcher.push(TimestampedMessage {
        timestamp: 107,
        message: Message::Command(Command::GimbalMotorEnable(true)),
    });
    batcher.push(TimestampedMessage {
        timestamp: 107,
        message: Message::Command(Command::ManualControlReset),
    });
    let batch = batcher.take_batch();
    let stamps: Vec<u64> = batch.iter().map(|(t, _)| *t).collect();
    assert_eq!(stamps, vec![5, 7, 7]);
    assert!(stamps.windows(2).all(|w| w[0] <= w[1]));
    // The queue drained completely.
    assert!(batcher.take_batch().is_empty());
}

#[test]
fn tracker_round_robin_serves_requests() {
    let mut tracker = ValueTracker::new();
    let addr = GimbalValueAddress { target: 2, index: 0x2c };
    tracker.store_request(
        1000,
        GimbalValueRequest { addr, scope: GimbalRequestScope::Once },
    );
    // The one-shot request is served exactly once.
    assert_eq!(tracker.next_request(1001), Some(addr));
    assert_eq!(tracker.next_request(1002), None);

    // A continuous request keeps serving until it expires.
    tracker.store_request(
        2000,
        GimbalValueRequest { addr, scope: GimbalRequestScope::Continuous },
    );
    assert_eq!(tracker.next_request(2100), Some(addr));
    assert_eq!(tracker.next_request(2200), Some(addr));
    assert_eq!(tracker.next_request(2600), None);

    // Pending writes come back in slot order and are consumed.
    tracker.store_write(GimbalValueData { addr, value: -5 });
    assert_eq!(tracker.next_write(), Some(GimbalValueData { addr, value: -5 }));
    assert_eq!(tracker.next_write(), None);
}

#[test]
fn flow_control_pings_sends_and_times_out() {
    let mut fc = ClientFlowControl::new();
    // First cycle pings at once and may send.
    let d = fc.sender_poll(10);
    assert!(d.need_ping);
    assert!(d.can_send);
    assert!(!d.timed_out);

    // The echo of that ping is accepted; a future timestamp is not.
    assert!(fc.handle_pong(10, 14));
    assert!(!fc.handle_pong(99, 99));

    // While the client answers promptly, batches keep flowing.
    let d2 = fc.sender_poll(50);
    assert!(!d2.need_ping);
    assert!(d2.can_send);

    // Once the client goes quiet past the send latency, batches pause,
    // and past the ping timeout the connection is closed.
    let quiet = 10 + MAX_SEND_LATENCY_MILLIS + 1;
    let d3 = fc.sender_poll(quiet);
    assert!(!d3.can_send);
    let dead = 10 + PING_TIMEOUT_MILLIS;
    let d4 = fc.sender_poll(dead);
    assert!(d4.timed_out);
}


#[test]
fn session_reports_update_config_failure() {
    let mut session = ClientSession::new(String::from("abc"));
    let digest = make_digest("abc", "k");
    let _ = session.handle_message(MessageToServer::Auth(digest), "k", None);

    // An adoptable update is forwarded to the bus.
    let update = Value::Object(vec![(String::from("mode"), Value::Str(String::from("Halted")))]);
    let accepted = session.handle_message(
        MessageToServer::UpdateConfig(update.clone()),
        "k",
        None,
    );
    assert!(accepted.reply.is_none());
    assert_eq!(accepted.forward, Some(Message::UpdateConfig(update.clone())));

    // One whose trial merge could not be adopted earns the failure reply
    // carrying the reason, and nothing is forwarded.
    let rejected = session.handle_message(
        MessageToServer::UpdateConfig(update),
        "k",
        Some(String::from("calibration must be nonzero")),
    );
    assert!(rejected.forward.is_none());
    match rejected.reply {
        Some(MessageToClient::Error(e)) => {
            assert_eq!(e.code, ErrorCode::UpdateConfigFailed);
            assert_eq!(e.message.as_deref(), Some("calibration must be nonzero"));
        }
        other => panic!("unexpected reply {:?}", other),
    }
}
