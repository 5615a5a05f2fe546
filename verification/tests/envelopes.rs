//! Envelope shape tests: exact wire strings, decimal keys, pass-through.

use gql_sessions::commands::register_session;
use gql_sessions::commands::settle_after_probe;
use gql_sessions::commands::unsubscribe;
use gql_sessions::commands::StartReply;
use gql_sessions::envelope::decimal_string;
use gql_sessions::envelope::next_envelope;
use gql_sessions::envelope::pending_envelope;
use gql_sessions::envelope::results_envelope;
use gql_sessions::registry::SessionRegistry;

#[test]
fn decimal_rendering_is_exact() {
    assert_eq!(decimal_string(0), "0");
    assert_eq!(decimal_string(7), "7");
    assert_eq!(decimal_string(10), "10");
    assert_eq!(decimal_string(305), "305");
    assert_eq!(decimal_string(u32::MAX), "4294967295");
}

#[test]
fn envelope_shapes_are_exact() {
    assert_eq!(results_envelope("{\"a\":[1,2]}"), "{\"results\":{\"a\":[1,2]}}");
    assert_eq!(pending_envelope(1), "{\"pending\":1}");
    assert_eq!(pending_envelope(230), "{\"pending\":230}");
    assert_eq!(next_envelope("null", 12), "{\"next\":null,\"subscription\":12}");
}

#[test]
fn payload_text_passes_through_unchanged() {
    // The layer does not reinterpret the engine's serialized result: spacing
    // and key order survive as produced.
    let payload = "{\"b\": 1, \"a\": [true, null]}";
    assert_eq!(
        results_envelope(payload),
        "{\"results\":{\"b\": 1, \"a\": [true, null]}}"
    );
}

#[test]
fn pending_envelope_carries_a_multi_digit_key() {
    let mut reg: SessionRegistry<String> = SessionRegistry::new();
    for _ in 0..11 {
        let key = register_session(&mut reg, String::from("s"));
        unsubscribe(&mut reg, key);
    }
    let key = register_session(&mut reg, String::from("s"));
    assert_eq!(key, 12);
    let reply = settle_after_probe(&mut reg, key, false, None);
    assert_eq!(reply, StartReply::Pending(String::from("{\"pending\":12}")));
}
