//! Lifecycle tests: start-query classification, dispatching, teardown.

use gql_sessions::commands::register_session;
use gql_sessions::commands::settle_after_probe;
use gql_sessions::commands::unsubscribe;
use gql_sessions::commands::DispatchEvent;
use gql_sessions::commands::DispatchStep;
use gql_sessions::commands::StartReply;
use gql_sessions::registry::SessionRegistry;

fn fresh() -> SessionRegistry<String> {
    SessionRegistry::new()
}

#[test]
fn immediate_query_leaves_no_residue() {
    let mut reg = fresh();
    let key = register_session(&mut reg, String::from("immediate-result query"));
    assert_eq!(key, 1);
    let reply = settle_after_probe(
        &mut reg,
        key,
        true,
        Some(String::from("{\"data\":{\"me\":\"ok\"}}")),
    );
    assert_eq!(
        reply,
        StartReply::Results(String::from("{\"results\":{\"data\":{\"me\":\"ok\"}}}"))
    );
    assert!(!reg.contains_key(key));
    assert!(reg.is_empty());
}

#[test]
fn streaming_query_emits_in_order() {
    let mut reg = fresh();
    let key = register_session(&mut reg, String::from("streaming query"));
    assert_eq!(key, 1);
    let reply = settle_after_probe(&mut reg, key, false, None);
    assert_eq!(reply, StartReply::Pending(String::from("{\"pending\":1}")));
    assert!(reg.contains_key(key));

    let mut seen: Vec<String> = Vec::new();
    for n in 1..4 {
        let payload = format!("{{\"n\":{}}}", n);
        match dispatch(&mut reg, key, DispatchEvent::Payload(payload)) {
            DispatchStep::Forward(envelope) => seen.push(envelope),
            other => panic!("expected a forward, got {:?}", other),
        }
    }
    assert_eq!(
        seen,
        vec![
            String::from("{\"next\":{\"n\":1},\"subscription\":1}"),
            String::from("{\"next\":{\"n\":2},\"subscription\":1}"),
            String::from("{\"next\":{\"n\":3},\"subscription\":1}"),
        ]
    );
    assert!(reg.contains_key(key));

    assert_eq!(dispatch(&mut reg, key, DispatchEvent::Closed), DispatchStep::Stop);
    assert!(!reg.contains_key(key));
    assert!(reg.is_empty());
}

#[test]
fn immediate_query_leaves_prior_sessions_untouched() {
    let mut reg = fresh();
    let open = register_session(&mut reg, String::from("streaming query"));
    let _ = settle_after_probe(&mut reg, open, false, None);

    let key = register_session(&mut reg, String::from("immediate-result query"));
    let reply = settle_after_probe(&mut reg, key, true, Some(String::from("1")));
    assert_eq!(reply, StartReply::Results(String::from("{\"results\":1}")));
    assert!(!reg.contains_key(key));
    assert!(reg.contains_key(open));
}

#[test]
fn unsubscribe_unknown_key_is_a_noop() {
    let mut reg = fresh();
    unsubscribe(&mut reg, 42);
    assert!(reg.is_empty());

    let key = register_session(&mut reg, String::from("open session"));
    unsubscribe(&mut reg, key + 1);
    assert!(reg.contains_key(key));
}

#[test]
fn unsubscribe_suppresses_further_events() {
    let mut reg = fresh();
    let key = register_session(&mut reg, String::from("streaming query"));
    let _ = settle_after_probe(&mut reg, key, false, None);
    match dispatch(&mut reg, key, DispatchEvent::Payload(String::from("{\"n\":1}"))) {
        DispatchStep::Forward(_) => {}
        other => panic!("expected a forward, got {:?}", other),
    }

    unsubscribe(&mut reg, key);
    assert!(!reg.contains_key(key));

    // The producer would still emit, but nothing is forwarded any more.
    assert_eq!(
        dispatch(&mut reg, key, DispatchEvent::Payload(String::from("{\"n\":2}"))),
        DispatchStep::Stop
    );
    assert_eq!(dispatch(&mut reg, key, DispatchEvent::Closed), DispatchStep::Stop);
}

#[test]
fn keys_increase_and_are_never_reused() {
    let mut reg = fresh();
    assert!(reg.can_allocate());
    let k1 = register_session(&mut reg, String::from("a"));
    let k2 = register_session(&mut reg, String::from("b"));
    let k3 = register_session(&mut reg, String::from("c"));
    assert_eq!((k1, k2, k3), (1, 2, 3));

    unsubscribe(&mut reg, k2);
    let k4 = register_session(&mut reg, String::from("d"));
    assert_eq!(k4, 4);
    assert!(reg.contains_key(k1) && reg.contains_key(k3) && reg.contains_key(k4));
    assert!(!reg.contains_key(k2));
}

#[test]
fn sessions_are_independent() {
    let mut reg = fresh();
    let first = register_session(&mut reg, String::from("first"));
    let second = register_session(&mut reg, String::from("second"));
    assert_ne!(first, second);

    let event = |n: i32| DispatchEvent::Payload(format!("{{\"n\":{}}}", n));
    let forwarded = |step: DispatchStep| match step {
        DispatchStep::Forward(envelope) => envelope,
        other => panic!("expected a forward, got {:?}", other),
    };
    let e1 = forwarded(dispatch(&mut reg, first, event(7)));
    let e2 = forwarded(dispatch(&mut reg, second, event(7)));
    assert_eq!(e1, "{\"next\":{\"n\":7},\"subscription\":1}");
    assert_eq!(e2, "{\"next\":{\"n\":7},\"subscription\":2}");
    assert_ne!(e1, e2);

    // Tearing the first session down leaves the second one streaming.
    unsubscribe(&mut reg, first);
    assert_eq!(
        forwarded(dispatch(&mut reg, second, event(8))),
        "{\"next\":{\"n\":8},\"subscription\":2}"
    );
    assert_eq!(dispatch(&mut reg, first, event(8)), DispatchStep::Stop);
}

#[test]
fn missing_first_payload_is_an_error() {
    let mut reg = fresh();
    let key = register_session(&mut reg, String::from("q"));
    let reply = settle_after_probe(&mut reg, key, true, None);
    assert_eq!(
        reply,
        StartReply::Failed(String::from("result channel closed before a payload arrived"))
    );
    assert!(reg.is_empty());
}

#[test]
fn invalid_first_payload_is_an_error() {
    let mut reg = fresh();
    let key = register_session(&mut reg, String::from("q"));
    let reply = settle_after_probe(&mut reg, key, true, Some(String::from("{\"data\":")));
    assert_eq!(reply, StartReply::Failed(String::from("payload is not valid JSON")));
    assert!(reg.is_empty());
}

#[test]
fn dispatcher_aborts_on_invalid_payload() {
    let mut reg = fresh();
    let key = register_session(&mut reg, String::from("streaming query"));
    let _ = settle_after_probe(&mut reg, key, false, None);
    assert_eq!(
        dispatch(&mut reg, key, DispatchEvent::Payload(String::from("not json"))),
        DispatchStep::Abort(String::from("payload is not valid JSON"))
    );
    assert!(!reg.contains_key(key));
}

#[test]
fn registry_insert_rejects_a_live_key() {
    let mut reg = fresh();
    let key = reg.allocate_key();
    assert_eq!(reg.insert(key, String::from("first")), Ok(()));
    assert_eq!(reg.insert(key, String::from("second")), Err(String::from("second")));
    assert_eq!(reg.remove(key), Some(String::from("first")));
}

#[test]
fn registry_remove_transfers_ownership_once() {
    let mut reg = fresh();
    let key = reg.allocate_key();
    assert_eq!(reg.insert(key, String::from("producer")), Ok(()));
    assert_eq!(reg.remove(key), Some(String::from("producer")));
    assert_eq!(reg.remove(key), None);
    assert!(reg.is_empty());
}

fn dispatch(
    reg: &mut SessionRegistry<String>,
    key: i32,
    event: DispatchEvent,
) -> DispatchStep {
    gql_sessions::commands::dispatcher_step(reg, key, event)
}
