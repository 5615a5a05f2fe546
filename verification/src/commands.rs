//! The two command handlers' decision logic and the dispatcher step.
//!
//! A start-query command registers a fresh session, probes once whether the
//! engine already completed, and either replies inline with the one result
//! (removing the session at once) or leaves the session open under its key.
//! The dispatcher step classifies each later channel event for one open
//! session; explicit `unsubscribe` tears a session down idempotently.
//!
//! The host performs the blocking work — channel receives, the background
//! thread, pushing envelopes to the sink — and hands the outcomes in here as
//! plain values.

use crate::envelope::next_envelope;
use crate::envelope::next_envelope_spec;
use crate::envelope::pending_envelope;
use crate::envelope::pending_envelope_spec;
use crate::envelope::results_envelope;
use crate::envelope::results_envelope_spec;
use crate::registry::SessionRegistry;
use vstd::prelude::*;
use vstd::string::StringExecFns;

verus! {

/// Whether `serde_json` accepts a string as a JSON document.
pub uninterp spec fn json_accepted(s: Seq<char>) -> bool;

/// Relies on `serde_json::from_str::<serde_json::Value>`: whether a string
/// parses as a JSON document depends on its characters alone, and `Value`
/// accepts every JSON document.
#[verifier::external_body]
fn json_is_valid(s: &str) -> (r: bool)
    ensures
        r == json_accepted(s@),
{
    serde_json::from_str::<serde_json::Value>(s).is_ok()
}

/// The reply a start-query command returns once the completion probe has
/// been made.
#[derive(Debug, PartialEq)]
pub enum StartReply {
    /// The engine completed before the probe: the one result, enveloped;
    /// the session is already gone.
    Results(String),
    /// The session stays open: the pending envelope carrying its key.
    Pending(String),
    /// The immediate-completion path failed: an error message; the session
    /// is already gone.
    Failed(String),
}

/// One event the dispatcher receives from a session's payload channel.
#[derive(Debug, PartialEq)]
pub enum DispatchEvent {
    /// The producer emitted a payload.
    Payload(String),
    /// The channel closed: the producer will never emit again.
    Closed,
}

/// What the dispatcher must do with one event.
#[derive(Debug, PartialEq)]
pub enum DispatchStep {
    /// Push this envelope to the host sink and keep listening.
    Forward(String),
    /// The session is over and deregistered: stop the loop.
    Stop,
    /// The payload could not be framed: the session is deregistered; stop
    /// the loop and report the message.
    Abort(String),
}

/// The message returned when the completion signal fired but the payload
/// channel closed before delivering the result.
pub open spec fn closed_before_result_message() -> Seq<char> {
    "result channel closed before a payload arrived"@
}

/// The message returned or reported when a payload is not a JSON document.
pub open spec fn invalid_payload_message() -> Seq<char> {
    "payload is not valid JSON"@
}

/// Allocates a key and registers a fresh, listen-attached session under it.
/// The key is new — no earlier or live session ever had it — and the
/// session is present in the registry when the call returns.
pub fn register_session<S>(registry: &mut SessionRegistry<S>, session: S) -> (key: i32)
    requires
        old(registry).wf(),
        old(registry).next_key_spec() < i32::MAX,
    ensures
        final(registry).wf(),
        1 <= key,
        key as int == old(registry).next_key_spec(),
        final(registry).next_key_spec() == key as int + 1,
        !old(registry).sessions().contains_key(key),
        final(registry).sessions() == old(registry).sessions().insert(key, session),
        final(registry).sessions().contains_key(key),
{
    let key = registry.allocate_key();
    let r = registry.insert(key, session);
    match r {
        Ok(_) => {},
        Err(_) => {
            proof {
                assert(false);
            }
        },
    }
    key
}

/// Settles a start-query command right after the single non-blocking probe
/// of the completion signal.
///
/// `completed` is what the probe saw; when it fired, `first_payload` is
/// what the bounded receive on the payload channel then yielded (`None` if
/// that channel was already closed).  On completion the session is removed
/// — immediate sessions leave no residue — and the reply is the results
/// envelope, or an error if the payload never arrived or is not JSON.
/// Otherwise the registry is untouched and the reply is the pending
/// envelope carrying `key`.
pub fn settle_after_probe<S>(
    registry: &mut SessionRegistry<S>,
    key: i32,
    completed: bool,
    first_payload: Option<String>,
) -> (r: StartReply)
    requires
        old(registry).wf(),
        1 <= key,
    ensures
        final(registry).wf(),
        final(registry).next_key_spec() == old(registry).next_key_spec(),
        !completed ==> final(registry).sessions() == old(registry).sessions(),
        !completed ==> (r matches StartReply::Pending(e) && e@ == pending_envelope_spec(
            key as nat,
        )),
        !completed && old(registry).sessions().contains_key(key)
            ==> final(registry).sessions().contains_key(key),
        completed ==> final(registry).sessions() == old(registry).sessions().remove(key),
        completed ==> !final(registry).sessions().contains_key(key),
        completed ==> match first_payload {
            Some(p) => if json_accepted(p@) {
                r matches StartReply::Results(e) && e@ == results_envelope_spec(p@)
            } else {
                r matches StartReply::Failed(m) && m@ == invalid_payload_message()
            },
            None => r matches StartReply::Failed(m) && m@ == closed_before_result_message(),
        },
{
    if completed {
        let _dropped = registry.remove(key);
        match first_payload {
            Some(p) => {
                if json_is_valid(p.as_str()) {
                    StartReply::Results(results_envelope(p.as_str()))
                } else {
                    StartReply::Failed(String::from_str("payload is not valid JSON"))
                }
            },
            None => StartReply::Failed(
                String::from_str("result channel closed before a payload arrived"),
            ),
        }
    } else {
        StartReply::Pending(pending_envelope(key))
    }
}

/// An immediate session leaves no residue: registering a session under a
/// fresh key and then settling it as completed — the two registry steps a
/// synchronously answered start-query command performs — leaves the
/// registry's sessions exactly as they were before the command.
pub proof fn lemma_immediate_session_no_residue<S>(m: Map<i32, S>, key: i32, session: S)
    requires
        !m.contains_key(key),
    ensures
        m.insert(key, session).remove(key) == m,
{
    assert(m.insert(key, session).remove(key) =~= m);
}

/// Classifies one channel event for the open session under `key`.
///
/// A payload is forwarded — wrapped in a next envelope tagged with `key` —
/// only while the key is still registered; once the session is gone the
/// loop stops without forwarding, so no event for a removed key ever
/// reaches the host.  Channel closure deregisters the session and stops the
/// loop; a payload that is not JSON deregisters the session and aborts.
pub fn dispatcher_step<S>(
    registry: &mut SessionRegistry<S>,
    key: i32,
    event: DispatchEvent,
) -> (r: DispatchStep)
    requires
        old(registry).wf(),
        1 <= key,
    ensures
        final(registry).wf(),
        final(registry).next_key_spec() == old(registry).next_key_spec(),
        match event {
            DispatchEvent::Payload(p) => if !old(registry).sessions().contains_key(key) {
                &&& r is Stop
                &&& final(registry).sessions() == old(registry).sessions()
            } else if json_accepted(p@) {
                &&& r matches DispatchStep::Forward(e) && e@ == next_envelope_spec(p@, key as nat)
                &&& final(registry).sessions() == old(registry).sessions()
            } else {
                &&& r matches DispatchStep::Abort(m) && m@ == invalid_payload_message()
                &&& final(registry).sessions() == old(registry).sessions().remove(key)
            },
            DispatchEvent::Closed => {
                &&& r is Stop
                &&& final(registry).sessions() == old(registry).sessions().remove(key)
            },
        },
        !(event matches DispatchEvent::Payload(p) && old(registry).sessions().contains_key(key)
            && json_accepted(p@)) ==> !final(registry).sessions().contains_key(key),
{
    match event {
        DispatchEvent::Payload(p) => {
            if !registry.contains_key(key) {
                DispatchStep::Stop
            } else if json_is_valid(p.as_str()) {
                DispatchStep::Forward(next_envelope(p.as_str(), key))
            } else {
                let _dropped = registry.remove(key);
                DispatchStep::Abort(String::from_str("payload is not valid JSON"))
            }
        },
        DispatchEvent::Closed => {
            let _dropped = registry.remove(key);
            DispatchStep::Stop
        },
    }
}

/// Cancels the session under `key`, dropping its engine-side producer.
/// Removal is idempotent: an unknown key is a successful no-op, and after
/// the call the key is gone, so the dispatcher will forward nothing more
/// for it.  The same teardown serves when pushing to the host sink fails:
/// that is fatal for the affected session only.
pub fn unsubscribe<S>(registry: &mut SessionRegistry<S>, key: i32)
    requires
        old(registry).wf(),
    ensures
        final(registry).wf(),
        final(registry).next_key_spec() == old(registry).next_key_spec(),
        final(registry).sessions() == old(registry).sessions().remove(key),
        !final(registry).sessions().contains_key(key),
        !old(registry).sessions().contains_key(key) ==> final(registry).sessions() == old(
            registry,
        ).sessions(),
{
    let _dropped = registry.remove(key);
}

} // verus!
