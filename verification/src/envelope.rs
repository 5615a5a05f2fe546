//! The wire envelopes the command handlers and the dispatcher reply with.
//!
//! Three shapes exist: `{"results":<value>}` for a query that completed
//! before the handler returned, `{"pending":<key>}` for a session left open,
//! and `{"next":<value>,"subscription":<key>}` for each payload a streaming
//! session later emits.  The payload text itself is passed through
//! uninterpreted; keys are printed in decimal.

use vstd::prelude::*;
use vstd::string::StringExecFns;

verus! {

/// The decimal digit for a value below ten.
pub open spec fn digit_char(d: nat) -> char {
    if d == 0 {
        '0'
    } else if d == 1 {
        '1'
    } else if d == 2 {
        '2'
    } else if d == 3 {
        '3'
    } else if d == 4 {
        '4'
    } else if d == 5 {
        '5'
    } else if d == 6 {
        '6'
    } else if d == 7 {
        '7'
    } else if d == 8 {
        '8'
    } else {
        '9'
    }
}

/// The decimal rendering of `n`, most significant digit first, with no sign
/// and no leading zero (except for `n == 0` itself).
pub open spec fn dec_digits(n: nat) -> Seq<char>
    decreases n,
{
    if n < 10 {
        seq![digit_char(n)]
    } else {
        dec_digits(n / 10).push(digit_char(n % 10))
    }
}

/// The envelope for an immediately completed query: `{"results":<value>}`.
pub open spec fn results_envelope_spec(payload: Seq<char>) -> Seq<char> {
    "{\"results\":"@ + payload + "}"@
}

/// The envelope for a session left open: `{"pending":<key>}`.
pub open spec fn pending_envelope_spec(key: nat) -> Seq<char> {
    "{\"pending\":"@ + dec_digits(key) + "}"@
}

/// The envelope for one forwarded payload of an open session:
/// `{"next":<value>,"subscription":<key>}`.
pub open spec fn next_envelope_spec(payload: Seq<char>, key: nat) -> Seq<char> {
    "{\"next\":"@ + payload + ",\"subscription\":"@ + dec_digits(key) + "}"@
}

/// A decimal rendering is never empty.
pub proof fn lemma_dec_digits_len(n: nat)
    ensures
        dec_digits(n).len() >= 1,
    decreases n,
{
    if n >= 10 {
        lemma_dec_digits_len(n / 10);
    }
}

/// Two numbers with the same decimal rendering are the same number.
pub proof fn lemma_dec_digits_injective(a: nat, b: nat)
    requires
        dec_digits(a) == dec_digits(b),
    ensures
        a == b,
    decreases a,
{
    if a < 10 && b < 10 {
        assert(dec_digits(a)[0] == digit_char(a));
        assert(dec_digits(b)[0] == digit_char(b));
    } else if a < 10 {
        lemma_dec_digits_len(b / 10);
        assert(dec_digits(a).len() == 1);
        assert(dec_digits(b).len() >= 2);
    } else if b < 10 {
        lemma_dec_digits_len(a / 10);
        assert(dec_digits(b).len() == 1);
        assert(dec_digits(a).len() >= 2);
    } else {
        let s1 = dec_digits(a / 10);
        let s2 = dec_digits(b / 10);
        assert(s1.push(digit_char(a % 10)).len() == s1.len() + 1);
        assert(s2.push(digit_char(b % 10)).len() == s2.len() + 1);
        assert(s1.len() == s2.len());
        assert(s1.push(digit_char(a % 10)).last() == s2.push(digit_char(b % 10)).last());
        assert(a % 10 == b % 10);
        assert(s1 =~= s2) by {
            assert(forall|i: int| 0 <= i < s1.len() ==> s1[i] == #[trigger] s2[i]) by {
                assert(forall|i: int| 0 <= i < s1.len() ==> s1[i] == s1.push(
                    digit_char((a % 10)),
                )[i]);
                assert(forall|i: int| 0 <= i < s2.len() ==> s2[i] == s2.push(
                    digit_char((b % 10)),
                )[i]);
            }
        }
        lemma_dec_digits_injective(a / 10, b / 10);
        vstd::arithmetic::div_mod::lemma_fundamental_div_mod(a as int, 10);
        vstd::arithmetic::div_mod::lemma_fundamental_div_mod(b as int, 10);
    }
}

/// Pending envelopes for different keys are different strings: a client can
/// always tell which session a pending reply opened.
pub proof fn lemma_pending_envelope_key_injective(k1: nat, k2: nat)
    requires
        pending_envelope_spec(k1) == pending_envelope_spec(k2),
    ensures
        k1 == k2,
{
    let p = "{\"pending\":"@;
    let d1 = dec_digits(k1);
    let d2 = dec_digits(k2);
    assert((p + d1 + "}"@).len() == p.len() + d1.len() + "}"@.len());
    assert((p + d2 + "}"@).len() == p.len() + d2.len() + "}"@.len());
    assert(d1.len() == d2.len());
    assert forall|i: int| 0 <= i < d1.len() implies d1[i] == d2[i] by {
        assert(d1[i] == (p + d1 + "}"@)[p.len() + i]);
        assert(d2[i] == (p + d2 + "}"@)[p.len() + i]);
    }
    assert(d1 =~= d2);
    lemma_dec_digits_injective(k1, k2);
}

/// Next envelopes that carry the same payload under different keys are
/// different strings: a forwarded event names exactly one session, so two
/// independent subscriptions never observe each other's events.
pub proof fn lemma_next_envelope_key_injective(payload: Seq<char>, k1: nat, k2: nat)
    requires
        next_envelope_spec(payload, k1) == next_envelope_spec(payload, k2),
    ensures
        k1 == k2,
{
    let p = "{\"next\":"@ + payload + ",\"subscription\":"@;
    let d1 = dec_digits(k1);
    let d2 = dec_digits(k2);
    assert((p + d1 + "}"@).len() == p.len() + d1.len() + "}"@.len());
    assert((p + d2 + "}"@).len() == p.len() + d2.len() + "}"@.len());
    assert(d1.len() == d2.len());
    assert forall|i: int| 0 <= i < d1.len() implies d1[i] == d2[i] by {
        assert(d1[i] == (p + d1 + "}"@)[p.len() + i]);
        assert(d2[i] == (p + d2 + "}"@)[p.len() + i]);
    }
    assert(d1 =~= d2);
    lemma_dec_digits_injective(k1, k2);
}

/// The one-character string for a decimal digit.
fn digit_str(d: u32) -> (r: &'static str)
    requires
        d < 10,
    ensures
        r@ == seq![digit_char(d as nat)],
{
    proof {
        reveal_strlit("0");
        reveal_strlit("1");
        reveal_strlit("2");
        reveal_strlit("3");
        reveal_strlit("4");
        reveal_strlit("5");
        reveal_strlit("6");
        reveal_strlit("7");
        reveal_strlit("8");
        reveal_strlit("9");
    }
    let r: &'static str = if d == 0 {
        "0"
    } else if d == 1 {
        "1"
    } else if d == 2 {
        "2"
    } else if d == 3 {
        "3"
    } else if d == 4 {
        "4"
    } else if d == 5 {
        "5"
    } else if d == 6 {
        "6"
    } else if d == 7 {
        "7"
    } else if d == 8 {
        "8"
    } else {
        "9"
    };
    proof {
        assert(r@ =~= seq![digit_char(d as nat)]);
    }
    r
}

/// Renders `n` in decimal.
pub fn decimal_string(n: u32) -> (r: String)
    ensures
        r@ == dec_digits(n as nat),
    decreases n,
{
    if n < 10 {
        let r = String::from_str(digit_str(n));
        proof {
            assert(r@ =~= dec_digits(n as nat));
        }
        r
    } else {
        let mut r = decimal_string(n / 10);
        r.append(digit_str(n % 10));
        proof {
            assert(r@ =~= dec_digits(n as nat));
        }
        r
    }
}

/// Builds `{"results":<payload>}` around the payload text, unchanged.
pub fn results_envelope(payload: &str) -> (r: String)
    ensures
        r@ == results_envelope_spec(payload@),
{
    let mut r = String::from_str("{\"results\":");
    r.append(payload);
    r.append("}");
    proof {
        assert(r@ =~= results_envelope_spec(payload@));
    }
    r
}

/// Builds `{"pending":<key>}` for a session left open under `key`.
pub fn pending_envelope(key: i32) -> (r: String)
    requires
        0 <= key,
    ensures
        r@ == pending_envelope_spec(key as nat),
{
    let mut r = String::from_str("{\"pending\":");
    let digits = decimal_string(key as u32);
    r.append(digits.as_str());
    r.append("}");
    proof {
        assert(r@ =~= pending_envelope_spec(key as nat));
    }
    r
}

/// Builds `{"next":<payload>,"subscription":<key>}` for one forwarded
/// payload of the session open under `key`.
pub fn next_envelope(payload: &str, key: i32) -> (r: String)
    requires
        0 <= key,
    ensures
        r@ == next_envelope_spec(payload@, key as nat),
{
    let mut r = String::from_str("{\"next\":");
    r.append(payload);
    r.append(",\"subscription\":");
    let digits = decimal_string(key as u32);
    r.append(digits.as_str());
    r.append("}");
    proof {
        assert(r@ =~= next_envelope_spec(payload@, key as nat));
    }
    r
}

} // verus!
