//! What holds of the handoff protocol across several of its steps.

use vstd::prelude::*;
use crate::entry::{PinItemView, MAX_RESULT_SIZE_BYTES};
use crate::handlers::{
    after_submit, issued, payload_size, poll_view, submit_reply, submitted, PinResponseView, Reply,
};
use crate::pin::{is_pin, key_of, lemma_key_of_injective};
use crate::store::{after_take, is_stale, live_at, Entries};

verus! {

/// A pin's key belongs to it alone: two pin labels, in whatever namespaces,
/// are stored under one key only if namespace and label are both the same.
/// So no two live entries of a namespace share a label.
pub proof fn lemma_one_entry_per_pin(ns_a: Seq<char>, pin_a: Seq<char>, ns_b: Seq<char>, pin_b: Seq<char>)
    requires
        is_pin(pin_a),
        is_pin(pin_b),
        ns_a != ns_b || pin_a != pin_b,
    ensures
        key_of(ns_a, pin_a) != key_of(ns_b, pin_b),
{
    if key_of(ns_a, pin_a) == key_of(ns_b, pin_b) {
        lemma_key_of_injective(ns_a, pin_a, ns_b, pin_b);
    }
}

/// Issuing adds one entry and touches no other: every key that was live
/// stays live with its entry, and the one new key is the issued pin's.
pub proof fn lemma_issue_adds_one(before: Entries, after: Entries, key: Seq<char>, pin: Seq<char>)
    requires
        !before.contains_key(key),
        issued(before, after, key, pin),
    ensures
        after.dom() == before.dom().insert(key),
        forall|k: Seq<char>| before.contains_key(k) ==> after[k] == before[k],
{
    assert(after.dom() =~= before.dom().insert(key));
}

/// Round trip: once a pin is issued and a payload submitted to it, the
/// first poll answers with that payload and deletes the entry; after it the
/// pin is unknown, so a second poll finds nothing to hand out and the
/// payload is delivered at most once.
pub proof fn lemma_round_trip(
    start: Entries,
    waiting: Entries,
    filled: Entries,
    namespace: Seq<char>,
    pin: Seq<char>,
    payload: Seq<char>,
)
    requires
        issued(start, waiting, key_of(namespace, pin), pin),
        submitted(waiting, filled, key_of(namespace, pin), pin, payload),
    ensures
        filled.contains_key(key_of(namespace, pin)),
        poll_view(pin, filled[key_of(namespace, pin)]) == (PinResponseView {
            pin,
            result: Some(payload),
        }),
        !after_take(filled, key_of(namespace, pin)).contains_key(key_of(namespace, pin)),
        after_take(filled, key_of(namespace, pin)) == start.remove(key_of(namespace, pin)),
{
    let key = key_of(namespace, pin);
    assert(after_take(filled, key) =~= start.remove(key));
}

/// A poll of a waiting pin changes nothing and answers with the pin and no
/// payload, however often it is repeated.
pub proof fn lemma_waiting_poll_is_idempotent(m: Entries, namespace: Seq<char>, pin: Seq<char>)
    requires
        m.contains_key(key_of(namespace, pin)),
        m[key_of(namespace, pin)].result is None,
    ensures
        after_take(m, key_of(namespace, pin)) == m,
        poll_view(pin, m[key_of(namespace, pin)]) == (PinResponseView { pin, result: None }),
        after_take(after_take(m, key_of(namespace, pin)), key_of(namespace, pin)) == m,
{
}

/// Namespace isolation: a submission to a pin of one namespace leaves the
/// same label in any other namespace as it was, absent or present.
pub proof fn lemma_namespace_isolation(
    before: Entries,
    after: Entries,
    ns_a: Seq<char>,
    ns_b: Seq<char>,
    pin: Seq<char>,
    payload: Seq<char>,
)
    requires
        ns_a != ns_b,
        submitted(before, after, key_of(ns_a, pin), pin, payload),
    ensures
        after.contains_key(key_of(ns_b, pin)) == before.contains_key(key_of(ns_b, pin)),
        before.contains_key(key_of(ns_b, pin)) ==> after[key_of(ns_b, pin)] == before[key_of(
            ns_b,
            pin,
        )],
        after_take(after, key_of(ns_a, pin)).contains_key(key_of(ns_b, pin)) == before.contains_key(
            key_of(ns_b, pin),
        ),
{
    if key_of(ns_a, pin) == key_of(ns_b, pin) {
        lemma_key_of_injective(ns_a, pin, ns_b, pin);
    }
}

/// Size boundary: a payload of exactly the ceiling is not refused for its
/// size; one byte more is refused as too large, whatever the store holds,
/// and the store stays as it was.
pub proof fn lemma_size_boundary(m: Entries, key: Seq<char>, entry: PinItemView)
    requires
        entry.result is Some,
    ensures
        payload_size(entry.result->0) == MAX_RESULT_SIZE_BYTES ==> !(submit_reply(
            m,
            key,
            entry.result->0,
        ) is TooLarge) && (m.contains_key(key) ==> after_submit(m, key, entry) == m.insert(
            key,
            entry,
        )),
        payload_size(entry.result->0) == MAX_RESULT_SIZE_BYTES + 1 ==> submit_reply(
            m,
            key,
            entry.result->0,
        ) == Reply::TooLarge && after_submit(m, key, entry) == m,
{
}

/// Staleness: after a sweep no entry that was stale at its instant is left,
/// with or without a payload, and every other entry is left as it was.
pub proof fn lemma_sweep_removes_exactly_stale(m: Entries, now: int, key: Seq<char>)
    requires
        m.contains_key(key),
    ensures
        is_stale(m[key].timestamp, now) ==> !live_at(m, now).contains_key(key),
        !is_stale(m[key].timestamp, now) ==> live_at(m, now).contains_key(key) && live_at(
            m,
            now,
        )[key] == m[key],
{
}

/// Age only grows: an entry that is stale at one instant is stale at every
/// later one, so a sweep never deletes what a later sweep would keep.
pub proof fn lemma_stale_stays_stale(timestamp: int, now: int, later: int)
    requires
        is_stale(timestamp, now),
        now <= later,
    ensures
        is_stale(timestamp, later),
{
}

} // verus!
