//! The handoff protocol: issue a pin, poll it, submit a payload to it.

use std::collections::HashMap;
use vstd::prelude::*;
use crate::entry::{now_millis, PinItem, PinItemView, MAX_RESULT_SIZE_BYTES};
use crate::pin::{is_pin, key_of, make_key, random_pin};
use crate::store::{after_take, BiboopState, Entries, PinReader};

verus! {

/// How many candidates one issue may try before it gives up.
pub const MAX_PIN_ATTEMPTS: usize = 10;

/// `serde_json::Value`, carried as an opaque value.
#[verifier::external_type_specification]
#[verifier::external_body]
pub struct ExJsonValue(serde_json::Value);

/// `serde_json::Error`, carried as an opaque value.
#[verifier::external_type_specification]
#[verifier::external_body]
pub struct ExJsonError(serde_json::Error);

/// What a pin response is, as plain values.
pub struct PinResponseView {
    pub pin: Seq<char>,
    pub result: Option<Seq<char>>,
}

/// What a caller is told of a pin: its label and, once submitted and not
/// yet taken, the payload as JSON text.
#[derive(Clone, PartialEq, Eq, Debug)]
pub struct PinResponse {
    pub pin: String,
    pub result: Option<String>,
}

impl View for PinResponse {
    type V = PinResponseView;

    open spec fn view(&self) -> PinResponseView {
        PinResponseView {
            pin: self.pin@,
            result: match self.result {
                Some(s) => Some(s@),
                None => None,
            },
        }
    }
}

/// The answer to one request.
#[derive(Clone, PartialEq, Eq, Debug)]
pub enum Reply {
    /// A pin and what is known of its payload.
    Pin(PinResponse),
    /// No free pin was found within the attempts allowed.
    Exhausted,
    /// The payload was stored.
    Accepted,
    /// Nothing is live under the pin.
    NotFound,
    /// The payload is over the size ceiling.
    TooLarge,
    /// The payload could not be turned into JSON text.
    Unserializable,
    /// The service is up.
    Healthy,
}

impl Reply {
    /// The HTTP status that goes with the answer.
    pub open spec fn status_code(&self) -> u16 {
        match self {
            Reply::Pin(_) => 200,
            Reply::Exhausted => 429,
            Reply::Accepted => 202,
            Reply::NotFound => 404,
            Reply::TooLarge => 413,
            Reply::Unserializable => 500,
            Reply::Healthy => 200,
        }
    }

    /// The text that goes with the answer; a pin is sent as JSON instead.
    pub open spec fn message_text(&self) -> Option<Seq<char>> {
        match self {
            Reply::Pin(_) => None,
            Reply::Exhausted => Some("Could not find a free pin soon enough."@),
            Reply::Accepted => Some("Thanks!"@),
            Reply::NotFound => Some("Pin not found."@),
            Reply::TooLarge => Some("Payload too large."@),
            Reply::Unserializable => Some("Failed to serialize data"@),
            Reply::Healthy => Some("All good."@),
        }
    }

    /// The HTTP status that goes with the answer.
    pub fn status(&self) -> (code: u16)
        ensures
            code == self.status_code(),
    {
        match self {
            Reply::Pin(_) => 200,
            Reply::Exhausted => 429,
            Reply::Accepted => 202,
            Reply::NotFound => 404,
            Reply::TooLarge => 413,
            Reply::Unserializable => 500,
            Reply::Healthy => 200,
        }
    }

    /// The text that goes with the answer, where it has one.
    pub fn message(&self) -> (text: Option<&'static str>)
        ensures
            text is Some <==> self.message_text() is Some,
            text is Some ==> text->0@ == self.message_text()->0,
    {
        match self {
            Reply::Pin(_) => None,
            Reply::Exhausted => Some("Could not find a free pin soon enough."),
            Reply::Accepted => Some("Thanks!"),
            Reply::NotFound => Some("Pin not found."),
            Reply::TooLarge => Some("Payload too large."),
            Reply::Unserializable => Some("Failed to serialize data"),
            Reply::Healthy => Some("All good."),
        }
    }
}

/// The serialized size of a payload: the bytes of its JSON text in UTF-8.
pub open spec fn payload_size(text: Seq<char>) -> nat {
    vstd::utf8::encode_utf8(text).len()
}

/// `after` is `before` with a waiting entry for `pin` put under `key`.
pub open spec fn issued(before: Entries, after: Entries, key: Seq<char>, pin: Seq<char>) -> bool {
    &&& after.contains_key(key)
    &&& after == before.insert(key, after[key])
    &&& after[key].pin == pin
    &&& after[key].result is None
}

/// `after` is `before` with the entry under `key` replaced by one for `pin`
/// that holds `payload`.
pub open spec fn submitted(
    before: Entries,
    after: Entries,
    key: Seq<char>,
    pin: Seq<char>,
    payload: Seq<char>,
) -> bool {
    &&& after.contains_key(key)
    &&& after == before.insert(key, after[key])
    &&& after[key].pin == pin
    &&& after[key].result == Some(payload)
}

/// A waiting entry: stamped, labelled, without a payload.
pub open spec fn waiting_entry(timestamp: int, pin: Seq<char>) -> PinItemView {
    PinItemView { timestamp, pin, result: None }
}

/// An entry that holds a payload.
pub open spec fn filled_entry(timestamp: int, pin: Seq<char>, payload: Seq<char>) -> PinItemView {
    PinItemView { timestamp, pin, result: Some(payload) }
}

/// How a submission of `text` to `key` is answered: refused as too large
/// when it is over the ceiling, whatever the store holds; else refused as
/// not found when nothing is live under the key; else accepted.
pub open spec fn submit_reply(m: Entries, key: Seq<char>, text: Seq<char>) -> Reply {
    if payload_size(text) > MAX_RESULT_SIZE_BYTES {
        Reply::TooLarge
    } else if !m.contains_key(key) {
        Reply::NotFound
    } else {
        Reply::Accepted
    }
}

/// What a submission of `entry` to `key` leaves of the store: the entry in
/// place of the old one where the submission is accepted, and no change
/// where it is refused.
pub open spec fn after_submit(m: Entries, key: Seq<char>, entry: PinItemView) -> Entries {
    if entry.result is Some && submit_reply(m, key, entry.result->0) is Accepted {
        m.insert(key, entry)
    } else {
        m
    }
}

/// Some pin label of the namespace is taken.
pub open spec fn has_taken_pin(m: Entries, namespace: Seq<char>) -> bool {
    exists|p: Seq<char>| is_pin(p) && m.contains_key(#[trigger] key_of(namespace, p))
}

/// What issuing in a namespace comes to: either a pin that was free, now
/// waiting in the store beside everything that was there, or nothing
/// changed, which requires that some pin of the namespace was taken.
pub open spec fn issue_outcome(
    before: Entries,
    after: Entries,
    namespace: Seq<char>,
    pin: Option<Seq<char>>,
) -> bool {
    match pin {
        Some(label) => {
            &&& is_pin(label)
            &&& !before.contains_key(key_of(namespace, label))
            &&& issued(before, after, key_of(namespace, label), label)
        },
        None => after == before && has_taken_pin(before, namespace),
    }
}

/// The label of an issued pin, if one was issued.
pub open spec fn pin_label(pin: Option<String>) -> Option<Seq<char>> {
    match pin {
        Some(label) => Some(label@),
        None => None,
    }
}

/// The pin that a response to an issue carries, if there is a response.
pub open spec fn response_label(response: Option<PinResponse>) -> Option<Seq<char>> {
    match response {
        Some(r) => Some(r@.pin),
        None => None,
    }
}

/// The pin that a reply to an issue carries, if it carries one.
pub open spec fn issued_label(reply: Reply) -> Option<Seq<char>> {
    match reply {
        Reply::Pin(response) => Some(response@.pin),
        _ => None,
    }
}

/// What a poll tells of the entry it found.
pub open spec fn poll_view(pin: Seq<char>, entry: PinItemView) -> PinResponseView {
    PinResponseView { pin, result: entry.result }
}

/// Turns the payload into JSON text with `serde_json::to_string`. Nothing is
/// claimed of the outcome.
#[verifier::external_body]
pub(crate) fn serialize_payload(body: &HashMap<String, serde_json::Value>) -> (text: Result<
    String,
    serde_json::Error,
>) {
    serde_json::to_string(body)
}

/// One attempt at issuing, at the instant `now`: takes the candidate as the
/// namespace's new pin unless an entry is live under it, and stores a
/// waiting entry stamped `now`. A taken candidate leaves the store as it
/// was.
pub fn claim_pin_at(namespace: &str, candidate: String, now: i64, state: &mut BiboopState) -> (claimed:
    Option<String>)
    ensures
        claimed is Some <==> !old(state)@.contains_key(key_of(namespace@, candidate@)),
        claimed is Some ==> claimed->0@ == candidate@ && final(state)@ == old(state)@.insert(
            key_of(namespace@, candidate@),
            waiting_entry(now as int, candidate@),
        ),
        claimed is None ==> final(state)@ == old(state)@,
{
    let key = make_key(namespace, candidate.as_str());
    if !state.contains(key.as_str()) {
        let entry = PinItem::at(now, candidate.clone(), None);
        state.insert(key, entry);
        Some(candidate)
    } else {
        None
    }
}

/// One attempt at issuing, stamped with the current time.
pub fn claim_pin(namespace: &str, candidate: String, state: &mut BiboopState) -> (claimed: Option<
    String,
>)
    ensures
        claimed is Some <==> !old(state)@.contains_key(key_of(namespace@, candidate@)),
        claimed is Some ==> claimed->0@ == candidate@ && issued(
            old(state)@,
            final(state)@,
            key_of(namespace@, candidate@),
            candidate@,
        ),
        claimed is None ==> final(state)@ == old(state)@,
{
    let now = now_millis();
    claim_pin_at(namespace, candidate, now, state)
}

/// Issues a pin that is free in the namespace: draws random candidates, up
/// to the attempts allowed, and takes the first under which nothing is
/// live. It gives up only if every candidate drawn was taken, which cannot
/// happen while no pin of the namespace is.
pub fn create_unique_pin(namespace: &str, state: &mut BiboopState) -> (issued_pin: Option<String>)
    ensures
        issue_outcome(old(state)@, final(state)@, namespace@, pin_label(issued_pin)),
{
    let mut attempt: usize = 0;
    while attempt < MAX_PIN_ATTEMPTS
        invariant
            attempt <= MAX_PIN_ATTEMPTS,
            state@ == old(state)@,
            attempt > 0 ==> has_taken_pin(old(state)@, namespace@),
        decreases MAX_PIN_ATTEMPTS - attempt,
    {
        let candidate = random_pin();
        let ghost label = candidate@;
        match claim_pin(namespace, candidate, state) {
            Some(pin) => {
                return Some(pin);
            },
            None => {
                assert(old(state)@.contains_key(key_of(namespace@, label)));
            },
        }
        attempt += 1;
    }
    None
}

/// Issues a pin and words the answer: the new label, with no payload.
pub fn create_new_pin_response(namespace: &str, state: &mut BiboopState) -> (response: Option<
    PinResponse,
>)
    ensures
        response is Some ==> response->0@.result is None,
        issue_outcome(old(state)@, final(state)@, namespace@, response_label(response)),
{
    match create_unique_pin(namespace, state) {
        Some(unique_pin) => Some(PinResponse { pin: unique_pin, result: None }),
        None => None,
    }
}

/// Issues a pin and answers with it, or with `Exhausted` where no free pin
/// was found.
pub fn create_pin_http_response(namespace: &str, state: &mut BiboopState) -> (reply: Reply)
    ensures
        reply is Pin || reply is Exhausted,
        reply is Pin ==> reply->Pin_0@.result is None,
        issue_outcome(old(state)@, final(state)@, namespace@, issued_label(reply)),
{
    match create_new_pin_response(namespace, state) {
        Some(response) => Reply::Pin(response),
        None => Reply::Exhausted,
    }
}

/// Looks the pin up and words what was found: nothing for an unknown pin,
/// the pin alone while it waits, the pin with its payload once one is
/// there. The payload's entry leaves the store with this read.
pub fn get_and_remove_pin_if_populated(namespace: &str, pin: &str, state: &mut BiboopState) -> (response:
    Option<PinResponse>)
    ensures
        response is Some <==> old(state)@.contains_key(key_of(namespace@, pin@)),
        response is Some ==> response->0@ == poll_view(
            pin@,
            old(state)@[key_of(namespace@, pin@)],
        ),
        final(state)@ == after_take(old(state)@, key_of(namespace@, pin@)),
{
    let key = make_key(namespace, pin);
    match state.take_if_populated(key.as_str()) {
        Some(item) => {
            let owned = pin.to_owned();
            Some(PinResponse { pin: owned, result: item.result })
        },
        None => None,
    }
}

/// What a poll is answered with on the strength of a look at the store
/// alone: a pin seen waiting is answered as waiting. Anything else the look
/// cannot settle: the poll then has to be made on the store itself.
pub fn waiting_reply(pin: &str, seen: Option<PinItem>) -> (reply: Option<Reply>)
    ensures
        reply is Some <==> seen is Some && seen->0@.result is None,
        reply is Some ==> reply->0 is Pin && reply->0->Pin_0@ == (PinResponseView {
            pin: pin@,
            result: None,
        }),
{
    match seen {
        Some(item) => {
            if item.result.is_none() {
                Some(Reply::Pin(PinResponse { pin: pin.to_owned(), result: None }))
            } else {
                None
            }
        },
        None => None,
    }
}

/// Answers a poll without holding the store, where a look through a reader
/// finds the pin waiting. The answer then is the pin with no payload, and
/// nothing is changed. Where it answers nothing, the poll is to be made on
/// the store.
pub fn poll_waiting(namespace: &str, pin: &str, reader: &PinReader) -> (reply: Option<Reply>)
    ensures
        reply is Some ==> reply->0 is Pin && reply->0->Pin_0@ == (PinResponseView {
            pin: pin@,
            result: None,
        }),
{
    let key = make_key(namespace, pin);
    let seen = reader.peek(key.as_str());
    waiting_reply(pin, seen)
}

/// Answers a request for a new pin in the namespace.
pub fn get_pin(namespace: &str, state: &mut BiboopState) -> (reply: Reply)
    ensures
        reply is Pin || reply is Exhausted,
        reply is Pin ==> reply->Pin_0@.result is None,
        issue_outcome(old(state)@, final(state)@, namespace@, issued_label(reply)),
{
    create_pin_http_response(namespace, state)
}

/// Answers a poll. A live pin is answered as the lookup words it, and its
/// payload, if there is one, leaves the store. An unknown pin is answered
/// with a newly issued one, or with `Exhausted`.
pub fn poll_pin(namespace: &str, pin: &str, state: &mut BiboopState) -> (reply: Reply)
    ensures
        old(state)@.contains_key(key_of(namespace@, pin@)) ==> reply is Pin && reply->Pin_0@
            == poll_view(pin@, old(state)@[key_of(namespace@, pin@)]) && final(state)@
            == after_take(old(state)@, key_of(namespace@, pin@)),
        !old(state)@.contains_key(key_of(namespace@, pin@)) ==> (reply is Pin || reply is Exhausted)
            && (reply is Pin ==> reply->Pin_0@.result is None) && issue_outcome(
            old(state)@,
            final(state)@,
            namespace@,
            issued_label(reply),
        ),
{
    match get_and_remove_pin_if_populated(namespace, pin, state) {
        Some(response) => Reply::Pin(response),
        None => create_pin_http_response(namespace, state),
    }
}

/// Stores a payload, given as its JSON text, under a pin at the instant
/// `now`. A text over the size ceiling is refused before the store is
/// looked at; so is a pin under which nothing is live. Otherwise the pin's
/// entry is replaced by one that holds the text and is stamped `now`. A
/// refusal leaves the store as it was.
pub fn store_result_at(
    namespace: &str,
    pin: &str,
    text: String,
    now: i64,
    state: &mut BiboopState,
) -> (reply: Reply)
    ensures
        reply == submit_reply(old(state)@, key_of(namespace@, pin@), text@),
        final(state)@ == after_submit(
            old(state)@,
            key_of(namespace@, pin@),
            filled_entry(now as int, pin@, text@),
        ),
{
    if text.as_str().as_bytes().len() > MAX_RESULT_SIZE_BYTES {
        return Reply::TooLarge;
    }
    let key = make_key(namespace, pin);
    if state.contains(key.as_str()) {
        let entry = PinItem::at(now, pin.to_owned(), Some(text));
        state.update(key, entry);
        Reply::Accepted
    } else {
        Reply::NotFound
    }
}

/// Stores a payload, given as its JSON text, under a pin, stamped with the
/// current time. Refusals are as at a given instant; an accepted text
/// replaces the pin's entry.
pub fn store_result(namespace: &str, pin: &str, text: String, state: &mut BiboopState) -> (reply: Reply)
    ensures
        reply == submit_reply(old(state)@, key_of(namespace@, pin@), text@),
        reply is Accepted ==> submitted(
            old(state)@,
            final(state)@,
            key_of(namespace@, pin@),
            pin@,
            text@,
        ),
        !(reply is Accepted) ==> final(state)@ == old(state)@,
{
    let now = now_millis();
    store_result_at(namespace, pin, text, now, state)
}

/// What a submission is answered with, given what turning its payload into
/// JSON text came to: `Unserializable` for a failure, else as the text is
/// stored.
pub fn respond_with(
    namespace: &str,
    pin: &str,
    text: Result<String, serde_json::Error>,
    state: &mut BiboopState,
) -> (reply: Reply)
    ensures
        text is Err ==> reply is Unserializable,
        text is Ok ==> reply == submit_reply(
            old(state)@,
            key_of(namespace@, pin@),
            text->Ok_0@,
        ),
        reply is Accepted ==> text is Ok && submitted(
            old(state)@,
            final(state)@,
            key_of(namespace@, pin@),
            pin@,
            text->Ok_0@,
        ),
        !(reply is Accepted) ==> final(state)@ == old(state)@,
{
    match text {
        Ok(serialized) => store_result(namespace, pin, serialized, state),
        Err(_) => Reply::Unserializable,
    }
}

/// Answers a submission: the payload is turned into JSON text and stored
/// under the pin if it is small enough and the pin is live. Only
/// `Accepted` changes the store, and then only the pin's own entry.
pub fn respond_to_pin(
    namespace: &str,
    pin: &str,
    body: &HashMap<String, serde_json::Value>,
    state: &mut BiboopState,
) -> (reply: Reply)
    ensures
        reply is Unserializable || exists|text: Seq<char>|
            reply == submit_reply(old(state)@, key_of(namespace@, pin@), text) && (reply is Accepted
                ==> submitted(old(state)@, final(state)@, key_of(namespace@, pin@), pin@, text)),
        !(reply is Accepted) ==> final(state)@ == old(state)@,
{
    let text = serialize_payload(body);
    respond_with(namespace, pin, text, state)
}

/// Answers a health probe.
pub fn health() -> (reply: Reply)
    ensures
        reply is Healthy,
{
    Reply::Healthy
}

} // verus!
