//! The record kept per key, and the clock that stamps it.

use vstd::prelude::*;

verus! {

/// Number of characters in a pin label.
pub const PIN_LENGTH: usize = 4;

/// Largest serialized payload, in bytes, that a submission may carry.
pub const MAX_RESULT_SIZE_BYTES: usize = 3000;

/// Minutes after which an untouched entry counts as stale.
pub const STALE_AGE_MINS: i64 = 10;

/// Milliseconds after which an untouched entry counts as stale.
pub const STALE_AGE_MILLIS: i64 = STALE_AGE_MINS * 60_000;

/// What a stored record is, as plain values.
pub struct PinItemView {
    pub timestamp: int,
    pub pin: Seq<char>,
    pub result: Option<Seq<char>>,
}

/// One stored record: when it was written (milliseconds since the Unix
/// epoch, UTC), the pin label, and the payload as JSON text once submitted.
#[derive(Clone, PartialEq, Eq, Hash, Debug)]
pub struct PinItem {
    pub timestamp: i64,
    pub pin: String,
    pub result: Option<String>,
}

impl View for PinItem {
    type V = PinItemView;

    open spec fn view(&self) -> PinItemView {
        PinItemView {
            timestamp: self.timestamp as int,
            pin: self.pin@,
            result: match self.result {
                Some(s) => Some(s@),
                None => None,
            },
        }
    }
}

/// Reads the wall clock through `chrono::Utc::now` and hands back
/// `DateTime::timestamp_millis`. Nothing is claimed of the value: it is
/// whatever the clock says.
#[verifier::external_body]
pub(crate) fn now_millis() -> (now: i64) {
    chrono::Utc::now().timestamp_millis()
}

impl PinItem {
    /// A record with the given stamp.
    pub fn at(timestamp: i64, pin: String, result: Option<String>) -> (item: PinItem)
        ensures
            item.timestamp == timestamp,
            item.pin == pin,
            item.result == result,
    {
        PinItem { timestamp, pin, result }
    }

    /// A record stamped with the current time.
    pub fn new(pin: String, result: Option<String>) -> (item: PinItem)
        ensures
            item.pin == pin,
            item.result == result,
    {
        let now = now_millis();
        PinItem::at(now, pin, result)
    }

    /// A copy with the same stamp, label and payload.
    pub fn duplicate(&self) -> (item: PinItem)
        ensures
            item@ == self@,
    {
        let result = match &self.result {
            Some(s) => Some(s.clone()),
            None => None,
        };
        PinItem { timestamp: self.timestamp, pin: self.pin.clone(), result }
    }
}

} // verus!
