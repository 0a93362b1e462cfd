//! Pin labels and the composite keys built from them.

use vstd::prelude::*;
use vstd::string::StringExecFns;
use crate::entry::PIN_LENGTH;

verus! {

/// An ASCII digit.
pub open spec fn is_digit(c: char) -> bool {
    0x30 <= c as u32 <= 0x39
}

/// An ASCII capital letter.
pub open spec fn is_upper(c: char) -> bool {
    0x41 <= c as u32 <= 0x5a
}

/// An ASCII small letter.
pub open spec fn is_lower(c: char) -> bool {
    0x61 <= c as u32 <= 0x7a
}

/// An ASCII letter or digit.
pub open spec fn is_alphanumeric(c: char) -> bool {
    is_digit(c) || is_upper(c) || is_lower(c)
}

/// The ASCII capital of a small letter; any other character itself.
pub open spec fn ascii_upper(c: char) -> char {
    if is_lower(c) {
        ((c as u32) - 0x20) as char
    } else {
        c
    }
}

/// A pin label: four characters, each a capital letter or a digit.
pub open spec fn is_pin(s: Seq<char>) -> bool {
    &&& s.len() == PIN_LENGTH
    &&& forall|i: int| 0 <= i < s.len() ==> is_digit(#[trigger] s[i]) || is_upper(s[i])
}

/// The composite key of a namespace and a pin: the two joined by a colon.
pub open spec fn key_of(namespace: Seq<char>, pin: Seq<char>) -> Seq<char> {
    namespace + seq![':'] + pin
}

/// Draws `len` characters from the thread's generator with
/// `rand::distributions::Alphanumeric`, which samples ASCII letters and
/// digits. Which ones come is left open.
#[verifier::external_body]
pub(crate) fn random_alphanumeric(len: usize) -> (s: String)
    ensures
        s@.len() == len,
        forall|i: int| 0 <= i < s@.len() ==> is_alphanumeric(#[trigger] s@[i]),
{
    rand::Rng::sample_iter(rand::thread_rng(), &rand::distributions::Alphanumeric)
        .take(len)
        .map(char::from)
        .collect()
}

/// Calls `str::to_ascii_uppercase`: small ASCII letters become capitals and
/// every other character stays.
#[verifier::external_body]
pub(crate) fn to_upper(s: &str) -> (up: String)
    ensures
        up@.len() == s@.len(),
        forall|i: int| 0 <= i < s@.len() ==> #[trigger] up@[i] == ascii_upper(s@[i]),
{
    s.to_ascii_uppercase()
}

/// A fresh random candidate for a pin label.
pub fn random_pin() -> (pin: String)
    ensures
        is_pin(pin@),
{
    let raw = random_alphanumeric(PIN_LENGTH);
    let pin = to_upper(raw.as_str());
    proof {
        assert forall|i: int| 0 <= i < pin@.len() implies is_digit(#[trigger] pin@[i]) || is_upper(
            pin@[i],
        ) by {
            let c = raw@[i];
            assert(is_alphanumeric(c));
            assert(pin@[i] == ascii_upper(c));
            if is_lower(c) {
                assert(0x41 <= (c as u32) - 0x20 <= 0x5a);
                assert((((c as u32) - 0x20) as char) as u32 == (c as u32) - 0x20);
            }
        }
    }
    pin
}

/// Builds the composite key under which a pin of a namespace is stored.
pub fn make_key(namespace: &str, pin: &str) -> (key: String)
    ensures
        key@ == key_of(namespace@, pin@),
{
    let mut key = String::from_str(namespace);
    key.append(":");
    key.append(pin);
    proof {
        reveal_strlit(":");
        assert(":"@ =~= seq![':']);
    }
    key
}

/// Two pins of one length give the same key only where both the namespaces
/// and the pins are the same.
pub proof fn lemma_key_of_injective(ns_a: Seq<char>, pin_a: Seq<char>, ns_b: Seq<char>, pin_b: Seq<char>)
    requires
        pin_a.len() == pin_b.len(),
        key_of(ns_a, pin_a) == key_of(ns_b, pin_b),
    ensures
        ns_a == ns_b,
        pin_a == pin_b,
{
    let key_a = key_of(ns_a, pin_a);
    let key_b = key_of(ns_b, pin_b);
    assert(key_a.len() == ns_a.len() + 1 + pin_a.len());
    assert(key_b.len() == ns_b.len() + 1 + pin_b.len());
    assert(ns_a.len() == ns_b.len());
    assert forall|i: int| 0 <= i < ns_a.len() implies ns_a[i] == ns_b[i] by {
        assert(key_a[i] == ns_a[i]);
        assert(key_b[i] == ns_b[i]);
    }
    assert(ns_a =~= ns_b);
    assert forall|i: int| 0 <= i < pin_a.len() implies pin_a[i] == pin_b[i] by {
        assert(key_a[ns_a.len() + 1 + i] == pin_a[i]);
        assert(key_b[ns_b.len() + 1 + i] == pin_b[i]);
    }
    assert(pin_a =~= pin_b);
}

} // verus!
