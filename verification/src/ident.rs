//! Identifiers and points in time. An identifier is the 128-bit number of a
//! UUID; its text is the hyphenated lower-case form.

use crate::hex::hex_lower;
use vstd::prelude::*;

verus! {

/// A point in time: seconds since the epoch, and the nanoseconds within the
/// second.
#[derive(Clone, Copy, Debug, PartialEq, Eq, Structural)]
pub struct Timestamp {
    pub secs: i64,
    pub nanos: u32,
}

/// The sixteen bytes of an identifier, the most significant first.
pub open spec fn id_bytes(id: u128) -> Seq<u8> {
    Seq::new(16, |i: int| ((id >> ((8 * (15 - i)) as u128)) & 0xff) as u8)
}

/// The text of an identifier: its bytes in lower-case hexadecimal, in groups
/// of 4, 2, 2, 2 and 6 bytes with a hyphen between them.
pub open spec fn id_text(id: u128) -> Seq<char> {
    let b = id_bytes(id);
    hex_lower(b.subrange(0, 4)) + seq!['-'] + hex_lower(b.subrange(4, 6)) + seq!['-'] + hex_lower(
        b.subrange(6, 8),
    ) + seq!['-'] + hex_lower(b.subrange(8, 10)) + seq!['-'] + hex_lower(b.subrange(10, 16))
}

/// `uuid::Uuid::new_v4`, as a number: a random identifier. Nothing is
/// claimed of its value.
#[verifier::external_body]
pub(crate) fn fresh_id() -> (id: u128) {
    uuid::Uuid::new_v4().as_u128()
}

/// `uuid::Uuid::from_u128` and the `Display` of the UUID: the hyphenated
/// lower-case text of the identifier's bytes.
#[verifier::external_body]
fn uuid_text(id: u128) -> (text: String)
    ensures
        text@ == id_text(id),
{
    uuid::Uuid::from_u128(id).to_string()
}

/// `chrono::Utc::now`: the current time. Nothing is claimed of its value.
#[verifier::external_body]
pub(crate) fn now() -> (t: Timestamp) {
    let t = chrono::Utc::now();
    Timestamp { secs: t.timestamp(), nanos: t.timestamp_subsec_nanos() }
}

/// The text of an identifier, as it stands in storage keys and in messages.
pub fn id_to_string(id: u128) -> (text: String)
    ensures
        text@ == id_text(id),
        text@.len() == 36,
{
    uuid_text(id)
}

} // verus!
