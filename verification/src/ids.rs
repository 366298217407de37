//! Identifiers and the clock.
//!
//! The gateway names keys, sessions, users and tokens by 128-bit identifiers.
//! Inside the library an identifier is its `u128` value; the `uuid` crate
//! makes fresh ones and writes and reads their text form.

use vstd::prelude::*;

verus! {

#[verifier::external_type_specification]
#[verifier::external_body]
pub struct ExUuidError(uuid::Error);

/// The hyphenated lower-case text that `uuid::Uuid` displays for a value.
pub uninterp spec fn hyphenated(id: u128) -> Seq<char>;

/// What `uuid::Uuid::parse_str` reads from a text, if it accepts it.
pub uninterp spec fn parsed_uuid(text: Seq<char>) -> Option<u128>;

/// Calls `uuid::Uuid::now_v7`. The value depends on the time and on
/// randomness, so nothing is claimed of it.
#[verifier::external_body]
pub(crate) fn fresh_id() -> (id: u128)
{
    uuid::Uuid::now_v7().as_u128()
}

/// Calls `to_string` on the `uuid::Uuid` of a value. Not proved: the result
/// is given its name, and it reads back as the value it was written from,
/// since `parse_str` takes every format that the crate writes.
#[verifier::external_body]
pub(crate) fn uuid_text(id: u128) -> (text: String)
    ensures
        text@ == hyphenated(id),
        parsed_uuid(text@) == Some(id),
{
    uuid::Uuid::from_u128(id).to_string()
}

/// Calls `uuid::Uuid::parse_str`. Not proved: success and the value read are
/// only given their name.
#[verifier::external_body]
pub(crate) fn parse_uuid_text(text: &str) -> (parsed: Result<u128, uuid::Error>)
    ensures
        match parsed {
            Ok(id) => parsed_uuid(text@) == Some(id),
            Err(_) => parsed_uuid(text@) is None,
        },
{
    Ok(uuid::Uuid::parse_str(text)?.as_u128())
}

/// A bound on what the clock reads, in seconds either side of the epoch:
/// `chrono` makes a time only from seconds whose day number fits 32 bits,
/// which is less than this many seconds.
pub const CLOCK_BOUND: i64 = 0x1_0000_0000_0000;

/// Whether a number of seconds can be a reading of the clock.
pub open spec fn clock_reading(seconds: i64) -> bool {
    -CLOCK_BOUND < seconds < CLOCK_BOUND
}

/// Calls `chrono::Utc::now` and takes its `timestamp`: seconds since the
/// epoch. The value depends on the clock; all that is claimed is that it
/// lies within the times that `chrono` can hold, since `now` returns no
/// other.
#[verifier::external_body]
pub(crate) fn unix_now() -> (seconds: i64)
    ensures
        clock_reading(seconds),
{
    chrono::Utc::now().timestamp()
}

/// Reads an identifier from its text form.
pub fn parse_id(text: &str) -> (id: Option<u128>)
    ensures
        id == parsed_uuid(text@),
{
    match parse_uuid_text(text) {
        Ok(id) => Some(id),
        Err(_) => None,
    }
}

} // verus!
