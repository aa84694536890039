use vstd::prelude::*;

verus! {

/// The identifier that `uuid::Uuid::parse_str` reads from a text, as a
/// 128-bit value; `None` where the text is not a UUID in any form it accepts.
pub uninterp spec fn uuid_of(s: Seq<char>) -> Option<u128>;

/// Relies on `uuid::Uuid::parse_str` (with `as_u128`): the result depends on
/// the text alone.
#[verifier::external_body]
pub(crate) fn parse_uuid(s: &str) -> (r: Option<u128>)
    ensures
        r == uuid_of(s@),
{
    match uuid::Uuid::parse_str(s) {
        Ok(u) => Some(u.as_u128()),
        Err(_) => None,
    }
}

/// Whether `s` is the text of a random (version 4) UUID as `uuid` writes
/// it: 36 characters (hyphenated), read back by `parse_str` as a value
/// whose version field is 4 and whose variant bits are `10`.
pub open spec fn is_uuid_v4_text(s: Seq<char>) -> bool {
    &&& s.len() == 36
    &&& uuid_of(s) matches Some(v)
    &&& (v >> 76u128) & 0xfu128 == 4
    &&& (v >> 62u128) & 3u128 == 2
}

/// Relies on `uuid::Uuid::new_v4` and its `Display` (hyphenated lower-case
/// hex): a fresh random identifier. Which value comes is not promised, only
/// its form: `new_v4` sets the version and variant bits, and `parse_str`
/// reads the hyphenated text back.
#[verifier::external_body]
pub(crate) fn fresh_token() -> (r: String)
    ensures
        is_uuid_v4_text(r@),
{
    uuid::Uuid::new_v4().to_string()
}

} // verus!
