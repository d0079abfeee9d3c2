use vstd::prelude::*;

verus! {

/// The UUID that uuid's parser reads from a text, as its 128 bits, if the
/// text is one.
pub uninterp spec fn uuid_parsed(text: Seq<char>) -> Option<u128>;

/// Relies on uuid::Uuid::parse_str and Uuid::as_u128: reads a UUID in any of
/// the textual forms that uuid accepts.
#[verifier::external_body]
pub(crate) fn parse_uuid(text: &str) -> (r: Option<u128>)
    ensures
        r == uuid_parsed(text@),
{
    uuid::Uuid::parse_str(text).ok().map(|u| u.as_u128())
}

/// Relies on uuid::Uuid::now_v7: a fresh time-ordered UUID, as its 128 bits.
/// Nothing is known of its value.
#[verifier::external_body]
pub(crate) fn fresh_uuid() -> (r: u128) {
    uuid::Uuid::now_v7().as_u128()
}

/// Relies on uuid::Uuid::now_v7 and its hyphenated text form: the text of a
/// fresh time-ordered UUID. Nothing is known of its value.
#[verifier::external_body]
pub(crate) fn fresh_uuid_text() -> (r: String) {
    uuid::Uuid::now_v7().to_string()
}

} // verus!
