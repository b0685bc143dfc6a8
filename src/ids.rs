//! Resource ids: the 128 bits of a UUID, read from text or drawn at random.
use vstd::prelude::*;
use crate::game::GameError;

verus! {

/// The value of the UUID that `s` spells, if it spells one.
pub uninterp spec fn uuid_value(s: Seq<char>) -> Option<u128>;

/// Relies on `uuid::Uuid::parse_str` (and `Uuid::as_u128`): the 128 bits of
/// the UUID written in `s`; the empty string spells none.
#[verifier::external_body]
fn parse_uuid(s: &str) -> (r: Option<u128>)
    ensures
        r == uuid_value(s@),
        s@.len() == 0 ==> r is None,
{
    match uuid::Uuid::parse_str(s) {
        Ok(u) => Some(u.as_u128()),
        Err(_) => None,
    }
}

/// Relies on `uuid::Uuid::new_v4` (and `Uuid::as_u128`): a random UUID. Its
/// version and variant bits are set, so it is never the nil UUID.
#[verifier::external_body]
pub(crate) fn fresh_id() -> (r: u128)
    ensures
        r != 0,
{
    uuid::Uuid::new_v4().as_u128()
}

/// Reads a resource id from its text form.
pub fn parse_id(text: &str) -> (r: Result<u128, GameError>)
    ensures
        uuid_value(text@) matches Some(v) ==> r == Ok::<u128, GameError>(v),
        uuid_value(text@) is None ==> r == Err::<u128, GameError>(GameError::InvalidId),
{
    match parse_uuid(text) {
        Some(v) => Ok(v),
        None => Err(GameError::InvalidId),
    }
}

} // verus!
