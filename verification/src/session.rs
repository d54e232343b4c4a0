use crate::error::Error;
use crate::types::Token;
use vstd::prelude::*;

verus! {

/// Why a running session with the given deadline and issued token does not
/// accept the presented token at time `now`, if it does not. The deadline is
/// looked at first: once it has passed, not even the right token is accepted.
/// The deadline itself is still in time.
pub open spec fn token_refusal(issued: Seq<u8>, end_time: u64, presented: Seq<u8>, now: u64)
    -> Option<Error> {
    if now > end_time {
        Some(Error::SessionExpired)
    } else if presented != issued {
        Some(Error::InvalidToken)
    } else {
        None
    }
}

/// Holds a presented token against a running session.
pub fn check_token(issued: &Token, end_time: u64, presented: &Token, now: u64) -> (r: Option<Error>)
    ensures
        r == token_refusal(issued@, end_time, presented@, now),
{
    if now > end_time {
        Some(Error::SessionExpired)
    } else if !presented.matches(issued) {
        Some(Error::InvalidToken)
    } else {
        None
    }
}

} // verus!
