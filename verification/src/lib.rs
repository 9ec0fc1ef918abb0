//! Tracking of Colissimo shipments: the decisions of the two-request exchange
//! with the carrier, and the reading of its answer.

use vstd::prelude::*;
use vstd::std_specs::iter::IteratorSpec;

pub mod errors;
pub mod exchange;
pub mod json;
pub mod model;
pub mod transport;

pub use crate::exchange::get_tracking_info;

use crate::errors::Error;

verus! {

/// Whether `char::is_alphanumeric` holds of `c`: the Unicode classes Alphabetic, Nd, Nl and No.
pub uninterp spec fn alphanumeric(c: char) -> bool;

/// `char::is_alphanumeric`.
pub assume_specification[ char::is_alphanumeric ](c: char) -> (r: bool)
    ensures
        r == alphanumeric(c),
;

/// A shipment identifier is not empty and has alphanumeric characters only.
pub open spec fn valid_shipment_id(id: Seq<char>) -> bool {
    &&& id.len() > 0
    &&& forall|i: int| 0 <= i < id.len() ==> alphanumeric(#[trigger] id[i])
}

/// Where the first `';'` of `text` stands: at its end where it has none.
pub open spec fn token_end(text: Seq<char>) -> int {
    match text.index_of_first(';') {
        Some(at) => at,
        None => text.len() as int,
    }
}

/// The first `name=value` pair of a `Set-Cookie` value: what comes before its first `';'`,
/// all of it where it has none.
pub open spec fn access_token(text: Seq<char>) -> Seq<char> {
    text.take(token_end(text))
}

/// `token_end(text)` is the one place up to which `text` has no `';'` and at which it
/// has one or ends.
pub proof fn lemma_token_end(text: Seq<char>, end: int)
    ensures
        0 <= token_end(text) <= text.len(),
        end == token_end(text) <==> {
            &&& 0 <= end <= text.len()
            &&& forall|i: int| 0 <= i < end ==> text[i] != ';'
            &&& end < text.len() ==> text[end] == ';'
        },
{
    text.index_of_first_ensures(';');
    if text.index_of_first(';') is None {
        assert forall|i: int| 0 <= i < text.len() implies text[i] != ';' by {
            assert(text.contains(text[i]));
        }
    }
}

/// Takes the session token out of the value of a `Set-Cookie` header: its first
/// `name=value` pair. A value without `';'` is a token as a whole, so there always is one.
pub fn extract_access_token(set_cookie_value: &str) -> (token: Option<&str>)
    ensures
        token matches Some(t) && t@ == access_token(set_cookie_value@),
{
    let total = set_cookie_value.unicode_len();
    let mut chars = set_cookie_value.chars();
    let mut end: usize = 0;
    loop
        invariant_except_break
            end <= total == set_cookie_value@.len(),
            chars.remaining() == set_cookie_value@.skip(end as int),
            forall|i: int| 0 <= i < end ==> set_cookie_value@[i] != ';',
        ensures
            end <= total == set_cookie_value@.len(),
            end == token_end(set_cookie_value@),
        decreases total - end,
    {
        match chars.next() {
            Some(c) => {
                if c == ';' {
                    proof {
                        lemma_token_end(set_cookie_value@, end as int);
                    }
                    break;
                }
                end += 1;
            },
            None => {
                proof {
                    lemma_token_end(set_cookie_value@, end as int);
                }
                break;
            },
        }
    }
    Some(set_cookie_value.substring_char(0, end))
}

/// Checks a shipment identifier, as is done before any request is made.
pub fn validate_shipment_id(shipment_id: &str) -> (r: Result<(), Error>)
    ensures
        r is Ok <==> valid_shipment_id(shipment_id@),
        r matches Err(e) ==> e is IllegalParcelId,
{
    if shipment_id.is_empty() {
        return Err(Error::IllegalParcelId);
    }
    let mut chars = shipment_id.chars();
    let ghost mut seen: int = 0;
    loop
        invariant
            0 <= seen <= shipment_id@.len(),
            chars.remaining() == shipment_id@.skip(seen),
            forall|i: int| 0 <= i < seen ==> alphanumeric(#[trigger] shipment_id@[i]),
        ensures
            seen == shipment_id@.len(),
        decreases shipment_id@.len() - seen,
    {
        match chars.next() {
            Some(c) => {
                if !c.is_alphanumeric() {
                    return Err(Error::IllegalParcelId);
                }
                proof {
                    seen = seen + 1;
                }
            },
            None => {
                break;
            },
        }
    }
    Ok(())
}

} // verus!
