//! Ledger addresses and their validation.

use std::str::FromStr;
use vstd::prelude::*;
use web3::types::H160;

verus! {

/// A ledger address: twenty bytes, most significant first.
#[derive(Clone, Copy, Debug, PartialEq, Eq)]
pub struct Address {
    pub bytes: [u8; 20],
}

/// Why a text was not accepted as a ledger address.
#[derive(Clone, Copy, Debug, PartialEq, Eq, Structural)]
pub enum ValidationError {
    /// The text holds no character at all.
    Empty,
    /// The text is not the hexadecimal form of twenty bytes.
    Malformed,
}

/// The bytes that `H160::from_str` reads from `text`, or `None` where it
/// reports an error.
pub uninterp spec fn parsed_h160(text: Seq<char>) -> Option<[u8; 20]>;

/// What `text` denotes as a ledger address.
pub open spec fn address_of(text: Seq<char>) -> Result<Address, ValidationError> {
    if text.len() == 0 {
        Err(ValidationError::Empty)
    } else {
        match parsed_h160(text) {
            Some(bytes) => Ok(Address { bytes }),
            None => Err(ValidationError::Malformed),
        }
    }
}

/// Calls `H160::from_str` of `web3::types` (the `FromStr` impl that
/// `fixed-hash` writes for its hash types).
///
/// Trusted: the result is a function of the text alone, named
/// [`parsed_h160`]; the call returns for every text, with the twenty bytes of
/// the hash on success and `None` for either of its two errors.
#[verifier::external_body]
fn h160_from_str(text: &str) -> (r: Option<[u8; 20]>)
    ensures
        r == parsed_h160(text@),
{
    match H160::from_str(text) {
        Ok(hash) => Some(hash.0),
        Err(_) => None,
    }
}

/// Validates a raw text as a ledger address.
///
/// Deterministic and free of side effects: an empty text is rejected as
/// [`ValidationError::Empty`], any other text that the address parser refuses
/// as [`ValidationError::Malformed`].
pub fn validate_address(raw: &str) -> (r: Result<Address, ValidationError>)
    ensures
        r == address_of(raw@),
{
    if raw.is_empty() {
        Err(ValidationError::Empty)
    } else {
        match h160_from_str(raw) {
            Some(bytes) => Ok(Address { bytes }),
            None => Err(ValidationError::Malformed),
        }
    }
}

} // verus!
