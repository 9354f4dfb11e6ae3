//! Randomness from the operating system, and identifiers made from it.

use vstd::prelude::*;

verus! {

#[verifier::external_type_specification]
#[verifier::external_body]
pub struct ExRandomError(crypto_api_osrandom::error::Error);

/// Number of random bytes in an identifier.
pub const IDENTIFIER_BYTES: usize = 16;

/// Relies on crypto_api_osrandom::to_vec: on success, `len` bytes from the
/// operating system's secure generator.
#[verifier::external_body]
pub(crate) fn os_random_bytes(len: usize) -> (r: Result<Vec<u8>, crypto_api_osrandom::error::Error>)
    ensures
        r matches Ok(v) ==> v@.len() == len,
{
    crypto_api_osrandom::to_vec(len)
}

/// Relies on uuid::Builder::from_random_bytes (a version 4 identifier from
/// the given bytes), rendered through its hyphenated form, which is 36
/// characters long.
#[verifier::external_body]
fn uuid_from_random_bytes(bytes: &Vec<u8>) -> (r: String)
    requires
        bytes@.len() == 16,
    ensures
        r@.len() == 36,
{
    let mut raw = [0u8; 16];
    raw.copy_from_slice(bytes);
    uuid::Builder::from_random_bytes(raw).into_uuid().hyphenated().to_string()
}

/// A fresh random 128-bit identifier in its 36-character text form;
/// `None` when the operating system's generator fails.
pub fn fresh_identifier() -> (r: Option<String>)
    ensures
        r matches Some(s) ==> s@.len() == 36,
{
    match os_random_bytes(IDENTIFIER_BYTES) {
        Ok(bytes) => Some(uuid_from_random_bytes(&bytes)),
        Err(_) => None,
    }
}

} // verus!
