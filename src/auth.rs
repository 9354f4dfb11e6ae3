//! The authorization scheme shared with the remote platform: the endpoint
//! identifier followed by an Argon2 hash of the shared secret.

use vstd::prelude::*;
use vstd::string::{StrSliceExecFns, StringSliceAdditionalSpecFns};

use crate::entropy::os_random_bytes;

verus! {

#[verifier::external_type_specification]
#[verifier::external_body]
pub struct ExArgon2Error(argon2::Error);

/// Why a hash of the secret could not be made.
#[derive(Debug, Clone, Copy, PartialEq, Eq, Structural)]
pub enum AuthError {
    /// The operating system's random generator failed.
    Random,
    /// The hash function refused its input.
    Hash,
}

/// Length of the salt drawn for each hash, in bytes.
pub const SALT_LENGTH: usize = 16;

/// Text that starts every Argon2 encoded hash, and that separates the
/// endpoint identifier from the hash in an authorization header.
pub const AUTH_MARKER: &'static str = "$argon2";

/// The encoded hash that argon2::hash_encoded makes of `pwd` with `salt`
/// under the crate's default configuration; `None` where it refuses them.
pub uninterp spec fn argon2_encoding(pwd: Seq<u8>, salt: Seq<u8>) -> Option<Seq<char>>;

/// What argon2::verify_encoded says of `pwd` against `encoded`: whether
/// it matches, or `None` where the encoding is refused.
pub uninterp spec fn argon2_verification(encoded: Seq<char>, pwd: Seq<u8>) -> Option<bool>;

/// Relies on argon2::hash_encoded with argon2::Config::default(): the
/// encoded hash, or the refusal, depends on the password and salt alone.
#[verifier::external_body]
fn argon2_hash(pwd: &[u8], salt: &[u8]) -> (r: Result<String, argon2::Error>)
    ensures
        match r {
            Ok(s) => argon2_encoding(pwd@, salt@) == Some(s@),
            Err(_) => argon2_encoding(pwd@, salt@) is None,
        },
{
    argon2::hash_encoded(pwd, salt, &argon2::Config::default())
}

/// Relies on argon2::verify_encoded, built without the crate's threading
/// feature so that every encoding is verified on the calling thread: the
/// verdict, or the refusal of a malformed encoding, depends on the two
/// arguments alone. (An encoding that asks for more memory than the
/// machine has stops the process inside the allocator; the call then does
/// not return.)
#[verifier::external_body]
fn argon2_verify(encoded: &str, pwd: &[u8]) -> (r: Result<bool, argon2::Error>)
    ensures
        match r {
            Ok(b) => argon2_verification(encoded@, pwd@) == Some(b),
            Err(_) => argon2_verification(encoded@, pwd@) is None,
        },
{
    argon2::verify_encoded(encoded, pwd)
}

/// The encoded hash of `secret` with the given salt.
pub fn hash_with_salt(secret: &str, salt: &[u8]) -> (r: Result<String, AuthError>)
    ensures
        match r {
            Ok(s) => argon2_encoding(secret.spec_bytes(), salt@) == Some(s@),
            Err(e) => e == AuthError::Hash && argon2_encoding(secret.spec_bytes(), salt@) is None,
        },
{
    match argon2_hash(secret.as_bytes(), salt) {
        Ok(s) => Ok(s),
        Err(_) => Err(AuthError::Hash),
    }
}

/// The encoded hash of `secret` with a fresh random salt.
pub fn hashed_secret(secret: &str) -> (r: Result<String, AuthError>)
    ensures
        r matches Ok(s) ==> exists|salt: Seq<u8>|
            salt.len() == SALT_LENGTH && argon2_encoding(secret.spec_bytes(), salt) == Some(s@),
        r == Err::<String, AuthError>(AuthError::Hash) ==> exists|salt: Seq<u8>|
            salt.len() == SALT_LENGTH && argon2_encoding(secret.spec_bytes(), salt) is None,
{
    match os_random_bytes(SALT_LENGTH) {
        Ok(salt) => hash_with_salt(secret, salt.as_slice()),
        Err(_) => Err(AuthError::Random),
    }
}

/// Whether `encoded` is a valid hash of `secret`. A malformed encoding
/// does not verify.
pub fn verify(encoded: &str, secret: &str) -> (r: bool)
    ensures
        r == (argon2_verification(encoded@, secret.spec_bytes()) == Some(true)),
{
    match argon2_verify(encoded, secret.as_bytes()) {
        Ok(b) => b,
        Err(_) => false,
    }
}

/// The authorization header this endpoint sends: its identifier followed
/// by a fresh hash of the secret.
pub fn authorization(endpoint_uuid: &str, secret: &str) -> (r: Result<String, AuthError>)
    ensures
        r matches Ok(s) ==> exists|salt: Seq<u8>, h: Seq<char>|
            salt.len() == SALT_LENGTH && argon2_encoding(secret.spec_bytes(), salt) == Some(h)
                && s@ == endpoint_uuid@ + h,
        r == Err::<String, AuthError>(AuthError::Hash) ==> exists|salt: Seq<u8>|
            salt.len() == SALT_LENGTH && argon2_encoding(secret.spec_bytes(), salt) is None,
{
    match hashed_secret(secret) {
        Ok(h) => {
            let mut s = String::from_str(endpoint_uuid);
            s.append(h.as_str());
            Ok(s)
        },
        Err(e) => Err(e),
    }
}

/// The marker starts at position `p` of `s`.
pub open spec fn marker_at(s: Seq<char>, p: int) -> bool {
    &&& 0 <= p
    &&& p + AUTH_MARKER@.len() <= s.len()
    &&& s.subrange(p, p + AUTH_MARKER@.len()) == AUTH_MARKER@
}

/// The marker occurs in `s` at `p` and nowhere else.
pub open spec fn sole_marker_at(s: Seq<char>, p: int) -> bool {
    &&& marker_at(s, p)
    &&& forall|q: int| #[trigger] marker_at(s, q) ==> q == p
}

/// Splits an authorization header at its marker: the identifier before
/// it, and the encoded hash from the marker on. `None` unless the marker
/// occurs exactly once.
pub fn split_authorization(header: &str) -> (r: Option<(String, String)>)
    ensures
        match r {
            Some((id, hash)) => exists|p: int|
                sole_marker_at(header@, p) && id@ == header@.subrange(0, p) && hash@
                    == header@.subrange(p, header@.len() as int),
            None => forall|p: int| !sole_marker_at(header@, p),
        },
{
    proof {
        reveal_strlit("$argon2");
    }
    let marker = String::from_str(AUTH_MARKER);
    let m = AUTH_MARKER.unicode_len();
    let n = header.unicode_len();
    let mut found: Option<usize> = None;
    let mut p: usize = 0;
    while p < n && m <= n - p
        invariant
            m == AUTH_MARKER@.len(),
            n == header@.len(),
            marker@ == AUTH_MARKER@,
            p <= n,
            match found {
                Some(f) => f < p && marker_at(header@, f as int) && forall|q: int|
                    0 <= q < p && #[trigger] marker_at(header@, q) ==> q == f,
                None => forall|q: int| 0 <= q < p ==> !#[trigger] marker_at(header@, q),
            },
        decreases n - p,
    {
        let piece = String::from_str(header.substring_char(p, p + m));
        if piece == marker {
            match found {
                Some(f) => {
                    assert(marker_at(header@, f as int));
                    assert(marker_at(header@, p as int));
                    return None;
                },
                None => {
                    found = Some(p);
                },
            }
        }
        p = p + 1;
    }
    assert forall|q: int| p <= q && #[trigger] marker_at(header@, q) implies false by {}
    match found {
        Some(f) => {
            let id = String::from_str(header.substring_char(0, f));
            let hash = String::from_str(header.substring_char(f, n));
            assert(sole_marker_at(header@, f as int));
            Some((id, hash))
        },
        None => None,
    }
}

/// Whether `header` authorizes a request: the marker occurs once, the
/// text before it is this endpoint's identifier, and the text from it on
/// is a valid hash of the secret.
pub fn check_authorization(header: &str, endpoint_uuid: &str, secret: &str) -> (r: bool)
    ensures
        r == exists|p: int|
            sole_marker_at(header@, p) && header@.subrange(0, p) == endpoint_uuid@
                && argon2_verification(
                header@.subrange(p, header@.len() as int),
                secret.spec_bytes(),
            ) == Some(true),
{
    match split_authorization(header) {
        Some((id, hash)) => {
            if id == String::from_str(endpoint_uuid) {
                verify(hash.as_str(), secret)
            } else {
                false
            }
        },
        None => false,
    }
}

} // verus!
