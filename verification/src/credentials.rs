use vstd::prelude::*;

use argon2::password_hash::rand_core::OsRng;
use argon2::password_hash::{PasswordHash, PasswordHasher, PasswordVerifier, Salt, SaltString};
use argon2::Argon2;

verus! {

/// What `PasswordHash::new` (password-hash) reports for the PHC string
/// `phc`: `None` when it parses, else the text of the parse error.
pub uninterp spec fn phc_parse_error(phc: Seq<char>) -> Option<Seq<char>>;

/// Whether `Argon2::default().verify_password` (argon2) accepts `password`
/// against the parsed PHC string `phc`.
pub uninterp spec fn argon2_accepts(password: Seq<char>, phc: Seq<char>) -> bool;

/// What hashing `password` under the salt text `salt` gives: the salt text
/// is read by `Salt::from_b64` (password-hash) and the password hashed by
/// `Argon2::default().hash_password` (argon2), so the name covers both calls.
/// The result is the PHC string of the hash, or the text of the first error.
pub uninterp spec fn argon2_hash(password: Seq<char>, salt: Seq<char>) -> Result<Seq<char>, Seq<char>>;

/// A character of the B64 alphabet: standard Base64 without padding.
pub open spec fn is_b64_char(c: char) -> bool {
    ||| 'A' <= c && c <= 'Z'
    ||| 'a' <= c && c <= 'z'
    ||| '0' <= c && c <= '9'
    ||| c == '+'
    ||| c == '/'
}

/// The canonical B64 text of sixteen bytes: twenty-two characters of the
/// alphabet, the last of which carries two bits and four zero bits.
pub open spec fn is_b64_of_16_bytes(s: Seq<char>) -> bool {
    &&& s.len() == 22
    &&& forall|i: int| 0 <= i < s.len() ==> is_b64_char(#[trigger] s[i])
    &&& (s[21] == 'A' || s[21] == 'Q' || s[21] == 'g' || s[21] == 'w')
}

/// The longest password, in UTF-8 bytes, that argon2 hashes.
pub open spec fn password_fits(password: Seq<char>) -> bool {
    vstd::utf8::encode_utf8(password).len() <= 0xFFFF_FFFF
}

/// Whether `text` begins with the PHC prefix of an Argon2id hash, `$argon2id$`.
pub open spec fn is_argon2id_phc(text: Seq<char>) -> bool {
    text.len() >= 10 && text.subrange(0, 10) == "$argon2id$"@
}

/// Whether `phc` is a well-formed PHC string.
pub open spec fn phc_parses(phc: Seq<char>) -> bool {
    phc_parse_error(phc) is None
}

/// Calls `PasswordHash::new` of password-hash on `phc`. Trusted to report
/// success, or the text of its error, exactly as named by `phc_parse_error`.
#[verifier::external_body]
pub(crate) fn parse_password_hash(phc: &str) -> (r: Result<(), String>)
    ensures
        match r {
            Ok(()) => phc_parse_error(phc@) is None,
            Err(e) => phc_parse_error(phc@) == Some(e@),
        },
{
    PasswordHash::new(phc).map(|_| ()).map_err(|e| e.to_string())
}

/// Calls `verify_password` of `Argon2::default()` (argon2) with the bytes of
/// `password` and what `PasswordHash::new` parses from `phc`. Trusted to
/// answer as named by `argon2_accepts` for a string that parses; a string
/// that does not parse is never accepted.
#[verifier::external_body]
pub(crate) fn verify_password(password: &str, phc: &str) -> (ok: bool)
    ensures
        ok == (phc_parses(phc@) && argon2_accepts(password@, phc@)),
{
    match PasswordHash::new(phc) {
        Ok(hash) => Argon2::default().verify_password(password.as_bytes(), &hash).is_ok(),
        Err(_) => false,
    }
}

/// Calls `SaltString::generate` of password-hash with the operating system's
/// random source and hands back the B64 text of the salt. The crate encodes
/// sixteen random bytes, so the text is the canonical B64 of sixteen bytes;
/// which bytes is left unstated, as they are random.
#[verifier::external_body]
pub(crate) fn generate_salt() -> (salt: String)
    ensures
        is_b64_of_16_bytes(salt@),
{
    SaltString::generate(&mut OsRng).as_str().to_string()
}

/// Calls `hash_password` of `Argon2::default()` (argon2) on the bytes of
/// `password` and the salt that `Salt::from_b64` reads from `salt`, and hands
/// back the PHC string of the hash or the text of the error. Trusted to give
/// what `argon2_hash` names; as the crate's documentation shows, that a PHC
/// string it produces parses again and verifies against the same password;
/// and, as its source shows, that with the default parameters a canonical
/// sixteen-byte salt and a password of at most `u32::MAX` bytes always hash,
/// and that the PHC string it writes begins with `$argon2id$` (the default
/// algorithm's identifier between `$` separators).
#[verifier::external_body]
pub(crate) fn hash_password(password: &str, salt: &str) -> (r: Result<String, String>)
    ensures
        match r {
            Ok(h) => argon2_hash(password@, salt@) == Ok::<Seq<char>, Seq<char>>(h@),
            Err(e) => argon2_hash(password@, salt@) == Err::<Seq<char>, Seq<char>>(e@),
        },
        r matches Ok(h) ==> phc_parses(h@) && argon2_accepts(password@, h@) && is_argon2id_phc(h@),
        is_b64_of_16_bytes(salt@) && password_fits(password@) ==> r is Ok,
{
    match Salt::from_b64(salt) {
        Ok(s) => Argon2::default()
            .hash_password(password.as_bytes(), s)
            .map(|h| h.to_string())
            .map_err(|e| e.to_string()),
        Err(e) => Err(e.to_string()),
    }
}

/// Calls `Uuid::new_v4` of uuid and hands back its 128-bit value. The value is
/// random; the crate sets the version nibble to 4 and the variant bits to
/// `10`, and that is all that is stated of it.
#[verifier::external_body]
pub(crate) fn new_user_id() -> (id: u128)
    ensures
        id & 0xF000_C000_0000_0000_0000u128 == 0x4000_8000_0000_0000_0000u128,
{
    uuid::Uuid::new_v4().as_u128()
}

/// Calls `validate_length` of validator's `ValidateLength` on `value` with a
/// lower bound `min` only. The crate counts the characters of a `String`, so
/// the check holds exactly when `value` has at least `min` characters.
#[verifier::external_body]
pub(crate) fn has_min_length(value: &String, min: u64) -> (ok: bool)
    ensures
        ok == (value@.len() >= min),
{
    validator::ValidateLength::<u64>::validate_length(value, Some(min), None, None)
}

} // verus!
