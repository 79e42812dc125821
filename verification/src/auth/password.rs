use argon2::{PasswordHasher, PasswordVerifier};
use vstd::prelude::*;
use vstd::string::{is_ascii_spec_bytes, StringSliceAdditionalSpecFns};
use vstd::utf8::is_ascii_chars;

verus! {

/// What Argon2 with its default parameters gives when it hashes `password`
/// with the salt whose base64 text is `salt`: the PHC string, or the text of
/// the error.
pub uninterp spec fn argon2_phc(password: Seq<char>, salt: Seq<char>) -> Result<Seq<char>, Seq<char>>;

/// What Argon2 with its default parameters gives when it checks `password`
/// against the PHC string `hash`: success, or the text of the error.
pub uninterp spec fn argon2_check(password: Seq<char>, hash: Seq<char>) -> Result<(), Seq<char>>;

/// The plain content of a result that carries texts on both sides.
pub open spec fn text_result(r: Result<String, String>) -> Result<Seq<char>, Seq<char>> {
    match r {
        Ok(t) => Ok(t@),
        Err(e) => Err(e@),
    }
}

/// The plain content of a result that carries only an error text.
pub open spec fn unit_result(r: Result<(), String>) -> Result<(), Seq<char>> {
    match r {
        Ok(()) => Ok(()),
        Err(e) => Err(e@),
    }
}

/// A character of the standard base64 alphabet.
pub open spec fn b64_char(c: char) -> bool {
    ('A' <= c && c <= 'Z') || ('a' <= c && c <= 'z') || ('0' <= c && c <= '9') || c == '+' || c
        == '/'
}

/// Every character of `s` is a base64 character.
pub open spec fn all_b64(s: Seq<char>) -> bool {
    forall|i: int| 0 <= i < s.len() ==> b64_char(#[trigger] s[i])
}

/// `s` is the unpadded base64 text of sixteen bytes: 22 characters whose
/// last one carries no bits beyond the 128.
pub open spec fn sixteen_byte_salt(s: Seq<char>) -> bool {
    &&& s.len() == 22
    &&& all_b64(s)
    &&& (s[21] == 'A' || s[21] == 'Q' || s[21] == 'g' || s[21] == 'w')
}

/// The start of every PHC string that Argon2 with its default parameters
/// writes: algorithm argon2id, version 19, 19 MiB of memory, two passes,
/// one lane.
pub open spec fn argon2_default_prefix() -> Seq<char> {
    "$argon2id$v=19$m=19456,t=2,p=1$"@
}

/// `h` is the PHC string of a 32-byte Argon2 digest under the default
/// parameters and the salt text `salt`.
pub open spec fn default_phc(salt: Seq<char>, h: Seq<char>) -> bool {
    exists|digest: Seq<char>|
        digest.len() == 43 && all_b64(digest) && h == argon2_default_prefix() + salt + seq!['$']
            + digest
}

/// Draws a salt with `SaltString::generate` from the operating system's
/// random source and hands back its base64 text. The bytes are random; the
/// text is the unpadded base64 of sixteen of them.
#[verifier::external_body]
fn generate_salt() -> (salt: String)
    ensures
        sixteen_byte_salt(salt@),
{
    argon2::password_hash::SaltString::generate(&mut argon2::password_hash::rand_core::OsRng).as_str().to_string()
}

/// Hashes with `Argon2::default().hash_password` under the salt given as
/// base64 text (`SaltString::from_b64`), errors turned into their text; named
/// by `argon2_phc`. With a sixteen-byte salt the call fails only on a
/// password over `u32::MAX` bytes. A hash that comes back is the PHC string
/// of the default parameters, the salt and the 32-byte digest, and, as the
/// argon2 crate documents of a hash it produced, `verify_password` accepts
/// the same password for it.
#[verifier::external_body]
fn argon2_hash(password: &str, salt: &str) -> (r: Result<String, String>)
    ensures
        text_result(r) == argon2_phc(password@, salt@),
        sixteen_byte_salt(salt@) && password.spec_bytes().len() <= 0xFFFF_FFFF ==> r is Ok,
        r matches Ok(h) ==> default_phc(salt@, h@),
        r matches Ok(h) ==> argon2_check(password@, h@) is Ok,
{
    let salt = argon2::password_hash::SaltString::from_b64(salt).map_err(|e| e.to_string())?;
    argon2::Argon2::default().hash_password(password.as_bytes(), &salt).map(|h| h.to_string()).map_err(
        |e| e.to_string(),
    )
}

/// Parses the PHC string with `PasswordHash::new` and checks the password
/// with `Argon2::default().verify_password`, errors turned into their text;
/// named by `argon2_check`.
#[verifier::external_body]
fn argon2_verify(password: &str, hash: &str) -> (r: Result<(), String>)
    ensures
        unit_result(r) == argon2_check(password@, hash@),
{
    let parsed = argon2::password_hash::PasswordHash::new(hash).map_err(|e| e.to_string())?;
    argon2::Argon2::default().verify_password(password.as_bytes(), &parsed).map_err(|e| e.to_string())
}

/// Hashes a password under a fresh random salt of sixteen bytes. Whatever
/// salt was drawn, the result is the Argon2 hash under it; it is a hash
/// unless the password is over `u32::MAX` bytes; the hash is the default
/// PHC string with that salt, and `verify_password` accepts the same
/// password for it.
pub fn hash_password(password: &str) -> (r: Result<String, String>)
    ensures
        exists|salt: Seq<char>|
            sixteen_byte_salt(salt) && text_result(r) == #[trigger] argon2_phc(password@, salt) && (
            r matches Ok(h) ==> default_phc(salt, h@)),
        password.spec_bytes().len() <= 0xFFFF_FFFF ==> r is Ok,
        is_ascii_chars(password@) && password@.len() <= 0xFFFF_FFFF ==> r is Ok,
        r matches Ok(h) ==> argon2_check(password@, h@) is Ok,
        r matches Ok(h) ==> argon2_default_prefix().is_prefix_of(h@),
{
    let salt = generate_salt();
    let r = argon2_hash(password, salt.as_str());
    proof {
        broadcast use is_ascii_spec_bytes;

        if let Ok(h) = &r {
            let digest = choose|digest: Seq<char>|
                digest.len() == 43 && all_b64(digest) && h@ == argon2_default_prefix() + salt@
                    + seq!['$'] + digest;
            assert(h@.subrange(0, argon2_default_prefix().len() as int) =~= argon2_default_prefix());
        }
        if is_ascii_chars(password@) {
            assert(vstd::string::is_ascii(password));
        }
    }
    r
}

/// Checks a password against a stored hash.
pub fn verify_password(password: &str, hash: &str) -> (r: Result<(), String>)
    ensures
        unit_result(r) == argon2_check(password@, hash@),
{
    argon2_verify(password, hash)
}

} // verus!
