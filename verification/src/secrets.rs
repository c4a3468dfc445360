//! Secret handling: the content fingerprint used for change detection, and
//! the generation of the encryption key pair during host setup.

use vstd::prelude::*;

verus! {

/// The hexadecimal fingerprint the digest assigns to a text: a function of
/// the characters alone, the same in every process and on every machine.
pub uninterp spec fn md5_hex_of(s: Seq<char>) -> Seq<char>;

/// Relies on `md5::compute`, whose digest is a pure function of the input
/// bytes, and on the md5 crate's `LowerHex` rendering of a digest, which
/// writes each of the sixteen digest bytes as exactly two hexadecimal
/// digits.
#[verifier::external_body]
fn md5_hex(s: &str) -> (r: String)
    ensures
        r@ == md5_hex_of(s@),
        r@.len() == 32,
{
    format!("{:x}", md5::compute(s.as_bytes()))
}

/// The fingerprint of a secret file's text.  Collision resistance need not
/// be cryptographic: this is change detection, not an integrity proof.
pub fn get_env_file_hash(content: &str) -> (r: String)
    ensures
        r@ == md5_hex_of(content@),
        r@.len() == 32,
{
    md5_hex(content)
}

/// Relies on `age::x25519::Identity::generate` and the bech32 renderings of
/// the identity and its recipient: a freshly generated key pair.  The values
/// depend on the process's randomness, so nothing is assumed of them beyond
/// nonemptiness of the two encodings.
#[verifier::external_body]
fn age_keypair() -> (r: (String, String))
    ensures
        r.0@.len() > 0,
        r.1@.len() > 0,
{
    let identity = age::x25519::Identity::generate();
    let public_key = identity.to_public().to_string();
    let secret = identity.to_string();
    let secret_key = age::secrecy::ExposeSecret::expose_secret(&secret).to_string();
    (public_key, secret_key)
}

/// Generate the recipient/identity key pair for secret encryption, unless
/// the credential store already holds one: existing keys are never
/// overwritten.  Returns the public key and the secret key.
pub fn create_age_keys_if_not_exist(already_exist: bool) -> (r: Option<(String, String)>)
    ensures
        r is Some <==> !already_exist,
        r matches Some(p) ==> p.0@.len() > 0 && p.1@.len() > 0,
{
    if already_exist {
        None
    } else {
        Some(age_keypair())
    }
}

} // verus!
