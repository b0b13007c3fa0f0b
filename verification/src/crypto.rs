//! The template helpers that obfuscate strings: AES-256-GCM-SIV under a
//! fixed, published key and nonce, carried as base64.  This is template
//! convenience, not secrecy.

use aead::Aead;
use aes_gcm_siv::KeyInit;
use base64::Engine;
use vstd::prelude::*;

verus! {

/// The base64 form of the sealing of a string under the built-in key and
/// nonce; with both fixed, a function of the plaintext alone.
pub uninterp spec fn enc_of(plain: Seq<char>) -> Seq<char>;

/// Relies on `aes_gcm_siv::Aes256GcmSiv` (`aead::Aead::encrypt` under the
/// fixed built-in key and nonce) and base64's `STANDARD` engine `encode`:
/// the result is deterministic in the plaintext.  The cipher refuses only a
/// plaintext beyond 2^36 bytes; a character is at most four bytes in UTF-8,
/// so sealing is owed for any string of at most 2^34 characters.
#[verifier::external_body]
fn enc_raw(plain: &str) -> (r: Option<String>)
    ensures
        r matches Some(c) ==> c@ == enc_of(plain@),
        plain@.len() <= 0x4_0000_0000 ==> r is Some,
{
    let key = aead::generic_array::GenericArray::from_slice(b"an example very very secret key.");
    let cipher = aes_gcm_siv::Aes256GcmSiv::new(key);
    let nonce = aes_gcm_siv::Nonce::from_slice(b"unique nonce");
    match cipher.encrypt(nonce, plain.as_bytes()) {
        Ok(ct) => Some(base64::engine::general_purpose::STANDARD.encode(ct)),
        Err(_) => None,
    }
}

/// Relies on base64's `STANDARD` engine `decode` and `aead::Aead::decrypt`
/// under the same fixed key and nonce: decoding inverts encoding and
/// decryption inverts encryption, so any string produced by the sealing of
/// a plaintext opens back to exactly that plaintext.
#[verifier::external_body]
fn dec_raw(text: &str) -> (r: Option<String>)
    ensures
        r is None ==> forall|p: Seq<char>| text@ != enc_of(p),
        r matches Some(y) ==> forall|p: Seq<char>| text@ == enc_of(p) ==> y@ == p,
{
    let bytes = match base64::engine::general_purpose::STANDARD.decode(text) {
        Ok(b) => b,
        Err(_) => return None,
    };
    let key = aead::generic_array::GenericArray::from_slice(b"an example very very secret key.");
    let cipher = aes_gcm_siv::Aes256GcmSiv::new(key);
    let nonce = aes_gcm_siv::Nonce::from_slice(b"unique nonce");
    match cipher.decrypt(nonce, bytes.as_ref()) {
        Ok(pt) => String::from_utf8(pt).ok(),
        Err(_) => None,
    }
}

/// Seal a string for embedding in a template.  Sealing is owed for any
/// string of at most 2^34 characters; only a longer one is refused.
pub fn enc(plain: &str) -> (r: Option<String>)
    ensures
        r matches Some(c) ==> c@ == enc_of(plain@),
        plain@.len() <= 0x4_0000_0000 ==> r is Some,
{
    enc_raw(plain)
}

/// Open a sealed string; a string that is the sealing of some plaintext
/// opens to exactly that plaintext.
pub fn dec(text: &str) -> (r: Option<String>)
    ensures
        r is None ==> forall|p: Seq<char>| text@ != enc_of(p),
        r matches Some(y) ==> forall|p: Seq<char>| text@ == enc_of(p) ==> y@ == p,
{
    dec_raw(text)
}

/// Round trip: opening a sealed string gives the original back, and the
/// trip is owed for any string the cipher accepts (at most 2^34
/// characters).
pub fn enc_dec_round_trip(plain: &str) -> (r: Option<String>)
    ensures
        r matches Some(y) ==> y@ == plain@,
        plain@.len() <= 0x4_0000_0000 ==> (r matches Some(y) && y@ == plain@),
{
    match enc(plain) {
        Some(sealed) => {
            let opened = dec(sealed.as_str());
            proof {
                assert(sealed@ == enc_of(plain@));
            }
            Some(opened.unwrap())
        }
        None => None,
    }
}

} // verus!
