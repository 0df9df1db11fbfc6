//! Signing: an HMAC-SHA256 tag over the canonical request string, written
//! in standard base64.

use crate::error::Error;
use crate::json::{chars_to_string, decimal, push_decimal, push_str};
use base64::Engine;
use hmac::Mac;
use vstd::prelude::*;
use vstd::utf8::encode_utf8;

verus! {

/// The HMAC-SHA256 tag of `message` under `key`.
pub uninterp spec fn hmac_sha256(key: Seq<u8>, message: Seq<u8>) -> Seq<u8>;

/// The standard base64 alphabet.
pub open spec fn base64_alphabet() -> Seq<char> {
    "ABCDEFGHIJKLMNOPQRSTUVWXYZabcdefghijklmnopqrstuvwxyz0123456789+/"@
}

/// The base64 character of a six-bit value.
pub open spec fn b64(v: int) -> char {
    base64_alphabet()[v]
}

/// The standard base64 text of `bytes`: each three bytes become four
/// characters of six bits each, and a last group of one or two bytes is
/// padded with `=`.
pub open spec fn base64_standard(bytes: Seq<u8>) -> Seq<char>
    decreases bytes.len(),
{
    if bytes.len() == 0 {
        Seq::empty()
    } else if bytes.len() == 1 {
        let b0 = bytes[0] as int;
        seq![b64(b0 / 4), b64((b0 % 4) * 16), '=', '=']
    } else if bytes.len() == 2 {
        let b0 = bytes[0] as int;
        let b1 = bytes[1] as int;
        seq![b64(b0 / 4), b64((b0 % 4) * 16 + b1 / 16), b64((b1 % 16) * 4), '=']
    } else {
        let b0 = bytes[0] as int;
        let b1 = bytes[1] as int;
        let b2 = bytes[2] as int;
        seq![b64(b0 / 4), b64((b0 % 4) * 16 + b1 / 16), b64((b1 % 16) * 4 + b2 / 64), b64(b2 % 64)]
            + base64_standard(bytes.subrange(3, bytes.len() as int))
    }
}

#[verifier::external_type_specification]
#[verifier::external_body]
pub struct ExInvalidLength(hmac::digest::InvalidLength);

/// Relies on hmac's `Hmac<sha2::Sha256>`: `new_from_slice`, `update` and
/// `finalize` give the HMAC-SHA256 tag of the message under the key.
/// `new_from_slice` accepts keys of every length for this hash.
#[verifier::external_body]
fn hmac_sha256_tag(key: &[u8], message: &[u8]) -> (r: Result<Vec<u8>, hmac::digest::InvalidLength>)
    ensures
        r is Ok,
        r is Ok ==> r->Ok_0@ == hmac_sha256(key@, message@),
{
    let mut mac = <hmac::Hmac<sha2::Sha256> as Mac>::new_from_slice(key)?;
    mac.update(message);
    Ok(mac.finalize().into_bytes().to_vec())
}

/// Relies on base64's `general_purpose::STANDARD` engine: `encode` writes the
/// standard alphabet (RFC 4648) with padding.
#[verifier::external_body]
fn base64_encode(bytes: &[u8]) -> (r: String)
    ensures
        r@ == base64_standard(bytes@),
{
    base64::engine::general_purpose::STANDARD.encode(bytes)
}

/// The canonical string that is signed: the timestamp in decimal, the
/// method, the path and the body.
pub open spec fn canonical_string(
    timestamp: u64,
    method: Seq<char>,
    path: Seq<char>,
    body: Seq<char>,
) -> Seq<char> {
    decimal(timestamp as nat) + method + path + body
}

/// The signature of a canonical string under `secret`.
pub open spec fn signature_of(secret: Seq<char>, canonical: Seq<char>) -> Seq<char> {
    base64_standard(hmac_sha256(encode_utf8(secret), encode_utf8(canonical)))
}

/// Writes the canonical string for a request.
pub fn canonical(timestamp: u64, method: &str, path: &str, body: &str) -> (r: String)
    ensures
        r@ == canonical_string(timestamp, method@, path@, body@),
{
    let mut out: Vec<char> = Vec::new();
    push_decimal(&mut out, timestamp);
    push_str(&mut out, method);
    push_str(&mut out, path);
    push_str(&mut out, body);
    assert(out@ =~= canonical_string(timestamp, method@, path@, body@));
    chars_to_string(&out)
}

/// Signs a request: the base64 HMAC-SHA256 tag, under `secret`, of the
/// canonical string of `timestamp`, `method` (its upper-case name), `path`
/// and `body`. An empty secret is refused.
pub fn generate_signature(
    method: &str,
    path: &str,
    body: &str,
    timestamp: u64,
    secret: &str,
) -> (r: Result<String, Error>)
    ensures
        secret@.len() == 0 ==> r matches Err(Error::InvalidLength),
        secret@.len() > 0 ==> (r matches Ok(s) && s@ == signature_of(
            secret@,
            canonical_string(timestamp, method@, path@, body@),
        )),
{
    if secret.unicode_len() == 0 {
        return Err(Error::InvalidLength);
    }
    let message = canonical(timestamp, method, path, body);
    match hmac_sha256_tag(secret.as_bytes(), message.as_str().as_bytes()) {
        Ok(tag) => Ok(base64_encode(tag.as_slice())),
        Err(_) => Err(Error::InvalidLength),
    }
}

/// The path that a WebSocket login signs.
pub open spec fn login_path() -> Seq<char> {
    "/users/self/verify"@
}

/// The canonical string of a WebSocket login at `timestamp`: the timestamp,
/// `GET`, the verification path and an empty body.
pub open spec fn login_canonical(timestamp: u64) -> Seq<char> {
    canonical_string(timestamp, "GET"@, login_path(), ""@)
}

/// Signs a WebSocket login at `timestamp` under `secret`.
pub fn login_signature(timestamp: u64, secret: &str) -> (r: Result<String, Error>)
    ensures
        secret@.len() == 0 ==> r matches Err(Error::InvalidLength),
        secret@.len() > 0 ==> (r matches Ok(s) && s@ == signature_of(
            secret@,
            login_canonical(timestamp),
        )),
{
    generate_signature("GET", "/users/self/verify", "", timestamp, secret)
}

} // verus!
