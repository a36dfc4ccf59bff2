//! The exchange's request signature: an HMAC-SHA256 tag, in lowercase hex,
//! over the timestamp, the API key, the receive window and the request's
//! query string or body, concatenated with no separator.

use vstd::prelude::*;
use vstd::utf8::encode_utf8;
use crate::text::{decimal_of, decimal_string, hex_digits, lower_hex};

verus! {

/// The HMAC-SHA256 tag of `message` under `key`.
pub uninterp spec fn hmac_sha256_of(key: Seq<u8>, message: Seq<u8>) -> Seq<u8>;

/// The receive window, in milliseconds, that every signed request declares.
pub open spec fn recv_window() -> Seq<char> {
    seq!['5', '0', '0', '0']
}

/// The string that is signed: timestamp, API key, receive window and body
/// component, in this order and with no separator.
pub open spec fn payload_of(timestamp: int, api_key: Seq<char>, body: Seq<char>) -> Seq<char> {
    decimal_of(timestamp) + api_key + recv_window() + body
}

/// The signature of `message` under `secret`: the lowercase hex text of the
/// HMAC-SHA256 tag over the UTF-8 bytes of both.
pub open spec fn signature_of(secret: Seq<char>, message: Seq<char>) -> Seq<char> {
    lower_hex(hmac_sha256_of(encode_utf8(secret), encode_utf8(message)))
}

/// Relies on hmac's `Hmac<Sha256>` through the `Mac` trait (`new_from_slice`,
/// `update`, `finalize`): the HMAC-SHA256 tag of `message` under `key`, which
/// depends on the two byte strings alone, and is as long as a SHA-256 digest
/// (32 bytes). `new_from_slice` of HMAC accepts a key of any length and never
/// returns an error.
#[verifier::external_body]
fn hmac_sha256(key: &[u8], message: &[u8]) -> (r: Vec<u8>)
    ensures
        r@ == hmac_sha256_of(key@, message@),
        r@.len() == 32,
{
    let mut mac = <hmac::Hmac<sha2::Sha256> as hmac::Mac>::new_from_slice(key)
        .expect("HMAC takes keys of any length");
    hmac::Mac::update(&mut mac, message);
    hmac::Mac::finalize(mac).into_bytes().to_vec()
}

/// Relies on hex::encode: two lowercase digits for each byte, high nibble
/// first.
#[verifier::external_body]
fn hex_encode(b: &[u8]) -> (r: String)
    ensures
        r@ == lower_hex(b@),
{
    hex::encode(b)
}

/// The receive window as text.
pub fn recv_window_str() -> (r: &'static str)
    ensures
        r@ == recv_window(),
{
    proof {
        reveal_strlit("5000");
    }
    "5000"
}

/// Builds the signature payload of a request.
pub fn sign_payload(timestamp: i128, api_key: &str, body: &str) -> (r: String)
    ensures
        r@ == payload_of(timestamp as int, api_key@, body@),
{
    let mut s = decimal_string(timestamp);
    s.append(api_key);
    s.append(recv_window_str());
    s.append(body);
    s
}

/// Text made of lowercase hexadecimal digits only.
pub open spec fn is_lower_hex_text(s: Seq<char>) -> bool {
    forall|i: int| 0 <= i < s.len() ==> hex_digits().contains(#[trigger] s[i])
}

/// The hex text of a byte string has two lowercase digits per byte.
pub proof fn lemma_lower_hex_shape(b: Seq<u8>)
    ensures
        lower_hex(b).len() == 2 * b.len(),
        is_lower_hex_text(lower_hex(b)),
    decreases b.len(),
{
    if b.len() > 0 {
        let last = b.last();
        lemma_lower_hex_shape(b.drop_last());
        let pair = seq![hex_digits()[(last / 16) as int], hex_digits()[(last % 16) as int]];
        assert(hex_digits().contains(pair[0]));
        assert(hex_digits().contains(pair[1]));
        let h = lower_hex(b);
        assert(h =~= lower_hex(b.drop_last()) + pair);
        assert forall|i: int| 0 <= i < h.len() implies hex_digits().contains(#[trigger] h[i]) by {
            if i >= lower_hex(b.drop_last()).len() {
                assert(h[i] == pair[i - lower_hex(b.drop_last()).len()]);
            } else {
                assert(h[i] == lower_hex(b.drop_last())[i]);
            }
        }
    }
}

/// Signs `message` with `secret`: HMAC-SHA256, hex encoded in lowercase,
/// 64 characters long.
pub fn sign_hmac_sha256(secret: &str, message: &str) -> (r: String)
    ensures
        r@ == signature_of(secret@, message@),
        r@.len() == 64,
        is_lower_hex_text(r@),
{
    let tag = hmac_sha256(secret.as_bytes(), message.as_bytes());
    proof {
        lemma_lower_hex_shape(tag@);
    }
    hex_encode(tag.as_slice())
}

/// The signature is a function of the secret and the payload: signing the
/// same payload with the same secret twice gives the same signature.
pub proof fn lemma_signature_deterministic(
    secret1: Seq<char>,
    message1: Seq<char>,
    secret2: Seq<char>,
    message2: Seq<char>,
)
    requires
        secret1 == secret2,
        message1 == message2,
    ensures
        signature_of(secret1, message1) == signature_of(secret2, message2),
{
}

/// Two payloads with the same timestamp and API key are equal exactly when
/// their body components are: any change to the query string or body, even
/// of whitespace or key order, changes the string that is signed.
pub proof fn lemma_payload_determines_body(
    timestamp: int,
    api_key: Seq<char>,
    body1: Seq<char>,
    body2: Seq<char>,
)
    ensures
        payload_of(timestamp, api_key, body1) == payload_of(timestamp, api_key, body2)
            <==> body1 == body2,
{
    let prefix = decimal_of(timestamp) + api_key + recv_window();
    let first = payload_of(timestamp, api_key, body1);
    let second = payload_of(timestamp, api_key, body2);
    assert(first =~= prefix + body1);
    assert(second =~= prefix + body2);
    if first == second {
        assert(body1 =~= first.subrange(prefix.len() as int, first.len() as int));
        assert(body2 =~= second.subrange(prefix.len() as int, second.len() as int));
    }
}

} // verus!
