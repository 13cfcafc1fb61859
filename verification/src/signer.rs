//! Request signatures: HMAC-SHA256 over the bytes of a query string, written
//! as lower-case hexadecimal text and appended as the `signature` parameter.

use hmac::Mac;
use vstd::prelude::*;
use vstd::string::*;
use vstd::utf8::*;
use crate::text::lower_hex_text;

verus! {

/// The HMAC-SHA256 tag of `message` under `key`.
///
/// The tag is computed by the `hmac` and `sha2` crates; it depends on the two
/// byte strings alone.
pub uninterp spec fn hmac_sha256(key: Seq<u8>, message: Seq<u8>) -> Seq<u8>;

/// Computes the HMAC-SHA256 tag of `message` under `key`.
///
/// Trusted: `Hmac::<Sha256>::new_from_slice`, `Mac::update` and
/// `Mac::finalize` of the `hmac` crate over `sha2::Sha256`. A key of any
/// length is accepted, so the keyed state is always made; the tag is the
/// 32-byte output of SHA-256.
#[verifier::external_body]
fn compute_hmac_sha256(key: &[u8], message: &[u8]) -> (tag: Vec<u8>)
    ensures
        tag@ == hmac_sha256(key@, message@),
        tag@.len() == 32,
{
    let mut mac = hmac::Hmac::<sha2::Sha256>::new_from_slice(key).unwrap();
    mac.update(message);
    mac.finalize().into_bytes().to_vec()
}

/// Writes bytes as lower-case hexadecimal text.
///
/// Trusted: `hex::encode`, which writes each byte as two digits taken from
/// `0123456789abcdef`, the high half first, in the order of the bytes.
#[verifier::external_body]
fn hex_encode(bytes: &[u8]) -> (text: String)
    ensures
        text@ == lower_hex_text(bytes@),
{
    hex::encode(bytes)
}

/// The signature of a message under a secret: the hexadecimal text of the
/// HMAC-SHA256 tag of the message's UTF-8 bytes, keyed by the secret's.
pub open spec fn signature_text(secret: Seq<char>, message: Seq<char>) -> Seq<char> {
    lower_hex_text(hmac_sha256(encode_utf8(secret), encode_utf8(message)))
}

/// A query string with its signature: `&signature=` and the signature behind
/// a query that is not empty, `signature=` and the signature of the empty
/// message where there is no query or an empty one.
pub open spec fn signed_query(secret: Seq<char>, query: Option<Seq<char>>) -> Seq<char> {
    match query {
        Some(q) if q.len() > 0 => q + "&signature="@ + signature_text(secret, q),
        _ => "signature="@ + signature_text(secret, Seq::empty()),
    }
}

/// The characters of an optional string.
pub open spec fn optional_text(s: Option<&str>) -> Option<Seq<char>> {
    match s {
        Some(t) => Some(t@),
        None => None,
    }
}

/// The signature of `message` under `secret_key`, 64 hexadecimal digits.
pub fn signature(secret_key: &str, message: &str) -> (text: String)
    ensures
        text@ == signature_text(secret_key@, message@),
        text@.len() == 64,
{
    let tag = compute_hmac_sha256(secret_key.as_bytes(), message.as_bytes());
    let text = hex_encode(tag.as_slice());
    proof {
        crate::text::lemma_lower_hex_len(tag@);
    }
    text
}

/// Signs a query string.
///
/// A query that is not empty is followed by `&signature=` and its signature.
/// Without a query, or with an empty one, the result is `signature=` and the
/// signature of the empty message: signing is still performed.
pub fn sign_request(secret_key: &str, request: Option<&str>) -> (signed: String)
    ensures
        signed@ == signed_query(secret_key@, optional_text(request)),
        request matches Some(q) ==> (q@.len() > 0 ==> signed@ == q@ + "&signature="@
            + lower_hex_text(hmac_sha256(encode_utf8(secret_key@), encode_utf8(q@)))),
        request is None || request->Some_0@.len() == 0 ==> signed@ == "signature="@
            + lower_hex_text(
            hmac_sha256(encode_utf8(secret_key@), encode_utf8(Seq::<char>::empty())),
        ),
{
    match request {
        Some(q) => {
            if q.is_empty() {
                let sig = signature(secret_key, q);
                assert(q@ =~= Seq::<char>::empty());
                let signed = String::from_str("signature=").concat(sig.as_str());
                signed
            } else {
                let sig = signature(secret_key, q);
                let mut signed = String::from_str(q);
                signed.append("&signature=");
                signed.append(sig.as_str());
                signed
            }
        },
        None => {
            let sig = signature(secret_key, "");
            proof {
                reveal_strlit("");
                assert(""@ =~= Seq::<char>::empty());
            }
            String::from_str("signature=").concat(sig.as_str())
        },
    }
}

} // verus!
