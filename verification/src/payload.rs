//! The opaque mint payload: a hexadecimal string that encodes a tuple of
//! three text fields (name, content-store address, content identifier).
//! Decoding runs hexadecimal decode, then the tuple decode, then a text
//! check on each field; every failure carries its own reason. Invalid
//! text in a decoded field is reported as a decode failure rather than
//! aborting the process, and a payload whose tuple has any other arity
//! is rejected as a structure mismatch rather than silently skipped.

use vstd::prelude::*;
use vstd::string::StringExecFns;
use vstd::string::StrSliceExecFns;
use vstd::utf8::valid_utf8;
use vstd::utf8::decode_utf8;
use vstd::utf8::encode_utf8;
use crate::abi::abi_decode3;
use crate::abi::abi_encode3;
use crate::abi::enc_len3;
use crate::abi::abi_decode_three;
use crate::abi::abi_encode_three;
use crate::abi::lemma_abi_round_trip;
use crate::hexcodec::hex_bytes;
use crate::hexcodec::hex_chars;
use crate::hexcodec::hex_decode;
use crate::hexcodec::hex_encode;
use crate::hexcodec::valid_hex;
use crate::hexcodec::lemma_hex_round_trip;

verus! {

/// Why a payload was rejected.
pub enum PayloadFailure {
    /// The payload is not a well-formed hexadecimal string.
    Hex,
    /// The bytes are not a canonical tuple of three dynamic strings.
    Tuple,
    /// A decoded field is not valid text.
    Text,
}

/// The reported reason for each payload failure.
pub open spec fn payload_failure_text(f: PayloadFailure) -> Seq<char> {
    match f {
        PayloadFailure::Hex => "Invalid data structure: the payload is not hexadecimal"@,
        PayloadFailure::Tuple => "Invalid data structure: the payload is not a tuple of three strings"@,
        PayloadFailure::Text => "Invalid data structure: a payload field is not valid text"@,
    }
}

/// What a payload string decodes to: the three text fields, or the
/// first failure on the way.
pub open spec fn decoded_payload(s: Seq<char>) -> Result<
    (Seq<char>, Seq<char>, Seq<char>),
    PayloadFailure,
> {
    if !valid_hex(s) {
        Err(PayloadFailure::Hex)
    } else {
        match abi_decode3(hex_bytes(s)) {
            None => Err(PayloadFailure::Tuple),
            Some(t) => {
                if valid_utf8(t.0) && valid_utf8(t.1) && valid_utf8(t.2) {
                    Ok((decode_utf8(t.0), decode_utf8(t.1), decode_utf8(t.2)))
                } else {
                    Err(PayloadFailure::Text)
                }
            },
        }
    }
}

/// The payload that encodes three text fields.
pub open spec fn encoded_payload(a: Seq<char>, b: Seq<char>, c: Seq<char>) -> Seq<char> {
    hex_chars(abi_encode3(encode_utf8(a), encode_utf8(b), encode_utf8(c)))
}

/// Relies on String::from_utf8: it succeeds exactly on byte strings
/// that are valid UTF-8, and the returned string holds exactly those
/// bytes, so its characters are their decoding.
#[verifier::external_body]
fn utf8_to_string(v: Vec<u8>) -> (r: Option<String>)
    ensures
        match r {
            Some(s) => valid_utf8(v@) && s@ == decode_utf8(v@),
            None => !valid_utf8(v@),
        },
{
    String::from_utf8(v).ok()
}

/// Decodes a mint payload into its three text fields; rejected payloads
/// yield the reason exactly as `decoded_payload` assigns it.
pub fn decode_mint_payload(data: &str) -> (r: Result<(String, String, String), String>)
    ensures
        match r {
            Ok(t) => decoded_payload(data@) == Ok::<_, PayloadFailure>(
                (t.0@, t.1@, t.2@),
            ),
            Err(e) => decoded_payload(data@) matches Err(f) && e@ == payload_failure_text(f),
        },
{
    let bytes = match hex_decode(data) {
        Some(b) => b,
        None => {
            return Err(String::from_str("Invalid data structure: the payload is not hexadecimal"));
        },
    };
    let (ba, bb, bc) = match abi_decode_three(&bytes) {
        Some(t) => t,
        None => {
            return Err(
                String::from_str(
                    "Invalid data structure: the payload is not a tuple of three strings",
                ),
            );
        },
    };
    let sa = match utf8_to_string(ba) {
        Some(s) => s,
        None => {
            return Err(
                String::from_str("Invalid data structure: a payload field is not valid text"),
            );
        },
    };
    let sb = match utf8_to_string(bb) {
        Some(s) => s,
        None => {
            return Err(
                String::from_str("Invalid data structure: a payload field is not valid text"),
            );
        },
    };
    let sc = match utf8_to_string(bc) {
        Some(s) => s,
        None => {
            return Err(
                String::from_str("Invalid data structure: a payload field is not valid text"),
            );
        },
    };
    Ok((sa, sb, sc))
}

/// Encodes three text fields as a mint payload.
pub fn encode_mint_payload(name: &str, address: &str, cid: &str) -> (r: String)
    requires
        enc_len3(
            encode_utf8(name@).len(),
            encode_utf8(address@).len(),
            encode_utf8(cid@).len(),
        ) <= usize::MAX,
    ensures
        r@ == encoded_payload(name@, address@, cid@),
{
    let na = name.as_bytes_vec();
    let nb = address.as_bytes_vec();
    let nc = cid.as_bytes_vec();
    let enc = abi_encode_three(&na, &nb, &nc);
    hex_encode(&enc)
}

/// A payload round trip: encoding any three text fields and decoding
/// the payload again yields exactly the original fields.
pub proof fn lemma_payload_round_trip(a: Seq<char>, b: Seq<char>, c: Seq<char>)
    requires
        enc_len3(encode_utf8(a).len(), encode_utf8(b).len(), encode_utf8(c).len())
            < 0x10000000000000000,
    ensures
        decoded_payload(encoded_payload(a, b, c)) == Ok::<_, PayloadFailure>((a, b, c)),
{
    broadcast use vstd::utf8::encode_utf8_valid_utf8;
    broadcast use vstd::utf8::encode_utf8_decode_utf8;

    let ea = encode_utf8(a);
    let eb = encode_utf8(b);
    let ec = encode_utf8(c);
    let enc = abi_encode3(ea, eb, ec);
    lemma_hex_round_trip(enc);
    lemma_abi_round_trip(ea, eb, ec);
}

} // verus!
