//! The wire schema of the provisioning service's two endpoints, and the
//! encoding shared by both: a signed envelope travels as the base64 of its
//! serialized bytes, so the envelope's internal structure is inert to the
//! wire schema.

pub mod client;
pub mod domain;
pub mod provision;

use vstd::prelude::*;
use vstd::string::StringExecFns;

verus! {

/// The standard-alphabet base64 encoding of a byte sequence, as
/// `base64::encode` computes it.
pub uninterp spec fn base64_of(bytes: Seq<u8>) -> Seq<char>;

/// Relies on `base64::encode`: the standard-alphabet base64 text of the
/// input bytes, a function of the bytes alone; empty input encodes to the
/// empty text.
#[verifier::external_body]
fn b64_encode(bytes: &Vec<u8>) -> (r: String)
    ensures
        r@ == base64_of(bytes@),
        bytes@.len() == 0 ==> r@.len() == 0,
{
    base64::encode(bytes)
}

/// The wire form of a signed envelope: a JSON string literal holding the
/// base64 of the envelope's serialized bytes.
pub open spec fn spec_b64_json_string(bytes: Seq<u8>) -> Seq<char> {
    "\""@ + base64_of(bytes) + "\""@
}

/// Serializes a signed envelope's bytes into the wire form used inside
/// request bodies: a JSON string holding their base64.
pub fn serialize(value: &Vec<u8>) -> (s: String)
    ensures
        s@ == spec_b64_json_string(value@),
{
    let mut s: String = String::from_str("\"");
    let encoded: String = b64_encode(value);
    s.append(encoded.as_str());
    s.append("\"");
    proof {
        assert(s@ =~= spec_b64_json_string(value@));
    }
    s
}

} // verus!
