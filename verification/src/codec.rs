use vstd::prelude::*;

use base64::Engine as _;

verus! {

/// The standard base64 rendering of the UTF-8 bytes of the text `s`: a
/// function of `s` alone, the same in every process and on every machine.
pub uninterp spec fn b64_of(s: Seq<char>) -> Seq<char>;

/// Relies on base64's `STANDARD` engine, `Engine::encode`: encodes the
/// UTF-8 bytes of `s` as standard base64 with padding, a pure function of
/// the input.
#[verifier::external_body]
pub(crate) fn encode_payload(s: &str) -> (r: String)
    ensures
        r@ == b64_of(s@),
        s@.len() == 0 ==> r@.len() == 0,
{
    base64::engine::general_purpose::STANDARD.encode(s.as_bytes())
}

/// Relies on base64's `STANDARD` engine, `Engine::decode`, and
/// `String::from_utf8`: decoding inverts encoding, so an input that is the
/// standard encoding of some text decodes back to exactly that text.
#[verifier::external_body]
pub(crate) fn decode_payload(s: &str) -> (r: Option<String>)
    ensures
        forall|p: Seq<char>| s@ == b64_of(p) ==> r is Some && r->0@ == p,
{
    match base64::engine::general_purpose::STANDARD.decode(s.as_bytes()) {
        Ok(bytes) => String::from_utf8(bytes).ok(),
        Err(_) => None,
    }
}

/// Payload round-trip: decoding the base64 argument that would be handed
/// to the child reproduces the original payload exactly, whatever spaces,
/// quotes or newlines it holds.
pub fn payload_round_trip(payload: &String) -> (r: String)
    ensures
        r@ == payload@,
{
    let encoded = encode_payload(payload.as_str());
    let decoded = decode_payload(encoded.as_str());
    match decoded {
        Some(d) => d,
        None => {
            proof {
                assert(encoded@ == b64_of(payload@));
                assert(false);
            }
            String::new()
        },
    }
}

/// Encodes a payload for the child's command line; exposed so that a host
/// or a test can reproduce the exact argument the invoker builds.
pub fn encoded_payload(payload: &String) -> (r: String)
    ensures
        r@ == b64_of(payload@),
{
    encode_payload(payload.as_str())
}

/// Decodes what `encoded_payload` produced; `None` only on text that is
/// not a standard base64 encoding of any payload.
pub fn decoded_payload(encoded: &String) -> (r: Option<String>)
    ensures
        forall|p: Seq<char>| encoded@ == b64_of(p) ==> (r matches Some(d) && d@ == p),
{
    decode_payload(encoded.as_str())
}

} // verus!
