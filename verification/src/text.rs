use vstd::prelude::*;

verus! {

/// What cesu8's strict decode of Java's modified UTF-8 yields on the
/// given bytes: the decoded text, or nothing when the bytes are not
/// valid in that scheme. The outcome depends on the bytes alone.
pub uninterp spec fn cesu8_decoded(bytes: Seq<u8>) -> Option<Seq<char>>;

/// What the lossy standard UTF-8 decode yields on the given bytes,
/// ill-formed ranges replaced by the replacement character. The outcome
/// depends on the bytes alone.
pub uninterp spec fn utf8_lossy(bytes: Seq<u8>) -> Seq<char>;

/// The text carried by a string entry: the strict modified scheme when
/// it succeeds, else the lossy standard decode. This never fails, so a
/// malformed string entry cannot abort a table decode.
pub open spec fn decoded_text(bytes: Seq<u8>) -> Seq<char> {
    match cesu8_decoded(bytes) {
        Some(t) => t,
        None => utf8_lossy(bytes),
    }
}

/// Relies on cesu8::from_java_cesu8: decodes Java's modified UTF-8
/// (taking well-formed standard UTF-8 as it stands), a pure function of
/// the bytes that fails on input valid in neither form.
#[verifier::external_body]
fn decode_java_cesu8(bytes: &Vec<u8>) -> (r: Option<String>)
    ensures
        match cesu8_decoded(bytes@) {
            Some(t) => r matches Some(s) && s@ == t,
            None => r is None,
        },
{
    match cesu8::from_java_cesu8(bytes.as_slice()) {
        Ok(s) => Some(s.to_string()),
        Err(_) => None,
    }
}

/// Relies on String::from_utf8_lossy: decodes UTF-8 with replacement
/// characters for ill-formed ranges, a pure function of the bytes.
#[verifier::external_body]
fn decode_utf8_lossy(bytes: &Vec<u8>) -> (r: String)
    ensures
        r@ == utf8_lossy(bytes@),
{
    String::from_utf8_lossy(bytes.as_slice()).to_string()
}

/// Decodes the byte payload of a string entry, trying the strict
/// modified scheme first and falling back to the lossy standard decode.
pub fn decode_text(bytes: &Vec<u8>) -> (r: String)
    ensures
        r@ == decoded_text(bytes@),
{
    match decode_java_cesu8(bytes) {
        Some(s) => s,
        None => decode_utf8_lossy(bytes),
    }
}

} // verus!
