use vstd::prelude::*;

verus! {

/// The text that lossy UTF-8 decoding gives for `bytes`: valid sequences
/// decode, invalid ones become replacement characters. The result depends on
/// the bytes alone.
pub uninterp spec fn utf8_lossy_of(bytes: Seq<u8>) -> Seq<char>;

/// Relies on String::from_utf8_lossy: the result is a function of the bytes
/// alone, and empty input gives the empty string.
#[verifier::external_body]
fn utf8_lossy(bytes: &Vec<u8>) -> (r: String)
    ensures
        r@ == utf8_lossy_of(bytes@),
        bytes@.len() == 0 ==> r@.len() == 0,
{
    String::from_utf8_lossy(bytes).into_owned()
}

/// Turn loaded bytes into text, decoding them as UTF-8 and replacing invalid
/// sequences: the compute step behind the string-loading convenience helper.
pub fn bytes_to_string(bytes: &Vec<u8>) -> (r: String)
    ensures
        r@ == utf8_lossy_of(bytes@),
        bytes@.len() == 0 ==> r@.len() == 0,
{
    utf8_lossy(bytes)
}

} // verus!
