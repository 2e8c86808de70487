use vstd::prelude::*;

use vstd::utf8::decode_utf8;
use vstd::utf8::valid_utf8;

verus! {

/// The text that lossy UTF-8 decoding yields for a byte sequence that is not
/// valid UTF-8.  Only the trusted `utf8_lossy` below applies this name;
/// nothing else is assumed about it.
pub uninterp spec fn replaced_text(bytes: Seq<u8>) -> Seq<char>;

/// The text that lossy UTF-8 decoding yields for any byte sequence: the
/// decoding itself where the bytes are valid UTF-8, and the named replacement
/// text otherwise.
pub open spec fn lossy_text(bytes: Seq<u8>) -> Seq<char> {
    if valid_utf8(bytes) {
        decode_utf8(bytes)
    } else {
        replaced_text(bytes)
    }
}

/// Relies on `String::from_utf8_lossy`: valid UTF-8 decodes to the text that
/// encodes it, any other input has its invalid sequences replaced, and every
/// character of the result consumes at least one input byte.
#[verifier::external_body]
pub(crate) fn utf8_lossy(bytes: &Vec<u8>) -> (text: String)
    ensures
        text@ == lossy_text(bytes@),
        !valid_utf8(bytes@) ==> text@ == replaced_text(bytes@),
        text@.len() <= bytes@.len(),
{
    String::from_utf8_lossy(bytes.as_slice()).into_owned()
}

} // verus!
