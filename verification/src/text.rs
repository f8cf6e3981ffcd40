use vstd::prelude::*;
use vstd::string::StringSliceAdditionalSpecFns;
use vstd::utf8::{decode_utf8, encode_utf8, valid_utf8};

verus! {

/// The text that `String::from_utf8_lossy` makes of `bytes`: the decoded
/// text, with each invalid UTF-8 sequence replaced by U+FFFD.
pub uninterp spec fn lossy_text(bytes: Seq<u8>) -> Seq<char>;

/// Trusted: calls `String::from_utf8_lossy` on `bytes` and takes the result
/// as an owned `String` (`Cow::into_owned`). The contract claims that the
/// text depends on the bytes alone (it is `lossy_text` of them) and, as the
/// function's documentation says, that bytes which are valid UTF-8 are
/// decoded unchanged. What it makes of invalid sequences is not stated.
#[verifier::external_body]
pub(crate) fn utf8_lossy(bytes: &[u8]) -> (text: String)
    ensures
        text@ == lossy_text(bytes@),
        valid_utf8(bytes@) ==> text@ == decode_utf8(bytes@),
{
    String::from_utf8_lossy(bytes).into_owned()
}

/// The UTF-8 bytes of a text decode back to that text.
pub proof fn lemma_text_bytes_decode(text: Seq<char>)
    ensures
        valid_utf8(encode_utf8(text)),
        decode_utf8(encode_utf8(text)) == text,
{
    vstd::utf8::encode_utf8_valid_utf8(text);
    vstd::utf8::encode_utf8_decode_utf8(text);
}

/// Address text written into a frame reads back as the same text: the bytes
/// of a `str` are valid UTF-8 and decode to it, so the decoding on the
/// reading side gives back exactly what was written.
pub proof fn law_str_bytes_read_back(s: &str)
    ensures
        valid_utf8(s.spec_bytes()),
        decode_utf8(s.spec_bytes()) == s@,
{
    lemma_text_bytes_decode(s@);
}

} // verus!
