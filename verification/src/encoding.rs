//! Base64 text of a report's bytes.

use vstd::prelude::*;
use vstd::utf8::encode_utf8;

verus! {

/// The base64 text of `bytes` in the standard alphabet, padded with `=`.
pub uninterp spec fn base64_text(bytes: Seq<u8>) -> Seq<char>;

/// Whether the base64 text of `len` bytes can be allocated: its length,
/// four characters for each three bytes begun, is at most `isize::MAX`.
pub open spec fn fits_base64(len: nat) -> bool {
    len / 3 * 4 + 4 <= isize::MAX
}

/// `Engine::encode` of the crate base64, on its engine `STANDARD`. The
/// call panics where the length of the result overflows `usize`, and the
/// allocation of the result where that length exceeds `isize::MAX`;
/// `requires` rules both out. The contract only names the result.
#[verifier::external_body]
pub(crate) fn base64_of(bytes: &[u8]) -> (out: String)
    requires
        fits_base64(bytes@.len()),
    ensures
        out@ == base64_text(bytes@),
{
    base64::Engine::encode(&base64::engine::general_purpose::STANDARD, bytes)
}

/// The base64 text of the UTF-8 bytes of `content`; `None` where that text
/// would be too long to be allocated.
pub fn encode_report(content: &str) -> (r: Option<String>)
    ensures
        r is Some <==> fits_base64(encode_utf8(content@).len()),
        r matches Some(text) ==> text@ == base64_text(encode_utf8(content@)),
{
    let bytes = content.as_bytes();
    if bytes.len() / 3 <= (isize::MAX as usize - 4) / 4 {
        Some(base64_of(bytes))
    } else {
        None
    }
}

} // verus!
