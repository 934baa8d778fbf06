//! Text from bytes.
use vstd::prelude::*;

verus! {

/// Why bytes are not UTF-8.
#[derive(Debug, Clone, Copy, PartialEq, Eq, Structural)]
pub struct Utf8Error {
    /// How many bytes from the beginning on are UTF-8.
    pub valid_up_to: usize,
    /// How many bytes after them are in error, unless the bytes end too early.
    pub error_len: Option<usize>,
}

/// Whether `n` is the length of the longest beginning of `bytes` that is UTF-8.
pub open spec fn is_valid_up_to(bytes: Seq<u8>, n: int) -> bool {
    &&& 0 <= n < bytes.len()
    &&& vstd::utf8::valid_utf8(bytes.take(n))
    &&& forall|m: int| n < m <= bytes.len() ==> !vstd::utf8::valid_utf8(#[trigger] bytes.take(m))
}

/// The text that `String::from_utf8_lossy` makes of `bytes`, with replacement characters
/// for what is not UTF-8.
pub uninterp spec fn lossy_text(bytes: Seq<u8>) -> Seq<char>;

/// The length that `error_len` gives of the error that `core::str::from_utf8` reports for
/// `bytes`.
pub uninterp spec fn utf8_error_len(bytes: Seq<u8>) -> Option<usize>;

/// Whether `len` can be the length of what is in error after the first `n` bytes: some of
/// the bytes that follow, or, where the bytes end too early, `None` with one to three left.
pub open spec fn is_error_len(bytes: Seq<u8>, n: int, len: Option<usize>) -> bool {
    match len {
        Some(k) => 1 <= k <= bytes.len() - n,
        None => 1 <= bytes.len() - n <= 3,
    }
}

/// Calls `core::str::from_utf8`: the bytes are read as UTF-8, and there is an error
/// exactly where they are not valid as such. The error gives the length of the longest
/// beginning that is valid, and that of the sequence in error after it, which depends on
/// the bytes alone.
#[verifier::external_body]
fn from_utf8(bytes: &[u8]) -> (r: Result<String, (usize, Option<usize>)>)
    ensures
        r is Ok <==> vstd::utf8::valid_utf8(bytes@),
        r matches Ok(text) ==> text@ == vstd::utf8::decode_utf8(bytes@),
        r matches Err((n, len)) ==> is_valid_up_to(bytes@, n as int) && is_error_len(
            bytes@,
            n as int,
            len,
        ) && len == utf8_error_len(bytes@),
{
    core::str::from_utf8(bytes)
        .map(|text| text.to_owned())
        .map_err(|e| (e.valid_up_to(), e.error_len()))
}

/// The text that the bytes encode.
pub fn decode(bytes: &[u8]) -> (r: Result<String, Utf8Error>)
    ensures
        r is Ok <==> vstd::utf8::valid_utf8(bytes@),
        r matches Ok(text) ==> text@ == vstd::utf8::decode_utf8(bytes@),
        r matches Err(e) ==> is_valid_up_to(bytes@, e.valid_up_to as int) && is_error_len(
            bytes@,
            e.valid_up_to as int,
            e.error_len,
        ) && e.error_len == utf8_error_len(bytes@),
{
    match from_utf8(bytes) {
        Ok(text) => Ok(text),
        Err((valid_up_to, error_len)) => Err(Utf8Error { valid_up_to, error_len }),
    }
}

/// Calls `String::from_utf8_lossy`, whose result depends on the bytes alone: where they
/// are valid UTF-8, it is the text that they encode.
#[verifier::external_body]
pub(crate) fn utf8_lossy(bytes: &[u8]) -> (r: String)
    ensures
        r@ == lossy_text(bytes@),
        vstd::utf8::valid_utf8(bytes@) ==> r@ == vstd::utf8::decode_utf8(bytes@),
{
    String::from_utf8_lossy(bytes).into_owned()
}

} // verus!
