//! Decoding the captured output bytes as text.
//!
//! The conversion program's standard output is drained as raw bytes; the
//! bridge returns it to the caller as a string, so the drained bytes must
//! decode as UTF-8.  Bytes that do not decode are reported as a
//! `Decoding` failure rather than returned mangled.

use vstd::prelude::*;

verus! {

/// What decoding a byte sequence as UTF-8 yields: `Some` of the decoded
/// characters exactly when the bytes are valid UTF-8, `None` otherwise.
/// The decoding depends on the bytes alone.
pub uninterp spec fn utf8_decode(bytes: Seq<u8>) -> Option<Seq<char>>;

/// Relies on `String::from_utf8` of std: it returns `Ok` exactly when the
/// bytes are valid UTF-8, and the returned string then holds their
/// decoding; `utf8_decode` names that decoding.
#[verifier::external_body]
pub(crate) fn decode_output(bytes: &Vec<u8>) -> (r: Option<String>)
    ensures
        r is Some <==> utf8_decode(bytes@) is Some,
        r matches Some(s) ==> Some(s@) == utf8_decode(bytes@),
{
    String::from_utf8(bytes.clone()).ok()
}

} // verus!
