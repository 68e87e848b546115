//! Unicode helpers: normalization forms, the byte-order mark, comparison
//! keys and the decoding of UTF-8 bytes.

use vstd::prelude::*;
use vstd::utf8::{decode_utf8, valid_utf8};
use crate::error::SourisError;
use crate::text::{all_ascii, ascii_lower, chars_of, concat2, lowercase_of, string_from_chars, to_lowercase};
use unicode_normalization::UnicodeNormalization;

verus! {

/// What `unicode-normalization` gives as the NFC form of a string.
pub uninterp spec fn nfc_of(s: Seq<char>) -> Seq<char>;

/// What `unicode-normalization` gives as the NFD form of a string.
pub uninterp spec fn nfd_of(s: Seq<char>) -> Seq<char>;

/// What `String::from_utf8_lossy` decodes from a byte sequence.
pub uninterp spec fn lossy_utf8(bytes: Seq<u8>) -> Seq<char>;

/// The canonical composition (NFC) of `s`.
///
/// Calls `UnicodeNormalization::nfc` of the `unicode-normalization` crate
/// and collects the characters. The result depends on the string alone and
/// is named `nfc_of`; the crate's decomposition passes 7-bit ASCII through
/// unchanged and its composition table pairs no two ASCII characters, so an
/// ASCII-only string is its own NFC form. Nothing else is stated.
#[verifier::external_body]
pub fn normalize_nfc(s: &str) -> (r: String)
    ensures
        r@ == nfc_of(s@),
        all_ascii(s@) ==> r@ == s@,
{
    s.nfc().collect()
}

/// The canonical decomposition (NFD) of `s`.
///
/// Calls `UnicodeNormalization::nfd` of the `unicode-normalization` crate
/// and collects the characters. The result depends on the string alone and
/// is named `nfd_of`; 7-bit ASCII never decomposes, so an ASCII-only string
/// is its own NFD form. Nothing else is stated.
#[verifier::external_body]
fn nfd_collected(s: &str) -> (r: String)
    ensures
        r@ == nfd_of(s@),
        all_ascii(s@) ==> r@ == s@,
{
    s.nfd().collect()
}

/// The canonical decomposition (NFD) of `s`.
pub fn normalize_nfd(s: &str) -> (r: String)
    ensures
        r@ == nfd_of(s@),
        all_ascii(s@) ==> r@ == s@,
{
    nfd_collected(s)
}

/// The byte-order mark.
pub open spec fn bom() -> char {
    '\u{feff}'
}

/// `s` without one leading byte-order mark.
pub open spec fn without_bom(s: Seq<char>) -> Seq<char> {
    if s.len() > 0 && s[0] == bom() { s.subrange(1, s.len() as int) } else { s }
}

/// `s` without one leading byte-order mark.
pub fn strip_bom(s: &str) -> (r: String)
    ensures
        r@ == without_bom(s@),
{
    let cs = chars_of(s);
    if cs.len() > 0 && cs[0] == '\u{feff}' {
        string_from_chars(&crate::text::slice_chars(&cs, 1, cs.len()))
    } else {
        string_from_chars(&cs)
    }
}

/// The key under which two strings compare equal when they differ only in
/// normalization or case: the lower-cased NFC form. Of an ASCII-only string
/// it is the ASCII lower-casing, so ASCII strings that differ only in case
/// have the same key.
pub fn normalize_for_compare(s: &str) -> (r: String)
    ensures
        r@ == lowercase_of(nfc_of(s@)),
        all_ascii(s@) ==> r@ == ascii_lower(s@),
{
    let n = normalize_nfc(s);
    to_lowercase(n.as_str())
}

/// Decodes UTF-8 bytes.
///
/// Calls `String::from_utf8`, which accepts exactly the well-formed UTF-8
/// sequences and then holds the characters they encode. On malformed bytes
/// it returns the text of std's error; what that text says is not stated.
#[verifier::external_body]
fn decode_utf8_strict(bytes: &[u8]) -> (r: Result<String, String>)
    ensures
        r is Ok <==> valid_utf8(bytes@),
        r matches Ok(s) ==> s@ == decode_utf8(bytes@),
{
    String::from_utf8(bytes.to_vec()).map_err(|e| e.to_string())
}

/// The text that UTF-8 bytes encode; a `UnicodeError` when they are not
/// well-formed UTF-8.
pub fn safe_string(bytes: &[u8]) -> (r: Result<String, SourisError>)
    ensures
        valid_utf8(bytes@) ==> (r matches Ok(s) && s@ == decode_utf8(bytes@)),
        !valid_utf8(bytes@) ==> (r matches Err(SourisError::UnicodeError(m))
            && m@.len() >= 15 && m@.subrange(0, 15) == "Invalid UTF-8: "@),
{
    match decode_utf8_strict(bytes) {
        Ok(s) => Ok(s),
        Err(e) => {
            let m = concat2("Invalid UTF-8: ", e.as_str());
            proof {
                reveal_strlit("Invalid UTF-8: ");
                assert(m@.subrange(0, 15) =~= "Invalid UTF-8: "@);
            }
            Err(SourisError::UnicodeError(m))
        },
    }
}

/// Decodes UTF-8 bytes, replacing malformed sequences.
///
/// Calls `String::from_utf8_lossy`. The result depends on the bytes alone
/// and is named `lossy_utf8`; on well-formed UTF-8 it is the decoded text.
/// What replaces malformed sequences is not stated.
#[verifier::external_body]
fn decode_utf8_lossy(bytes: &[u8]) -> (r: String)
    ensures
        r@ == lossy_utf8(bytes@),
        valid_utf8(bytes@) ==> r@ == decode_utf8(bytes@),
{
    String::from_utf8_lossy(bytes).to_string()
}

/// The text that UTF-8 bytes encode, malformed sequences replaced (see
/// [`lossy_utf8`]).
pub fn safe_string_lossy(bytes: &[u8]) -> (r: String)
    ensures
        r@ == lossy_utf8(bytes@),
        valid_utf8(bytes@) ==> r@ == decode_utf8(bytes@),
{
    decode_utf8_lossy(bytes)
}

} // verus!
