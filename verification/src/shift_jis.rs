//! Shift_JIS, the game's text encoding, through `encoding_rs`.

use vstd::prelude::*;

verus! {

/// The Shift_JIS bytes that `encoding_rs` gives for a text (characters that
/// Shift_JIS lacks become HTML numeric character references).
pub uninterp spec fn shift_jis_encoded(text: Seq<char>) -> Seq<u8>;

/// The text that `encoding_rs` decodes from Shift_JIS bytes, after BOM
/// sniffing, with malformed sequences replaced by U+FFFD.
pub uninterp spec fn shift_jis_decoded(bytes: Seq<u8>) -> Seq<char>;

/// Whether every character of a text is ASCII.
pub open spec fn ascii_text(text: Seq<char>) -> bool {
    forall|i: int| 0 <= i < text.len() ==> (#[trigger] text[i] as u32) < 0x80
}

/// Whether every byte is ASCII.
pub open spec fn ascii_bytes(bytes: Seq<u8>) -> bool {
    forall|i: int| 0 <= i < bytes.len() ==> #[trigger] bytes[i] < 0x80
}

/// The byte of each character of an ASCII text.
pub open spec fn ascii_codes(text: Seq<char>) -> Seq<u8> {
    text.map_values(|c: char| c as u8)
}

/// The character of each byte of ASCII bytes.
pub open spec fn ascii_chars(bytes: Seq<u8>) -> Seq<char> {
    bytes.map_values(|b: u8| b as char)
}

/// Whether a text is short enough for `encoding_rs` to size and reserve its
/// output buffer without overflowing `usize` or exceeding `isize::MAX`.
pub open spec fn encodable(text: Seq<char>) -> bool {
    text.len() <= usize::MAX / 256
}

/// `encoding_rs::SHIFT_JIS.encode(text)`, the bytes taken out of the
/// returned `Cow`. Trusted to give the bytes named [`shift_jis_encoded`],
/// and for an ASCII text its own bytes (the source returns the input
/// borrowed when every byte is ASCII). The source panics when the size of
/// its output buffer overflows `usize` or a reservation exceeds `isize::MAX`;
/// the length bound leaves both out (at most four bytes per character, at
/// most ten output bytes per input character, and rounding to a power of two
/// stay below `isize::MAX` even where `usize` has 32 bits).
#[verifier::external_body]
pub(crate) fn shift_jis_encode(text: &str) -> (bytes: Vec<u8>)
    requires
        encodable(text@),
    ensures
        bytes@ == shift_jis_encoded(text@),
        ascii_text(text@) ==> bytes@ == ascii_codes(text@),
{
    encoding_rs::SHIFT_JIS.encode(text).0.into_owned()
}

/// `encoding_rs::SHIFT_JIS.decode(bytes)`, the text taken out of the
/// returned `Cow`. Trusted to give the text named [`shift_jis_decoded`],
/// and for ASCII bytes their own characters (no BOM starts with an ASCII
/// byte, and the source borrows ASCII input as it is). The source panics
/// when the size of its output buffer overflows `usize` or exceeds
/// `isize::MAX`; the length bound leaves both out (the buffer it reserves is
/// the smaller of two sizes, the one with replacement being at most three
/// bytes per input byte plus three).
#[verifier::external_body]
pub(crate) fn shift_jis_decode(bytes: &[u8]) -> (text: String)
    requires
        bytes@.len() <= usize::MAX / 8,
    ensures
        text@ == shift_jis_decoded(bytes@),
        ascii_bytes(bytes@) ==> text@ == ascii_chars(bytes@),
{
    encoding_rs::SHIFT_JIS.decode(bytes).0.into_owned()
}

} // verus!
