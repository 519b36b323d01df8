//! Conversions between bytes and text, and the character classes that the
//! header and parameter codecs share.
use vstd::prelude::*;
use vstd::utf8::*;

verus! {

/// Relies on `std::str::from_utf8`: it accepts exactly the valid UTF-8 byte
/// strings and then views them as text.
#[verifier::external_body]
pub(crate) fn str_from_utf8(bytes: &[u8]) -> (r: Option<&str>)
    ensures
        r is Some <==> valid_utf8(bytes@),
        r matches Some(s) ==> s@ == decode_utf8(bytes@),
{
    std::str::from_utf8(bytes).ok()
}

/// A byte that may stand in a header value that reads as text: visible ASCII
/// or a horizontal tab.
pub open spec fn is_visible_ascii(b: u8) -> bool {
    (32 <= b && b < 127) || b == 9
}

/// Every byte is visible ASCII or a tab.
pub open spec fn all_visible_ascii(bytes: Seq<u8>) -> bool {
    forall|i: int| 0 <= i < bytes.len() ==> is_visible_ascii(#[trigger] bytes[i])
}

/// Tests that every byte is visible ASCII or a tab.
pub fn check_visible_ascii(bytes: &[u8]) -> (r: bool)
    ensures
        r == all_visible_ascii(bytes@),
{
    let mut i: usize = 0;
    while i < bytes.len()
        invariant
            0 <= i <= bytes@.len(),
            forall|j: int| 0 <= j < i ==> is_visible_ascii(#[trigger] bytes@[j]),
        decreases bytes@.len() - i,
    {
        if !((32 <= bytes[i] && bytes[i] < 127) || bytes[i] == 9) {
            return false;
        }
        i = i + 1;
    }
    true
}

/// Visible ASCII bytes are valid UTF-8.
pub proof fn lemma_visible_ascii_valid_utf8(bytes: Seq<u8>)
    requires
        all_visible_ascii(bytes),
    ensures
        valid_utf8(bytes),
    decreases bytes.len(),
{
    reveal_with_fuel(valid_utf8, 2);
    if bytes.len() > 0 {
        assert(is_visible_ascii(bytes[0]));
        assert(is_leading_byte_width_1(bytes[0]));
        lemma_visible_ascii_valid_utf8(bytes.drop_first());
        assert(pop_first_scalar(bytes) =~= bytes.drop_first());
    }
}

} // verus!
