//! Byte arrays that travel as standard base64 text.
use vstd::prelude::*;

verus! {

/// The standard (padded) base64 text of a byte string.
pub uninterp spec fn base64_of(bytes: Seq<u8>) -> Seq<char>;

/// Relies on `base64::encode` (standard alphabet, with padding): the text
/// depends on the bytes alone.
#[verifier::external_body]
fn encode_standard(bytes: &[u8]) -> (r: String)
    ensures
        r@ == base64_of(bytes@),
{
    #[allow(deprecated)]
    base64::encode(bytes)
}

/// Relies on `base64::decode` with the standard engine, which only accepts
/// canonical padded text: whatever it accepts encodes back to the same text,
/// and the encoding of any byte string decodes to that byte string.
#[verifier::external_body]
fn decode_standard(text: &str) -> (r: Option<Vec<u8>>)
    ensures
        r matches Some(v) ==> base64_of(v@) == text@,
        r matches Some(v) ==> forall|b: Seq<u8>| #[trigger] base64_of(b) == text@ ==> v@ == b,
        r is None ==> forall|b: Seq<u8>| #[trigger] base64_of(b) != text@,
{
    #[allow(deprecated)]
    base64::decode(text).ok()
}

/// A byte array, written as standard base64 text.
#[derive(Debug, Clone, PartialEq, PartialOrd)]
pub struct ByteArray(pub Vec<u8>);

/// The text is not valid standard base64.
#[derive(Debug, Clone, Copy, PartialEq, Eq)]
pub struct DecodeError;

impl ByteArray {
    /// The base64 text of the bytes.
    pub fn to_string(&self) -> (r: String)
        ensures
            r@ == base64_of(self.0@),
    {
        encode_standard(self.0.as_slice())
    }

    /// Reads base64 text back into bytes: it succeeds exactly on the base64
    /// text of some byte string, and then gives back that byte string.
    pub fn from_base64(s: &str) -> (r: Result<ByteArray, DecodeError>)
        ensures
            r matches Ok(a) ==> base64_of(a.0@) == s@,
            r is Err <==> forall|b: Seq<u8>| #[trigger] base64_of(b) != s@,
            forall|b: Seq<u8>| #[trigger] base64_of(b) == s@ ==> (r matches Ok(a) && a.0@ == b),
    {
        match decode_standard(s) {
            Some(v) => Ok(ByteArray(v)),
            None => Err(DecodeError),
        }
    }
}

impl core::str::FromStr for ByteArray {
    type Err = DecodeError;

    fn from_str(s: &str) -> Result<ByteArray, DecodeError> {
        ByteArray::from_base64(s)
    }
}

} // verus!
