//! The span id header and conversions of header values.
use crate::serde::de::{comma_split, lemma_comma_split_nonempty, split_commas};
use crate::serde::number::{
    decimal_text, i128_text, parse_i128, parse_u128, signed_decimal_text, signed_literal, u128_text,
    unsigned_literal,
};
use crate::text::{
    all_visible_ascii, check_visible_ascii, is_visible_ascii, lemma_visible_ascii_valid_utf8,
    str_from_utf8,
};
use vstd::prelude::*;
use vstd::slice::slice_subrange;
use vstd::string::*;
use vstd::utf8::*;

verus! {

/// The name of the header that carries a request's span id.
pub const X_SPAN_ID: &'static str = "X-Span-ID";

/// A lowercase hexadecimal digit.
pub open spec fn is_lower_hex(c: char) -> bool {
    ('0' <= c && c <= '9') || ('a' <= c && c <= 'f')
}

/// The hyphenated, lowercase text of a random (version 4) UUID:
/// `xxxxxxxx-xxxx-4xxx-xxxx-xxxxxxxxxxxx`.
pub open spec fn is_v4_uuid_text(s: Seq<char>) -> bool {
    &&& s.len() == 36
    &&& forall|i: int|
        0 <= i < 36 ==> if i == 8 || i == 13 || i == 18 || i == 23 {
            s[i] == '-'
        } else {
            is_lower_hex(#[trigger] s[i])
        }
    &&& s[14] == '4'
}

/// Relies on `uuid::Uuid::new_v4` and its `Display`, which writes the
/// hyphenated lowercase form; the value itself is random.
#[verifier::external_body]
fn random_uuid_text() -> (r: String)
    ensures
        is_v4_uuid_text(r@),
{
    uuid::Uuid::new_v4().to_string()
}

/// The span id of a request, used to correlate the logs of one logical
/// request across services.
#[derive(Debug, Clone)]
pub struct XSpanIdString(pub String);

impl Default for XSpanIdString {
    /// A freshly generated random id.
    fn default() -> (r: XSpanIdString)
        ensures
            is_v4_uuid_text(r.0@),
    {
        XSpanIdString(random_uuid_text())
    }
}

/// The text of a header value, where there is one and it reads as text.
pub open spec fn header_text(header: Option<&[u8]>) -> Option<Seq<char>> {
    match header {
        Some(b) => if all_visible_ascii(b@) {
            Some(decode_utf8(b@))
        } else {
            None
        },
        None => None,
    }
}

impl XSpanIdString {
    /// The span id that a request's `X-Span-ID` header value carries, if it
    /// has one that reads as text, else a freshly generated one.
    pub fn get_or_generate(header: Option<&[u8]>) -> (r: XSpanIdString)
        ensures
            header_text(header) matches Some(t) ==> r.0@ == t,
            header_text(header) is None ==> is_v4_uuid_text(r.0@),
    {
        match header {
            Some(b) => {
                if check_visible_ascii(b) {
                    proof {
                        lemma_visible_ascii_valid_utf8(b@);
                    }
                    match str_from_utf8(b) {
                        Some(s) => XSpanIdString(s.to_owned()),
                        None => XSpanIdString::default(),
                    }
                } else {
                    XSpanIdString::default()
                }
            },
            None => XSpanIdString::default(),
        }
    }

    /// The id as text.
    pub fn to_string(&self) -> (r: String)
        ensures
            r@ == self.0@,
    {
        self.0.clone()
    }
}

/// A value that converts to and from the text of a header value.
#[derive(Debug, Clone)]
pub struct IntoHeaderValue<T>(pub T);

/// Whitespace that may stand in a header value: a space or a tab.
pub open spec fn is_header_space(b: u8) -> bool {
    b == 32 || b == 9
}

/// The bytes without the whitespace they start with.
pub open spec fn trim_start_bytes(b: Seq<u8>) -> Seq<u8>
    decreases b.len(),
{
    if b.len() > 0 && is_header_space(b[0]) {
        trim_start_bytes(b.drop_first())
    } else {
        b
    }
}

/// The bytes without the whitespace they end with.
pub open spec fn trim_end_bytes(b: Seq<u8>) -> Seq<u8>
    decreases b.len(),
{
    if b.len() > 0 && is_header_space(b.last()) {
        trim_end_bytes(b.drop_last())
    } else {
        b
    }
}

/// The bytes without whitespace at either end.
pub open spec fn trimmed(b: Seq<u8>) -> Seq<u8> {
    trim_end_bytes(trim_start_bytes(b))
}

/// The items of a comma-separated header list: each piece trimmed, empty
/// ones left out.
pub open spec fn list_items(pieces: Seq<Seq<u8>>) -> Seq<Seq<char>>
    decreases pieces.len(),
{
    if pieces.len() == 0 {
        Seq::empty()
    } else {
        let rest = list_items(pieces.drop_last());
        let t = trimmed(pieces.last());
        if t.len() == 0 {
            rest
        } else {
            rest.push(decode_utf8(t))
        }
    }
}

/// Items joined with `, `.
pub open spec fn list_text(items: Seq<Seq<char>>) -> Seq<char>
    decreases items.len(),
{
    if items.len() == 0 {
        Seq::empty()
    } else if items.len() == 1 {
        items[0]
    } else {
        list_text(items.drop_last()) + seq![',', ' '] + items.last()
    }
}

proof fn lemma_trimmed_within(b: Seq<u8>)
    ensures
        exists|i: int, j: int| 0 <= i <= j <= b.len() && trimmed(b) == b.subrange(i, j),
    decreases b.len(),
{
    lemma_trim_start_within(b);
    let i = choose|i: int| 0 <= i <= b.len() && trim_start_bytes(b) == b.subrange(i, b.len() as int);
    lemma_trim_end_within(trim_start_bytes(b));
    let j = choose|j: int|
        0 <= j <= trim_start_bytes(b).len() && trim_end_bytes(trim_start_bytes(b))
            == trim_start_bytes(b).subrange(0, j);
    assert(trimmed(b) =~= b.subrange(i, i + j));
}

proof fn lemma_trim_start_within(b: Seq<u8>)
    ensures
        exists|i: int| 0 <= i <= b.len() && trim_start_bytes(b) == b.subrange(i, b.len() as int),
    decreases b.len(),
{
    if b.len() > 0 && is_header_space(b[0]) {
        lemma_trim_start_within(b.drop_first());
        let i = choose|i: int|
            0 <= i <= b.drop_first().len() && trim_start_bytes(b.drop_first()) == b.drop_first().subrange(
                i,
                b.drop_first().len() as int,
            );
        assert(b.drop_first().subrange(i, b.drop_first().len() as int) =~= b.subrange(i + 1, b.len() as int));
    } else {
        assert(b.subrange(0, b.len() as int) =~= b);
    }
}

proof fn lemma_trim_end_within(b: Seq<u8>)
    ensures
        exists|j: int| 0 <= j <= b.len() && trim_end_bytes(b) == b.subrange(0, j),
    decreases b.len(),
{
    if b.len() > 0 && is_header_space(b.last()) {
        lemma_trim_end_within(b.drop_last());
        let j = choose|j: int|
            0 <= j <= b.drop_last().len() && trim_end_bytes(b.drop_last()) == b.drop_last().subrange(0, j);
        assert(b.drop_last().subrange(0, j) =~= b.subrange(0, j));
    } else {
        assert(b.subrange(0, b.len() as int) =~= b);
    }
}

proof fn lemma_split_visible(b: Seq<u8>)
    requires
        all_visible_ascii(b),
    ensures
        forall|k: int| 0 <= k < comma_split(b).len() ==> all_visible_ascii(#[trigger] comma_split(b)[k]),
    decreases b.len(),
{
    if b.len() > 0 {
        let rest = comma_split(b.drop_last());
        lemma_split_visible(b.drop_last());
        lemma_comma_split_nonempty(b.drop_last());
        assert(is_visible_ascii(b[b.len() - 1]));
        if b.last() != 44 {
            let last = rest.last().push(b.last());
            assert(all_visible_ascii(rest[rest.len() - 1]));
            assert(all_visible_ascii(last));
            assert forall|k: int| 0 <= k < comma_split(b).len() implies all_visible_ascii(
                #[trigger] comma_split(b)[k],
            ) by {
                if k < rest.len() - 1 {
                    assert(comma_split(b)[k] == rest[k]);
                }
            }
        } else {
            assert forall|k: int| 0 <= k < comma_split(b).len() implies all_visible_ascii(
                #[trigger] comma_split(b)[k],
            ) by {
                if k < rest.len() {
                    assert(comma_split(b)[k] == rest[k]);
                }
            }
        }
    }
}

/// The bytes without whitespace at either end.
fn trim_bytes(b: &[u8]) -> (r: &[u8])
    ensures
        r@ == trimmed(b@),
{
    let n = b.len();
    let mut s: usize = 0;
    assert(b@.subrange(0, n as int) =~= b@);
    while s < n && (b[s] == 32 || b[s] == 9)
        invariant
            n == b@.len(),
            s <= n,
            trim_start_bytes(b@) == trim_start_bytes(b@.subrange(s as int, n as int)),
        decreases n - s,
    {
        assert(b@.subrange(s as int, n as int).drop_first() =~= b@.subrange(s + 1, n as int));
        s = s + 1;
    }
    assert(trim_start_bytes(b@) == b@.subrange(s as int, n as int));
    let ghost start = b@.subrange(s as int, n as int);
    let mut e: usize = n;
    while e > s && (b[e - 1] == 32 || b[e - 1] == 9)
        invariant
            n == b@.len(),
            s <= e <= n,
            start == b@.subrange(s as int, n as int),
            trim_end_bytes(start) == trim_end_bytes(b@.subrange(s as int, e as int)),
        decreases e - s,
    {
        assert(b@.subrange(s as int, e as int).drop_last() =~= b@.subrange(s as int, e - 1));
        e = e - 1;
    }
    assert(trim_end_bytes(start) == b@.subrange(s as int, e as int));
    slice_subrange(b, s, e)
}

impl IntoHeaderValue<String> {
    /// The text of a header value; the value must read as text.
    pub fn from_header(value: &[u8]) -> (r: IntoHeaderValue<String>)
        requires
            all_visible_ascii(value@),
        ensures
            r.0@ == decode_utf8(value@),
    {
        proof {
            lemma_visible_ascii_valid_utf8(value@);
        }
        let s = str_from_utf8(value).unwrap();
        IntoHeaderValue(s.to_owned())
    }

    /// The text to write as a header value.
    pub fn to_header_text(&self) -> (r: String)
        ensures
            r@ == self.0@,
    {
        self.0.clone()
    }
}

impl IntoHeaderValue<Vec<String>> {
    /// The items of a comma-separated header list, trimmed, leaving out empty
    /// ones; the value must read as text.
    pub fn from_header(value: &[u8]) -> (r: IntoHeaderValue<Vec<String>>)
        requires
            all_visible_ascii(value@),
        ensures
            r.0@.map_values(|s: String| s@) == list_items(comma_split(value@)),
    {
        let pieces = split_commas(value);
        proof {
            lemma_split_visible(value@);
        }
        let ghost ps = pieces@.map_values(|x: &[u8]| x@);
        let mut items: Vec<String> = Vec::new();
        let mut i: usize = 0;
        while i < pieces.len()
            invariant
                i <= pieces@.len(),
                ps == pieces@.map_values(|x: &[u8]| x@),
                ps == comma_split(value@),
                all_visible_ascii(value@),
                forall|k: int| 0 <= k < ps.len() ==> all_visible_ascii(#[trigger] ps[k]),
                items@.map_values(|s: String| s@) == list_items(ps.subrange(0, i as int)),
            decreases pieces@.len() - i,
        {
            let t = trim_bytes(pieces[i]);
            proof {
                assert(ps.subrange(0, i + 1).drop_last() =~= ps.subrange(0, i as int));
                assert(ps.subrange(0, i + 1).last() == ps[i as int]);
                lemma_trimmed_within(ps[i as int]);
                assert(all_visible_ascii(t@));
                lemma_visible_ascii_valid_utf8(t@);
            }
            if t.len() > 0 {
                let s = str_from_utf8(t).unwrap();
                let ghost before = items@.map_values(|s: String| s@);
                items.push(s.to_owned());
                assert(items@.map_values(|s: String| s@) =~= before.push(decode_utf8(t@)));
            }
            i = i + 1;
        }
        assert(ps.subrange(0, ps.len() as int) =~= ps);
        IntoHeaderValue(items)
    }

    /// The items joined with `, `, to write as a header value.
    pub fn to_header_text(&self) -> (r: String)
        ensures
            r@ == list_text(self.0@.map_values(|s: String| s@)),
    {
        let ghost all = self.0@.map_values(|s: String| s@);
        let mut out = String::new();
        let mut i: usize = 0;
        while i < self.0.len()
            invariant
                i <= self.0@.len(),
                all == self.0@.map_values(|s: String| s@),
                out@ == list_text(all.subrange(0, i as int)),
            decreases self.0@.len() - i,
        {
            assert(all.subrange(0, i + 1).drop_last() =~= all.subrange(0, i as int));
            if i > 0 {
                out.append(", ");
                proof {
                    reveal_strlit(", ");
                }
            }
            out.append(self.0[i].as_str());
            i = i + 1;
        }
        assert(all.subrange(0, all.len() as int) =~= all);
        out
    }
}

/// The integer that a header value writes in decimal, with an optional
/// sign, if it is UTF-8 and the value lies within the bounds.
pub open spec fn int_in_header(value: Seq<u8>, lo: int, hi: int) -> Option<int> {
    if !valid_utf8(value) {
        None
    } else {
        match signed_literal(decode_utf8(value)) {
            Some(v) => if lo <= v <= hi {
                Some(v)
            } else {
                None
            },
            None => None,
        }
    }
}

/// The natural number that a header value writes in decimal, with an
/// optional `+`, if it is UTF-8 and the value is at most the bound.
pub open spec fn uint_in_header(value: Seq<u8>, hi: int) -> Option<int> {
    if !valid_utf8(value) {
        None
    } else {
        match unsigned_literal(decode_utf8(value)) {
            Some(v) => if v <= hi {
                Some(v)
            } else {
                None
            },
            None => None,
        }
    }
}

impl IntoHeaderValue<u64> {
    /// The integer that a header value writes in decimal, if it is one and
    /// fits.
    pub fn from_header(value: &[u8]) -> (r: Option<IntoHeaderValue<u64>>)
        ensures
            r is None <==> uint_in_header(value@, u64::MAX as int) is None,
            r matches Some(h) ==> uint_in_header(value@, u64::MAX as int) == Some(h.0 as int),
    {
        let s = match str_from_utf8(value) {
            Some(s) => s,
            None => {
                return None;
            },
        };
        match parse_u128(s) {
            Some(v) => if v <= u64::MAX as u128 {
                Some(IntoHeaderValue(v as u64))
            } else {
                None
            },
            None => None,
        }
    }

    /// The decimal text to write as a header value.
    pub fn to_header_text(&self) -> (r: String)
        ensures
            r@ == decimal_text(self.0 as nat),
    {
        u128_text(self.0 as u128)
    }
}

impl IntoHeaderValue<i64> {
    /// The integer that a header value writes in decimal, if it is one and
    /// fits.
    pub fn from_header(value: &[u8]) -> (r: Option<IntoHeaderValue<i64>>)
        ensures
            r is None <==> int_in_header(value@, i64::MIN as int, i64::MAX as int) is None,
            r matches Some(h) ==> int_in_header(value@, i64::MIN as int, i64::MAX as int) == Some(h.0 as int),
    {
        let s = match str_from_utf8(value) {
            Some(s) => s,
            None => {
                return None;
            },
        };
        match parse_i128(s) {
            Some(v) => if i64::MIN as i128 <= v && v <= i64::MAX as i128 {
                Some(IntoHeaderValue(v as i64))
            } else {
                None
            },
            None => None,
        }
    }

    /// The decimal text to write as a header value.
    pub fn to_header_text(&self) -> (r: String)
        ensures
            r@ == signed_decimal_text(self.0 as int),
    {
        i128_text(self.0 as i128)
    }
}

impl IntoHeaderValue<i16> {
    /// The integer that a header value writes in decimal, if it is one and
    /// fits.
    pub fn from_header(value: &[u8]) -> (r: Option<IntoHeaderValue<i16>>)
        ensures
            r is None <==> int_in_header(value@, i16::MIN as int, i16::MAX as int) is None,
            r matches Some(h) ==> int_in_header(value@, i16::MIN as int, i16::MAX as int) == Some(h.0 as int),
    {
        let s = match str_from_utf8(value) {
            Some(s) => s,
            None => {
                return None;
            },
        };
        match parse_i128(s) {
            Some(v) => if i16::MIN as i128 <= v && v <= i16::MAX as i128 {
                Some(IntoHeaderValue(v as i16))
            } else {
                None
            },
            None => None,
        }
    }

    /// The decimal text to write as a header value.
    pub fn to_header_text(&self) -> (r: String)
        ensures
            r@ == signed_decimal_text(self.0 as int),
    {
        i128_text(self.0 as i128)
    }
}

impl IntoHeaderValue<u16> {
    /// The integer that a header value writes in decimal, if it is one and
    /// fits.
    pub fn from_header(value: &[u8]) -> (r: Option<IntoHeaderValue<u16>>)
        ensures
            r is None <==> uint_in_header(value@, u16::MAX as int) is None,
            r matches Some(h) ==> uint_in_header(value@, u16::MAX as int) == Some(h.0 as int),
    {
        let s = match str_from_utf8(value) {
            Some(s) => s,
            None => {
                return None;
            },
        };
        match parse_u128(s) {
            Some(v) => if v <= u16::MAX as u128 {
                Some(IntoHeaderValue(v as u16))
            } else {
                None
            },
            None => None,
        }
    }

    /// The decimal text to write as a header value.
    pub fn to_header_text(&self) -> (r: String)
        ensures
            r@ == decimal_text(self.0 as nat),
    {
        u128_text(self.0 as u128)
    }
}

impl IntoHeaderValue<u32> {
    /// The integer that a header value writes in decimal, if it is one and
    /// fits.
    pub fn from_header(value: &[u8]) -> (r: Option<IntoHeaderValue<u32>>)
        ensures
            r is None <==> uint_in_header(value@, u32::MAX as int) is None,
            r matches Some(h) ==> uint_in_header(value@, u32::MAX as int) == Some(h.0 as int),
    {
        let s = match str_from_utf8(value) {
            Some(s) => s,
            None => {
                return None;
            },
        };
        match parse_u128(s) {
            Some(v) => if v <= u32::MAX as u128 {
                Some(IntoHeaderValue(v as u32))
            } else {
                None
            },
            None => None,
        }
    }

    /// The decimal text to write as a header value.
    pub fn to_header_text(&self) -> (r: String)
        ensures
            r@ == decimal_text(self.0 as nat),
    {
        u128_text(self.0 as u128)
    }
}

impl IntoHeaderValue<usize> {
    /// The integer that a header value writes in decimal, if it is one and
    /// fits.
    pub fn from_header(value: &[u8]) -> (r: Option<IntoHeaderValue<usize>>)
        ensures
            r is None <==> uint_in_header(value@, usize::MAX as int) is None,
            r matches Some(h) ==> uint_in_header(value@, usize::MAX as int) == Some(h.0 as int),
    {
        let s = match str_from_utf8(value) {
            Some(s) => s,
            None => {
                return None;
            },
        };
        match parse_u128(s) {
            Some(v) => if v <= usize::MAX as u128 {
                Some(IntoHeaderValue(v as usize))
            } else {
                None
            },
            None => None,
        }
    }

    /// The decimal text to write as a header value.
    pub fn to_header_text(&self) -> (r: String)
        ensures
            r@ == decimal_text(self.0 as nat),
    {
        u128_text(self.0 as u128)
    }
}

impl IntoHeaderValue<isize> {
    /// The integer that a header value writes in decimal, if it is one and
    /// fits.
    pub fn from_header(value: &[u8]) -> (r: Option<IntoHeaderValue<isize>>)
        ensures
            r is None <==> int_in_header(value@, isize::MIN as int, isize::MAX as int) is None,
            r matches Some(h) ==> int_in_header(value@, isize::MIN as int, isize::MAX as int) == Some(h.0 as int),
    {
        let s = match str_from_utf8(value) {
            Some(s) => s,
            None => {
                return None;
            },
        };
        match parse_i128(s) {
            Some(v) => if isize::MIN as i128 <= v && v <= isize::MAX as i128 {
                Some(IntoHeaderValue(v as isize))
            } else {
                None
            },
            None => None,
        }
    }

    /// The decimal text to write as a header value.
    pub fn to_header_text(&self) -> (r: String)
        ensures
            r@ == signed_decimal_text(self.0 as int),
    {
        i128_text(self.0 as i128)
    }
}

impl IntoHeaderValue<i32> {
    /// The integer that a header value writes in decimal, if it is one and
    /// fits.
    pub fn from_header(value: &[u8]) -> (r: Option<IntoHeaderValue<i32>>)
        ensures
            r is None <==> int_in_header(value@, i32::MIN as int, i32::MAX as int) is None,
            r matches Some(h) ==> int_in_header(value@, i32::MIN as int, i32::MAX as int) == Some(h.0 as int),
    {
        let s = match str_from_utf8(value) {
            Some(s) => s,
            None => {
                return None;
            },
        };
        match parse_i128(s) {
            Some(v) => if i32::MIN as i128 <= v && v <= i32::MAX as i128 {
                Some(IntoHeaderValue(v as i32))
            } else {
                None
            },
            None => None,
        }
    }

    /// The decimal text to write as a header value.
    pub fn to_header_text(&self) -> (r: String)
        ensures
            r@ == signed_decimal_text(self.0 as int),
    {
        i128_text(self.0 as i128)
    }
}

} // verus!
