//! Reading parameter values.
use super::number::{parse_i128, parse_u128, signed_literal, unsigned_literal};
use super::percent::{decode_bytes, decode_text, percent_decoded};
use super::value::{pairs_view, scalars_view, Kind, Scalar, ScalarModel, Shape, Value, ValueModel};
use crate::text::str_from_utf8;
use vstd::prelude::*;
use vstd::slice::slice_subrange;
use vstd::string::*;
use vstd::utf8::*;

verus! {

broadcast use {decode_utf8_encode_utf8, encode_utf8_decode_utf8};

/// Why a parameter could not be read.
#[derive(Debug, Clone, PartialEq)]
#[non_exhaustive]
pub enum Error {
    /// Missing expected key=value pairing.
    MissingKeyValue,
    /// The text is not UTF-8 before percent-decoding.
    OuterUtf8,
    /// The text is not UTF-8 after percent-decoding.
    InnerUtf8,
    /// A unit was expected, but there was text.
    NonEmptyUnit,
    /// A key had no value after it.
    MissingValueForObject,
    /// An integer was expected, or it did not fit.
    ExpectedInt,
    /// A single character was expected; this is the second one found.
    MultiCharacterChar(char),
    /// A single character was expected, but there was none.
    EmptyChar,
    /// The encoding does not say what type a value has.
    AnyTypeUnsupported,
    /// An enum variant with data: the encoding cannot hold it.
    UnsupportedEnumType,
    /// A boolean was expected; this is the text found.
    InvalidBool(String),
    /// A failure reported by the type being read.
    Custom(String),
}

/// The mathematical value of an `Error`.
pub enum ErrorModel {
    MissingKeyValue,
    OuterUtf8,
    InnerUtf8,
    NonEmptyUnit,
    MissingValueForObject,
    ExpectedInt,
    MultiCharacterChar(char),
    EmptyChar,
    AnyTypeUnsupported,
    UnsupportedEnumType,
    InvalidBool(Seq<char>),
    Custom(Seq<char>),
}

impl View for Error {
    type V = ErrorModel;

    open spec fn view(&self) -> ErrorModel {
        match self {
            Error::MissingKeyValue => ErrorModel::MissingKeyValue,
            Error::OuterUtf8 => ErrorModel::OuterUtf8,
            Error::InnerUtf8 => ErrorModel::InnerUtf8,
            Error::NonEmptyUnit => ErrorModel::NonEmptyUnit,
            Error::MissingValueForObject => ErrorModel::MissingValueForObject,
            Error::ExpectedInt => ErrorModel::ExpectedInt,
            Error::MultiCharacterChar(c) => ErrorModel::MultiCharacterChar(*c),
            Error::EmptyChar => ErrorModel::EmptyChar,
            Error::AnyTypeUnsupported => ErrorModel::AnyTypeUnsupported,
            Error::UnsupportedEnumType => ErrorModel::UnsupportedEnumType,
            Error::InvalidBool(s) => ErrorModel::InvalidBool(s@),
            Error::Custom(s) => ErrorModel::Custom(s@),
        }
    }
}

/// The smallest value of an integer kind.
pub open spec fn kind_min(kind: Kind) -> int {
    match kind {
        Kind::I8 => i8::MIN as int,
        Kind::I16 => i16::MIN as int,
        Kind::I32 => i32::MIN as int,
        Kind::I64 => i64::MIN as int,
        Kind::I128 => i128::MIN as int,
        _ => 0,
    }
}

/// The largest value of an integer kind.
pub open spec fn kind_max(kind: Kind) -> int {
    match kind {
        Kind::I8 => i8::MAX as int,
        Kind::I16 => i16::MAX as int,
        Kind::I32 => i32::MAX as int,
        Kind::I64 => i64::MAX as int,
        Kind::I128 => i128::MAX as int,
        Kind::U8 => u8::MAX as int,
        Kind::U16 => u16::MAX as int,
        Kind::U32 => u32::MAX as int,
        Kind::U64 => u64::MAX as int,
        Kind::U128 => u128::MAX as int,
        _ => 0,
    }
}

/// A signed integer kind.
pub open spec fn is_signed(kind: Kind) -> bool {
    kind is I8 || kind is I16 || kind is I32 || kind is I64 || kind is I128
}

/// An unsigned integer kind.
pub open spec fn is_unsigned(kind: Kind) -> bool {
    kind is U8 || kind is U16 || kind is U32 || kind is U64 || kind is U128
}

/// The text that a token stands for once percent-decoded, if that is UTF-8.
pub open spec fn decoded_text(token: Seq<u8>) -> Option<Seq<char>> {
    if valid_utf8(percent_decoded(token)) {
        Some(decode_utf8(percent_decoded(token)))
    } else {
        None
    }
}

/// How one token reads as a scalar of the given kind.
///
/// Text kinds are percent-decoded; booleans and integers are not.
pub open spec fn scalar_read(kind: Kind, token: Seq<u8>) -> Result<ScalarModel, ErrorModel> {
    if kind is Unit {
        if token.len() == 0 {
            Ok(ScalarModel::Unit)
        } else {
            Err(ErrorModel::NonEmptyUnit)
        }
    } else if kind is Bytes {
        Ok(ScalarModel::Bytes(percent_decoded(token)))
    } else if !valid_utf8(token) {
        Err(ErrorModel::OuterUtf8)
    } else {
        let text = decode_utf8(token);
        if kind is Bool {
            if text == seq!['t', 'r', 'u', 'e'] {
                Ok(ScalarModel::Bool(true))
            } else if text == seq!['f', 'a', 'l', 's', 'e'] {
                Ok(ScalarModel::Bool(false))
            } else {
                Err(ErrorModel::InvalidBool(text))
            }
        } else if is_signed(kind) {
            match signed_literal(text) {
                Some(v) => if kind_min(kind) <= v <= kind_max(kind) {
                    Ok(ScalarModel::Int(v))
                } else {
                    Err(ErrorModel::ExpectedInt)
                },
                None => Err(ErrorModel::ExpectedInt),
            }
        } else if is_unsigned(kind) {
            match unsigned_literal(text) {
                Some(v) => if v <= kind_max(kind) {
                    Ok(ScalarModel::UInt(v))
                } else {
                    Err(ErrorModel::ExpectedInt)
                },
                None => Err(ErrorModel::ExpectedInt),
            }
        } else if kind is Raw {
            Ok(ScalarModel::Raw(text))
        } else {
            match decoded_text(token) {
                None => Err(ErrorModel::InnerUtf8),
                Some(t) => if kind is Char {
                    if t.len() == 0 {
                        Err(ErrorModel::EmptyChar)
                    } else if t.len() > 1 {
                        Err(ErrorModel::MultiCharacterChar(t[1]))
                    } else {
                        Ok(ScalarModel::Char(t[0]))
                    }
                } else if kind is Str {
                    Ok(ScalarModel::Str(t))
                } else {
                    Ok(ScalarModel::UnitVariant(t))
                },
            }
        }
    }
}

/// The pieces of a byte string between commas; there is always at least one.
pub open spec fn comma_split(b: Seq<u8>) -> Seq<Seq<u8>>
    decreases b.len(),
{
    if b.len() == 0 {
        seq![Seq::empty()]
    } else {
        let rest = comma_split(b.drop_last());
        if b.last() == 44 {
            rest.push(Seq::empty())
        } else {
            rest.update(rest.len() - 1, rest.last().push(b.last()))
        }
    }
}

/// Puts read scalars in front of the result of reading the rest.
pub open spec fn prepend<T>(acc: Seq<T>, r: Result<Seq<T>, ErrorModel>) -> Result<Seq<T>, ErrorModel> {
    match r {
        Ok(vs) => Ok(acc + vs),
        Err(e) => Err(e),
    }
}

/// How pieces read as a list of scalars: the first failure wins.
pub open spec fn list_read(kind: Kind, parts: Seq<Seq<u8>>) -> Result<Seq<ScalarModel>, ErrorModel>
    decreases parts.len(),
{
    if parts.len() == 0 {
        Ok(Seq::empty())
    } else {
        match scalar_read(kind, parts[0]) {
            Err(e) => Err(e),
            Ok(v) => prepend(seq![v], list_read(kind, parts.drop_first())),
        }
    }
}

/// How pieces read as key, value, key, value, ...: the first failure wins,
/// and a key without a value fails.
pub open spec fn pairs_read(key: Kind, val: Kind, parts: Seq<Seq<u8>>) -> Result<
    Seq<(ScalarModel, ScalarModel)>,
    ErrorModel,
>
    decreases parts.len(),
{
    if parts.len() == 0 {
        Ok(Seq::empty())
    } else {
        match scalar_read(key, parts[0]) {
            Err(e) => Err(e),
            Ok(k) => if parts.len() == 1 {
                Err(ErrorModel::MissingValueForObject)
            } else {
                match scalar_read(val, parts[1]) {
                    Err(e) => Err(e),
                    Ok(v) => prepend(
                        seq![(k, v)],
                        pairs_read(key, val, parts.subrange(2, parts.len() as int)),
                    ),
                }
            },
        }
    }
}

/// How an input reads as a value of the given shape.
pub open spec fn value_read(shape: Shape, input: Seq<u8>) -> Result<ValueModel, ErrorModel> {
    match shape {
        Shape::Single(k) => match scalar_read(k, input) {
            Ok(s) => Ok(ValueModel::Single(s)),
            Err(e) => Err(e),
        },
        Shape::Optional(k) => if input.len() == 0 {
            Ok(ValueModel::Optional(None))
        } else {
            match scalar_read(k, input) {
                Ok(s) => Ok(ValueModel::Optional(Some(s))),
                Err(e) => Err(e),
            }
        },
        Shape::List(k) => if !valid_utf8(input) {
            Err(ErrorModel::OuterUtf8)
        } else {
            match list_read(k, comma_split(input)) {
                Ok(vs) => Ok(ValueModel::List(vs)),
                Err(e) => Err(e),
            }
        },
        Shape::Pairs(k, v) => if !valid_utf8(input) {
            Err(ErrorModel::OuterUtf8)
        } else {
            match pairs_read(k, v, comma_split(input)) {
                Ok(ps) => Ok(ValueModel::Pairs(ps)),
                Err(e) => Err(e),
            }
        },
    }
}

/// The view of a result of reading a scalar.
pub open spec fn scalar_result(r: Result<Scalar, Error>) -> Result<ScalarModel, ErrorModel> {
    match r {
        Ok(s) => Ok(s@),
        Err(e) => Err(e@),
    }
}

/// The view of a result of reading a value.
pub open spec fn value_result(r: Result<Value, Error>) -> Result<ValueModel, ErrorModel> {
    match r {
        Ok(v) => Ok(v@),
        Err(e) => Err(e@),
    }
}

/// The view of a result of reading a list.
pub open spec fn list_result(r: Result<Vec<Scalar>, Error>) -> Result<Seq<ScalarModel>, ErrorModel> {
    match r {
        Ok(v) => Ok(scalars_view(v@)),
        Err(e) => Err(e@),
    }
}

/// The view of a result of reading pairs.
pub open spec fn pairs_result(r: Result<Vec<(Scalar, Scalar)>, Error>) -> Result<
    Seq<(ScalarModel, ScalarModel)>,
    ErrorModel,
> {
    match r {
        Ok(v) => Ok(pairs_view(v@)),
        Err(e) => Err(e@),
    }
}

/// Reads a token as text, percent-decoded.
fn read_text(s: &str) -> (r: Result<String, Error>)
    ensures
        r matches Ok(t) ==> decoded_text(encode_utf8(s@)) == Some(t@),
        r matches Err(e) ==> decoded_text(encode_utf8(s@)) is None && e is InnerUtf8,
{
    match decode_text(s) {
        Some(t) => Ok(t),
        None => Err(Error::InnerUtf8),
    }
}

/// Reads one token as a scalar of the given kind.
pub fn read_scalar(kind: Kind, token: &[u8]) -> (r: Result<Scalar, Error>)
    ensures
        scalar_result(r) == scalar_read(kind, token@),
{
    match kind {
        Kind::Unit => {
            if token.len() == 0 {
                return Ok(Scalar::Unit);
            } else {
                return Err(Error::NonEmptyUnit);
            }
        },
        Kind::Bytes => {
            return Ok(Scalar::Bytes(decode_bytes(token)));
        },
        _ => {},
    }
    let s = match str_from_utf8(token) {
        Some(s) => s,
        None => {
            return Err(Error::OuterUtf8);
        },
    };
    assert(encode_utf8(s@) == token@);
    match kind {
        Kind::Bool => {
            let n = s.unicode_len();
            if n == 4 && s.get_char(0) == 't' && s.get_char(1) == 'r' && s.get_char(2) == 'u'
                && s.get_char(3) == 'e' {
                assert(s@ =~= seq!['t', 'r', 'u', 'e']);
                Ok(Scalar::Bool(true))
            } else if n == 5 && s.get_char(0) == 'f' && s.get_char(1) == 'a' && s.get_char(2)
                == 'l' && s.get_char(3) == 's' && s.get_char(4) == 'e' {
                assert(s@ =~= seq!['f', 'a', 'l', 's', 'e']);
                Ok(Scalar::Bool(false))
            } else {
                Err(Error::InvalidBool(s.to_owned()))
            }
        },
        Kind::I8 | Kind::I16 | Kind::I32 | Kind::I64 | Kind::I128 => {
            match parse_i128(s) {
                Some(v) => {
                    let (lo, hi): (i128, i128) = match kind {
                        Kind::I8 => (i8::MIN as i128, i8::MAX as i128),
                        Kind::I16 => (i16::MIN as i128, i16::MAX as i128),
                        Kind::I32 => (i32::MIN as i128, i32::MAX as i128),
                        Kind::I64 => (i64::MIN as i128, i64::MAX as i128),
                        _ => (i128::MIN, i128::MAX),
                    };
                    if lo <= v && v <= hi {
                        Ok(Scalar::Int(v))
                    } else {
                        Err(Error::ExpectedInt)
                    }
                },
                None => Err(Error::ExpectedInt),
            }
        },
        Kind::U8 | Kind::U16 | Kind::U32 | Kind::U64 | Kind::U128 => {
            match parse_u128(s) {
                Some(v) => {
                    let hi: u128 = match kind {
                        Kind::U8 => u8::MAX as u128,
                        Kind::U16 => u16::MAX as u128,
                        Kind::U32 => u32::MAX as u128,
                        Kind::U64 => u64::MAX as u128,
                        _ => u128::MAX,
                    };
                    if v <= hi {
                        Ok(Scalar::UInt(v))
                    } else {
                        Err(Error::ExpectedInt)
                    }
                },
                None => Err(Error::ExpectedInt),
            }
        },
        Kind::Char => {
            let t = read_text(s)?;
            let n = t.as_str().unicode_len();
            if n == 0 {
                Err(Error::EmptyChar)
            } else if n > 1 {
                Err(Error::MultiCharacterChar(t.as_str().get_char(1)))
            } else {
                Ok(Scalar::Char(t.as_str().get_char(0)))
            }
        },
        Kind::Str => {
            let t = read_text(s)?;
            Ok(Scalar::Str(t))
        },
        Kind::Raw => Ok(Scalar::Raw(s.to_owned())),
        _ => {
            let t = read_text(s)?;
            Ok(Scalar::UnitVariant(t))
        },
    }
}

/// Splitting at commas always gives at least one piece.
pub proof fn lemma_comma_split_nonempty(b: Seq<u8>)
    ensures
        comma_split(b).len() >= 1,
    decreases b.len(),
{
    if b.len() > 0 {
        lemma_comma_split_nonempty(b.drop_last());
    }
}

/// The pieces of a byte string between commas.
pub fn split_commas(b: &[u8]) -> (r: Vec<&[u8]>)
    ensures
        r@.map_values(|x: &[u8]| x@) == comma_split(b@),
{
    let mut parts: Vec<&[u8]> = Vec::new();
    let mut start: usize = 0;
    let mut i: usize = 0;
    assert(b@.subrange(0, 0) =~= Seq::<u8>::empty());
    assert(parts@.map_values(|x: &[u8]| x@).push(b@.subrange(0, 0)) =~= comma_split(
        b@.subrange(0, 0),
    ));
    while i < b.len()
        invariant
            start <= i <= b@.len(),
            parts@.map_values(|x: &[u8]| x@).push(b@.subrange(start as int, i as int))
                == comma_split(b@.subrange(0, i as int)),
        decreases b@.len() - i,
    {
        let ghost old_parts = parts@.map_values(|x: &[u8]| x@);
        assert(b@.subrange(0, i + 1).drop_last() =~= b@.subrange(0, i as int));
        proof {
            lemma_comma_split_nonempty(b@.subrange(0, i as int));
        }
        if b[i] == 44 {
            let piece = slice_subrange(b, start, i);
            parts.push(piece);
            start = i + 1;
            assert(parts@.map_values(|x: &[u8]| x@) =~= old_parts.push(piece@));
            assert(b@.subrange(0, i + 1).last() == b@[i as int]);
            assert(b@.subrange(start as int, i + 1) =~= Seq::<u8>::empty());
            assert(parts@.map_values(|x: &[u8]| x@).push(b@.subrange(start as int, i + 1))
                =~= comma_split(b@.subrange(0, i + 1)));
        } else {
            assert(b@.subrange(start as int, i + 1) =~= b@.subrange(start as int, i as int).push(
                b@[i as int],
            ));
            assert(b@.subrange(0, i + 1).last() == b@[i as int]);
            assert(parts@.map_values(|x: &[u8]| x@).push(b@.subrange(start as int, i + 1))
                =~= comma_split(b@.subrange(0, i + 1)));
        }
        i = i + 1;
    }
    let piece = slice_subrange(b, start, b.len());
    parts.push(piece);
    assert(b@.subrange(0, b@.len() as int) =~= b@);
    assert(parts@.map_values(|x: &[u8]| x@) =~= comma_split(b@));
    parts
}

/// The comma-separated fields of a list, map or object: the input must be
/// UTF-8.
pub fn split_fields(input: &[u8]) -> (r: Result<Vec<&[u8]>, Error>)
    ensures
        r is Err <==> !valid_utf8(input@),
        r matches Err(e) ==> e is OuterUtf8,
        r matches Ok(v) ==> v@.map_values(|x: &[u8]| x@) == comma_split(input@),
{
    if str_from_utf8(input).is_none() {
        return Err(Error::OuterUtf8);
    }
    Ok(split_commas(input))
}

/// Reads the pieces as a list of scalars.
fn read_list(kind: Kind, parts: &Vec<&[u8]>) -> (r: Result<Vec<Scalar>, Error>)
    ensures
        list_result(r) == list_read(kind, parts@.map_values(|x: &[u8]| x@)),
{
    let ghost ps = parts@.map_values(|x: &[u8]| x@);
    let mut out: Vec<Scalar> = Vec::new();
    let mut i: usize = 0;
    assert(ps.subrange(0, ps.len() as int) =~= ps);
    while i < parts.len()
        invariant
            i <= parts@.len(),
            ps == parts@.map_values(|x: &[u8]| x@),
            list_read(kind, ps) == prepend(
                scalars_view(out@),
                list_read(kind, ps.subrange(i as int, ps.len() as int)),
            ),
        decreases parts@.len() - i,
    {
        let ghost rest = ps.subrange(i as int, ps.len() as int);
        assert(rest[0] == parts@[i as int]@);
        assert(rest.drop_first() =~= ps.subrange(i + 1, ps.len() as int));
        match read_scalar(kind, parts[i]) {
            Ok(s) => {
                let ghost before = scalars_view(out@);
                out.push(s);
                assert(scalars_view(out@) =~= before + seq![s@]);
                proof {
                    match list_read(kind, ps.subrange(i + 1, ps.len() as int)) {
                        Ok(vs) => {
                            assert(before + (seq![s@] + vs) =~= (before + seq![s@]) + vs);
                        },
                        Err(_) => {},
                    }
                }
            },
            Err(e) => {
                return Err(e);
            },
        }
        i = i + 1;
    }
    assert(ps.subrange(i as int, ps.len() as int) =~= Seq::<Seq<u8>>::empty());
    assert(scalars_view(out@) + Seq::<ScalarModel>::empty() =~= out@.map_values(
        |s: Scalar| s@,
    ));
    Ok(out)
}

/// Reads the pieces as key, value, key, value, ...
fn read_pairs(key: Kind, val: Kind, parts: &Vec<&[u8]>) -> (r: Result<Vec<(Scalar, Scalar)>, Error>)
    ensures
        pairs_result(r) == pairs_read(key, val, parts@.map_values(|x: &[u8]| x@)),
{
    let ghost ps = parts@.map_values(|x: &[u8]| x@);
    let mut out: Vec<(Scalar, Scalar)> = Vec::new();
    let mut i: usize = 0;
    assert(ps.subrange(0, ps.len() as int) =~= ps);
    while i < parts.len()
        invariant
            i <= parts@.len(),
            ps == parts@.map_values(|x: &[u8]| x@),
            pairs_read(key, val, ps) == prepend(
                pairs_view(out@),
                pairs_read(key, val, ps.subrange(i as int, ps.len() as int)),
            ),
        decreases parts@.len() - i,
    {
        let ghost rest = ps.subrange(i as int, ps.len() as int);
        assert(rest[0] == parts@[i as int]@);
        let k = match read_scalar(key, parts[i]) {
            Ok(k) => k,
            Err(e) => {
                return Err(e);
            },
        };
        if i + 1 >= parts.len() {
            return Err(Error::MissingValueForObject);
        }
        assert(rest[1] == parts@[i + 1]@);
        assert(rest.subrange(2, rest.len() as int) =~= ps.subrange(i + 2, ps.len() as int));
        let v = match read_scalar(val, parts[i + 1]) {
            Ok(v) => v,
            Err(e) => {
                return Err(e);
            },
        };
        let ghost before = pairs_view(out@);
        let ghost kv = (k@, v@);
        out.push((k, v));
        assert(pairs_view(out@) =~= before + seq![kv]);
        proof {
            match pairs_read(key, val, ps.subrange(i + 2, ps.len() as int)) {
                Ok(vs) => {
                    assert(before + (seq![kv] + vs) =~= (before + seq![kv]) + vs);
                },
                Err(_) => {},
            }
        }
        i = i + 2;
    }
    assert(ps.subrange(i as int, ps.len() as int) =~= Seq::<Seq<u8>>::empty());
    assert(pairs_view(out@) + Seq::<
        (ScalarModel, ScalarModel),
    >::empty() =~= pairs_view(out@));
    Ok(out)
}

/// Reads a parameter value of the given shape in the `explode=false` form
/// and simple styles. The shape says what the target type reads, which the
/// encoding itself does not tell.
pub fn from_slice(input: &[u8], shape: Shape) -> (r: Result<Value, Error>)
    ensures
        value_result(r) == value_read(shape, input@),
{
    match shape {
        Shape::Single(k) => {
            let s = read_scalar(k, input)?;
            Ok(Value::Single(s))
        },
        Shape::Optional(k) => {
            if input.len() == 0 {
                Ok(Value::Optional(None))
            } else {
                let s = read_scalar(k, input)?;
                Ok(Value::Optional(Some(s)))
            }
        },
        Shape::List(k) => {
            if str_from_utf8(input).is_none() {
                return Err(Error::OuterUtf8);
            }
            let parts = split_commas(input);
            let v = read_list(k, &parts)?;
            Ok(Value::List(v))
        },
        Shape::Pairs(k, v) => {
            if str_from_utf8(input).is_none() {
                return Err(Error::OuterUtf8);
            }
            let parts = split_commas(input);
            let ps = read_pairs(k, v, &parts)?;
            Ok(Value::Pairs(ps))
        },
    }
}

/// Reads a parameter value of the given shape from text.
pub fn from_str(input: &str, shape: Shape) -> (r: Result<Value, Error>)
    ensures
        value_result(r) == value_read(shape, encode_utf8(input@)),
{
    from_slice(input.as_bytes(), shape)
}

} // verus!
