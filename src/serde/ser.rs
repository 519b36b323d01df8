//! Writing parameter values.
use super::number::{decimal_text, i128_text, signed_decimal_text, u128_text};
use super::percent::{encode_bytes, encode_text, percent_encoded};
use super::value::{pairs_view, scalars_view, Scalar, ScalarModel, Value, ValueModel};
use vstd::prelude::*;
use vstd::string::*;
use vstd::utf8::*;

verus! {

/// Why a value could not be written.
#[derive(Debug, Clone, PartialEq)]
#[non_exhaustive]
pub enum Error {
    /// An enum variant that carries data: the encoding cannot hold it.
    UnsupportedEnumType,
    /// A failure reported by the value being written.
    Custom(String),
}

/// A scalar that can be written.
pub open spec fn scalar_writable(s: ScalarModel) -> bool {
    !(s is DataVariant)
}

/// The text of a scalar.
pub open spec fn scalar_text(s: ScalarModel) -> Seq<char> {
    match s {
        ScalarModel::Unit => Seq::empty(),
        ScalarModel::Bool(b) => if b {
            seq!['t', 'r', 'u', 'e']
        } else {
            seq!['f', 'a', 'l', 's', 'e']
        },
        ScalarModel::Int(i) => signed_decimal_text(i),
        ScalarModel::UInt(u) => decimal_text(u as nat),
        ScalarModel::Char(c) => seq![c],
        ScalarModel::Str(t) => percent_encoded(encode_utf8(t)),
        ScalarModel::Bytes(b) => percent_encoded(b),
        ScalarModel::UnitVariant(n) => n,
        ScalarModel::DataVariant(_) => Seq::empty(),
        ScalarModel::Raw(t) => t,
    }
}

/// Texts joined with commas.
pub open spec fn comma_joined(parts: Seq<Seq<char>>) -> Seq<char>
    decreases parts.len(),
{
    if parts.len() == 0 {
        Seq::empty()
    } else if parts.len() == 1 {
        parts[0]
    } else {
        comma_joined(parts.drop_last()) + seq![','] + parts.last()
    }
}

/// The texts of a list of scalars.
pub open spec fn scalar_texts(v: Seq<ScalarModel>) -> Seq<Seq<char>> {
    v.map_values(|s: ScalarModel| scalar_text(s))
}

/// The texts of a list of pairs: key, value, key, value, ...
pub open spec fn pair_texts(v: Seq<(ScalarModel, ScalarModel)>) -> Seq<Seq<char>>
    decreases v.len(),
{
    if v.len() == 0 {
        Seq::empty()
    } else {
        pair_texts(v.drop_last()).push(scalar_text(v.last().0)).push(scalar_text(v.last().1))
    }
}

/// A value that can be written: it holds no enum variant with data.
pub open spec fn value_writable(v: ValueModel) -> bool {
    match v {
        ValueModel::Single(s) => scalar_writable(s),
        ValueModel::Optional(o) => o matches Some(s) ==> scalar_writable(s),
        ValueModel::List(ss) => list_writable(ss),
        ValueModel::Pairs(ps) => pairs_writable(ps),
    }
}

/// Every scalar of a list can be written.
pub open spec fn list_writable(ss: Seq<ScalarModel>) -> bool {
    forall|i: int| 0 <= i < ss.len() ==> scalar_writable(#[trigger] ss[i])
}

/// Every key and value can be written.
pub open spec fn pairs_writable(ps: Seq<(ScalarModel, ScalarModel)>) -> bool {
    forall|i: int| 0 <= i < ps.len() ==> scalar_writable(#[trigger] ps[i].0) && scalar_writable(ps[i].1)
}

/// The text of a value: a scalar as itself, an absent scalar as nothing, a
/// list comma-joined, and pairs as `key,value,key,value,...`.
pub open spec fn value_text(v: ValueModel) -> Seq<char> {
    match v {
        ValueModel::Single(s) => scalar_text(s),
        ValueModel::Optional(o) => match o {
            Some(s) => scalar_text(s),
            None => Seq::empty(),
        },
        ValueModel::List(ss) => comma_joined(scalar_texts(ss)),
        ValueModel::Pairs(ps) => comma_joined(pair_texts(ps)),
    }
}

proof fn lemma_joined_push(parts: Seq<Seq<char>>, x: Seq<char>)
    ensures
        comma_joined(parts.push(x)) == if parts.len() == 0 {
            x
        } else {
            comma_joined(parts) + seq![','] + x
        },
{
    assert(parts.push(x).drop_last() =~= parts);
}

/// Appends the text of a scalar.
fn write_scalar(out: &mut String, s: &Scalar) -> (r: Result<(), Error>)
    ensures
        r is Ok <==> scalar_writable(s@),
        r is Ok ==> final(out)@ == old(out)@ + scalar_text(s@),
        r matches Err(e) ==> e is UnsupportedEnumType,
{
    match s {
        Scalar::Unit => {
            assert(old(out)@ + scalar_text(s@) =~= old(out)@);
        },
        Scalar::Bool(b) => {
            if *b {
                out.append("true");
                proof {
                    reveal_strlit("true");
                }
            } else {
                out.append("false");
                proof {
                    reveal_strlit("false");
                }
            }
        },
        Scalar::Int(i) => {
            let t = i128_text(*i);
            out.append(t.as_str());
        },
        Scalar::UInt(u) => {
            let t = u128_text(*u);
            out.append(t.as_str());
        },
        Scalar::Char(c) => {
            let t = char_text(*c);
            out.append(t.as_str());
        },
        Scalar::Str(t) => {
            let e = encode_text(t.as_str());
            out.append(e.as_str());
        },
        Scalar::Bytes(b) => {
            let e = encode_bytes(b.as_slice());
            out.append(e.as_str());
        },
        Scalar::UnitVariant(n) => {
            out.append(n.as_str());
        },
        Scalar::DataVariant(_) => {
            return Err(Error::UnsupportedEnumType);
        },
        Scalar::Raw(t) => {
            out.append(t.as_str());
        },
    }
    Ok(())
}

/// Relies on `char::to_string`: the text of one character.
#[verifier::external_body]
fn char_text(c: char) -> (r: String)
    ensures
        r@ == seq![c],
{
    c.to_string()
}

/// Writes a parameter value in the `explode=false` form and simple styles:
/// it succeeds exactly when the value holds no enum variant with data, and
/// then gives the value's text.
pub fn to_string(value: &Value) -> (r: Result<String, Error>)
    ensures
        r is Ok <==> value_writable(value@),
        r matches Ok(s) ==> s@ == value_text(value@),
        r matches Err(e) ==> e is UnsupportedEnumType,
{
    let mut out = String::new();
    match value {
        Value::Single(s) => {
            write_scalar(&mut out, s)?;
            assert(out@ =~= value_text(value@));
        },
        Value::Optional(o) => {
            match o {
                Some(s) => {
                    write_scalar(&mut out, s)?;
                    assert(out@ =~= value_text(value@));
                },
                None => {},
            }
        },
        Value::List(v) => {
            let mut i: usize = 0;
            while i < v.len()
                invariant
                    0 <= i <= v@.len(),
                    value@ == ValueModel::List(scalars_view(v@)),
                    forall|j: int| 0 <= j < i ==> scalar_writable(#[trigger] v@[j]@),
                    out@ == comma_joined(scalar_texts(scalars_view(v@.subrange(0, i as int)))),
                decreases v@.len() - i,
            {
                proof {
                    lemma_joined_push(
                        scalar_texts(scalars_view(v@.subrange(0, i as int))),
                        scalar_text(v@[i as int]@),
                    );
                    assert(scalar_texts(scalars_view(v@.subrange(0, i + 1))) =~= scalar_texts(
                        scalars_view(v@.subrange(0, i as int)),
                    ).push(scalar_text(v@[i as int]@)));
                }
                if i > 0 {
                    out.append(",");
                    proof {
                        reveal_strlit(",");
                    }
                }
                let r = write_scalar(&mut out, &v[i]);
                if r.is_err() {
                    assert(!list_writable(scalars_view(v@))) by {
                        assert(!scalar_writable(scalars_view(v@)[i as int]));
                    }
                    return Err(Error::UnsupportedEnumType);
                }
                i = i + 1;
            }
            assert(v@.subrange(0, v@.len() as int) =~= v@);
        },
        Value::Pairs(v) => {
            let mut i: usize = 0;
            while i < v.len()
                invariant
                    0 <= i <= v@.len(),
                    value@ == ValueModel::Pairs(pairs_view(v@)),
                    forall|j: int|
                        0 <= j < i ==> scalar_writable(#[trigger] v@[j].0@) && scalar_writable(
                            v@[j].1@,
                        ),
                    out@ == comma_joined(pair_texts(pairs_view(v@.subrange(0, i as int)))),
                    pair_texts(pairs_view(v@.subrange(0, i as int))).len() == 2 * i,
                decreases v@.len() - i,
            {
                let ghost done = pair_texts(pairs_view(v@.subrange(0, i as int)));
                let ghost k = scalar_text(v@[i as int].0@);
                let ghost x = scalar_text(v@[i as int].1@);
                proof {
                    assert(pairs_view(v@.subrange(0, i + 1)).drop_last() =~= pairs_view(
                        v@.subrange(0, i as int),
                    ));
                    assert(pair_texts(pairs_view(v@.subrange(0, i + 1))) == done.push(k).push(x));
                    lemma_joined_push(done, k);
                    lemma_joined_push(done.push(k), x);
                }
                if i > 0 {
                    out.append(",");
                    proof {
                        reveal_strlit(",");
                    }
                }
                let r = write_scalar(&mut out, &v[i].0);
                if r.is_err() {
                    assert(!pairs_writable(pairs_view(v@))) by {
                        assert(!scalar_writable(pairs_view(v@)[i as int].0));
                    }
                    return Err(Error::UnsupportedEnumType);
                }
                out.append(",");
                proof {
                    reveal_strlit(",");
                }
                let r = write_scalar(&mut out, &v[i].1);
                if r.is_err() {
                    assert(!pairs_writable(pairs_view(v@))) by {
                        assert(!scalar_writable(pairs_view(v@)[i as int].1));
                    }
                    return Err(Error::UnsupportedEnumType);
                }
                i = i + 1;
            }
            assert(v@.subrange(0, v@.len() as int) =~= v@);
        },
    }
    Ok(out)
}

} // verus!
