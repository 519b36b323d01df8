//! The values that the parameter codecs read and write.
use vstd::prelude::*;

verus! {

/// One scalar of a parameter.
#[derive(Debug, Clone, PartialEq)]
pub enum Scalar {
    /// No data: a unit, a unit struct or an absent optional; written as nothing.
    Unit,
    /// `true` or `false`.
    Bool(bool),
    /// A signed integer of any width.
    Int(i128),
    /// An unsigned integer of any width.
    UInt(u128),
    /// A single character, written as it is.
    Char(char),
    /// Text, percent-encoded when written.
    Str(String),
    /// Raw bytes, percent-encoded when written.
    Bytes(Vec<u8>),
    /// An enum variant without data, written as its name.
    UnitVariant(String),
    /// An enum variant that carries data, which this encoding cannot hold.
    DataVariant(String),
    /// Text written as it is, without percent-encoding, such as the decimal
    /// text of a floating-point number.
    Raw(String),
}

/// The mathematical value of a `Scalar`.
pub enum ScalarModel {
    Unit,
    Bool(bool),
    Int(int),
    UInt(int),
    Char(char),
    Str(Seq<char>),
    Bytes(Seq<u8>),
    UnitVariant(Seq<char>),
    DataVariant(Seq<char>),
    Raw(Seq<char>),
}

impl View for Scalar {
    type V = ScalarModel;

    open spec fn view(&self) -> ScalarModel {
        match self {
            Scalar::Unit => ScalarModel::Unit,
            Scalar::Bool(b) => ScalarModel::Bool(*b),
            Scalar::Int(i) => ScalarModel::Int(*i as int),
            Scalar::UInt(u) => ScalarModel::UInt(*u as int),
            Scalar::Char(c) => ScalarModel::Char(*c),
            Scalar::Str(s) => ScalarModel::Str(s@),
            Scalar::Bytes(b) => ScalarModel::Bytes(b@),
            Scalar::UnitVariant(n) => ScalarModel::UnitVariant(n@),
            Scalar::DataVariant(n) => ScalarModel::DataVariant(n@),
            Scalar::Raw(t) => ScalarModel::Raw(t@),
        }
    }
}

/// A whole parameter value.
#[derive(Debug, Clone, PartialEq)]
pub enum Value {
    /// One scalar.
    Single(Scalar),
    /// A scalar that may be absent; absent is written as nothing.
    Optional(Option<Scalar>),
    /// A list, written comma-joined.
    List(Vec<Scalar>),
    /// An object or a map, written as `key,value,key,value,...`.
    Pairs(Vec<(Scalar, Scalar)>),
}

/// The mathematical value of a `Value`.
pub enum ValueModel {
    Single(ScalarModel),
    Optional(Option<ScalarModel>),
    List(Seq<ScalarModel>),
    Pairs(Seq<(ScalarModel, ScalarModel)>),
}

/// The views of a list of scalars.
pub open spec fn scalars_view(v: Seq<Scalar>) -> Seq<ScalarModel> {
    v.map_values(|s: Scalar| s@)
}

/// The views of a list of pairs of scalars.
pub open spec fn pairs_view(v: Seq<(Scalar, Scalar)>) -> Seq<(ScalarModel, ScalarModel)> {
    v.map_values(|p: (Scalar, Scalar)| (p.0@, p.1@))
}

impl View for Value {
    type V = ValueModel;

    open spec fn view(&self) -> ValueModel {
        match self {
            Value::Single(s) => ValueModel::Single(s@),
            Value::Optional(o) => ValueModel::Optional(
                match o {
                    Some(s) => Some(s@),
                    None => None,
                },
            ),
            Value::List(v) => ValueModel::List(scalars_view(v@)),
            Value::Pairs(v) => ValueModel::Pairs(pairs_view(v@)),
        }
    }
}

/// What a scalar is read as.
#[derive(Debug, Clone, Copy, PartialEq, Eq)]
pub enum Kind {
    Unit,
    Bool,
    I8,
    I16,
    I32,
    I64,
    I128,
    U8,
    U16,
    U32,
    U64,
    U128,
    Char,
    Str,
    Bytes,
    /// The name of an enum variant without data.
    Variant,
    /// UTF-8 text taken as it is, without percent-decoding.
    Raw,
}

/// What a whole parameter is read as.
#[derive(Debug, Clone, Copy, PartialEq, Eq)]
pub enum Shape {
    Single(Kind),
    Optional(Kind),
    List(Kind),
    /// Keys of the first kind and values of the second.
    Pairs(Kind, Kind),
}

} // verus!
