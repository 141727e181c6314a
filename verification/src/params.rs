//! Bindable scalar values and the two placeholder dialects.

use vstd::prelude::*;
use vstd::string::StringExecFns;

use crate::digits::dec_digits;
use crate::digits::u64_to_string;

verus! {

/// The placeholder convention of the target dialect: `@P<n>` or `$<n>`.
#[derive(Clone, Copy, Debug, PartialEq, Eq, Structural)]
pub enum PlaceholderStyle {
    AtP,
    Dollar,
}

/// A 128-bit globally unique identifier, carried by its raw bits.
#[derive(Clone, Copy, Debug, PartialEq, Eq, Hash, Structural)]
pub struct Guid {
    pub bits: u128,
}

/// A fixed-point decimal: `mantissa * 10^(-scale)`.
#[derive(Clone, Copy, Debug, PartialEq, Eq, Hash, Structural)]
pub struct Dec {
    pub mantissa: i128,
    pub scale: u32,
}

/// A calendar timestamp, as seconds since the Unix epoch plus a
/// subsecond nanosecond offset.
#[derive(Clone, Copy, Debug, PartialEq, Eq, Hash, Structural)]
pub struct Timestamp {
    pub secs: i64,
    pub nanos: u32,
}

/// A closed union of the scalar values a statement may bind.
#[derive(Debug, PartialEq)]
pub enum SqlParam {
    I32(i32),
    I64(i64),
    Bool(bool),
    Text(String),
    Uuid(Guid),
    Decimal(Dec),
    DateTime(Timestamp),
    Bytes(Vec<u8>),
    Null,
}

/// The mathematical value of a bound parameter: text as a character
/// sequence, a blob as a byte sequence, every other variant by value.
pub enum ParamView {
    I32(i32),
    I64(i64),
    Bool(bool),
    Text(Seq<char>),
    Uuid(Guid),
    Decimal(Dec),
    DateTime(Timestamp),
    Bytes(Seq<u8>),
    Null,
}

impl View for SqlParam {
    type V = ParamView;

    open spec fn view(&self) -> ParamView {
        match self {
            SqlParam::I32(v) => ParamView::I32(*v),
            SqlParam::I64(v) => ParamView::I64(*v),
            SqlParam::Bool(v) => ParamView::Bool(*v),
            SqlParam::Text(s) => ParamView::Text(s@),
            SqlParam::Uuid(g) => ParamView::Uuid(*g),
            SqlParam::Decimal(d) => ParamView::Decimal(*d),
            SqlParam::DateTime(t) => ParamView::DateTime(*t),
            SqlParam::Bytes(b) => ParamView::Bytes(b@),
            SqlParam::Null => ParamView::Null,
        }
    }
}

/// The views of a list of parameter values, in order.
pub open spec fn views_of(s: Seq<SqlParam>) -> Seq<ParamView> {
    s.map_values(|p: SqlParam| p@)
}

pub(crate) fn clone_bytes(b: &Vec<u8>) -> (r: Vec<u8>)
    ensures
        r@ == b@,
{
    let mut r: Vec<u8> = Vec::new();
    let mut i: usize = 0;
    while i < b.len()
        invariant
            i <= b@.len(),
            r@ == b@.take(i as int),
        decreases b@.len() - i,
    {
        r.push(b[i]);
        proof {
            assert(r@ =~= b@.take(i + 1));
        }
        i += 1;
    }
    proof {
        assert(b@.take(b@.len() as int) =~= b@);
    }
    r
}

impl Clone for SqlParam {
    /// A clone of a parameter value has the same view as the original.
    fn clone(&self) -> (res: Self)
        ensures
            res@ == self@,
    {
        match self {
            SqlParam::I32(v) => SqlParam::I32(*v),
            SqlParam::I64(v) => SqlParam::I64(*v),
            SqlParam::Bool(v) => SqlParam::Bool(*v),
            SqlParam::Text(s) => SqlParam::Text(s.clone()),
            SqlParam::Uuid(g) => SqlParam::Uuid(*g),
            SqlParam::Decimal(d) => SqlParam::Decimal(*d),
            SqlParam::DateTime(t) => SqlParam::DateTime(*t),
            SqlParam::Bytes(b) => SqlParam::Bytes(clone_bytes(b)),
            SqlParam::Null => SqlParam::Null,
        }
    }
}

/// The text of the `n`-th placeholder under `style`: `@Pn` or `$n`.
pub open spec fn spec_placeholder(style: PlaceholderStyle, n: int) -> Seq<char> {
    match style {
        PlaceholderStyle::AtP => "@P"@ + dec_digits(n as nat),
        PlaceholderStyle::Dollar => "$"@ + dec_digits(n as nat),
    }
}

/// Renders the `n`-th placeholder of the dialect.
pub fn placeholder(style: PlaceholderStyle, n: usize) -> (r: String)
    ensures
        r@ == spec_placeholder(style, n as int),
{
    let mut s = match style {
        PlaceholderStyle::AtP => "@P".to_owned(),
        PlaceholderStyle::Dollar => "$".to_owned(),
    };
    let d = u64_to_string(n as u64);
    s.append(d.as_str());
    s
}

/// Conversion from a native scalar into the bindable union.  Each
/// implementor says in `spec_param` which parameter value it binds.
pub trait ToParam: Sized {
    spec fn spec_param(self) -> ParamView;

    fn to_param(self) -> (r: SqlParam)
        ensures
            r@ == self.spec_param(),
    ;
}

impl ToParam for i32 {
    open spec fn spec_param(self) -> ParamView {
        ParamView::I32(self)
    }

    fn to_param(self) -> SqlParam {
        SqlParam::I32(self)
    }
}

impl ToParam for i64 {
    open spec fn spec_param(self) -> ParamView {
        ParamView::I64(self)
    }

    fn to_param(self) -> SqlParam {
        SqlParam::I64(self)
    }
}

impl ToParam for bool {
    open spec fn spec_param(self) -> ParamView {
        ParamView::Bool(self)
    }

    fn to_param(self) -> SqlParam {
        SqlParam::Bool(self)
    }
}

impl ToParam for String {
    open spec fn spec_param(self) -> ParamView {
        ParamView::Text(self@)
    }

    fn to_param(self) -> SqlParam {
        SqlParam::Text(self)
    }
}

impl<'a> ToParam for &'a str {
    open spec fn spec_param(self) -> ParamView {
        ParamView::Text(self@)
    }

    fn to_param(self) -> SqlParam {
        SqlParam::Text(self.to_owned())
    }
}

impl ToParam for Guid {
    open spec fn spec_param(self) -> ParamView {
        ParamView::Uuid(self)
    }

    fn to_param(self) -> SqlParam {
        SqlParam::Uuid(self)
    }
}

impl ToParam for Dec {
    open spec fn spec_param(self) -> ParamView {
        ParamView::Decimal(self)
    }

    fn to_param(self) -> SqlParam {
        SqlParam::Decimal(self)
    }
}

impl ToParam for Timestamp {
    open spec fn spec_param(self) -> ParamView {
        ParamView::DateTime(self)
    }

    fn to_param(self) -> SqlParam {
        SqlParam::DateTime(self)
    }
}

impl ToParam for Vec<u8> {
    open spec fn spec_param(self) -> ParamView {
        ParamView::Bytes(self@)
    }

    fn to_param(self) -> SqlParam {
        SqlParam::Bytes(self)
    }
}

impl<T: ToParam> ToParam for Option<T> {
    open spec fn spec_param(self) -> ParamView {
        match self {
            Option::Some(v) => v.spec_param(),
            Option::None => ParamView::Null,
        }
    }

    fn to_param(self) -> SqlParam {
        match self {
            Option::Some(v) => v.to_param(),
            Option::None => SqlParam::Null,
        }
    }
}

} // verus!
