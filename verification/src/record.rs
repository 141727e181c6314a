//! Field values of a record instance, aligned with the declared fields of
//! its record type.

use vstd::prelude::*;

use crate::entity::FieldType;
use crate::params::Dec;
use crate::params::Guid;
use crate::params::ParamView;
use crate::params::SqlParam;
use crate::params::Timestamp;

verus! {

/// The value one field of a record instance holds.  An absent optional
/// value is `NoneVal`; a present optional value is carried bare.
#[derive(Debug, PartialEq)]
pub enum FieldValue {
    IntVal(i32),
    LongVal(i64),
    BoolVal(bool),
    TextVal(String),
    GuidVal(Guid),
    DecimalVal(Dec),
    TimeVal(Timestamp),
    BytesVal(Vec<u8>),
    NoneVal,
}

/// The mathematical value of a field: text as a character sequence, a
/// blob as a byte sequence, every other variant by value.
pub enum FieldView {
    IntVal(i32),
    LongVal(i64),
    BoolVal(bool),
    TextVal(Seq<char>),
    GuidVal(Guid),
    DecimalVal(Dec),
    TimeVal(Timestamp),
    BytesVal(Seq<u8>),
    NoneVal,
}

impl View for FieldValue {
    type V = FieldView;

    open spec fn view(&self) -> FieldView {
        match self {
            FieldValue::IntVal(v) => FieldView::IntVal(*v),
            FieldValue::LongVal(v) => FieldView::LongVal(*v),
            FieldValue::BoolVal(v) => FieldView::BoolVal(*v),
            FieldValue::TextVal(s) => FieldView::TextVal(s@),
            FieldValue::GuidVal(g) => FieldView::GuidVal(*g),
            FieldValue::DecimalVal(d) => FieldView::DecimalVal(*d),
            FieldValue::TimeVal(t) => FieldView::TimeVal(*t),
            FieldValue::BytesVal(b) => FieldView::BytesVal(b@),
            FieldValue::NoneVal => FieldView::NoneVal,
        }
    }
}

/// The views of a record's field values, in declaration order.
pub open spec fn field_views(s: Seq<FieldValue>) -> Seq<FieldView> {
    s.map_values(|v: FieldValue| v@)
}

/// The bound parameter a field value contributes to a statement: an
/// absent optional value binds SQL NULL.
pub open spec fn spec_field_param(v: FieldView) -> ParamView {
    match v {
        FieldView::IntVal(x) => ParamView::I32(x),
        FieldView::LongVal(x) => ParamView::I64(x),
        FieldView::BoolVal(x) => ParamView::Bool(x),
        FieldView::TextVal(s) => ParamView::Text(s),
        FieldView::GuidVal(g) => ParamView::Uuid(g),
        FieldView::DecimalVal(d) => ParamView::Decimal(d),
        FieldView::TimeVal(t) => ParamView::DateTime(t),
        FieldView::BytesVal(b) => ParamView::Bytes(b),
        FieldView::NoneVal => ParamView::Null,
    }
}

/// Converts a field value into the parameter it binds.
pub fn field_param(v: &FieldValue) -> (r: SqlParam)
    ensures
        r@ == spec_field_param(v@),
{
    match v {
        FieldValue::IntVal(x) => SqlParam::I32(*x),
        FieldValue::LongVal(x) => SqlParam::I64(*x),
        FieldValue::BoolVal(x) => SqlParam::Bool(*x),
        FieldValue::TextVal(s) => SqlParam::Text(s.clone()),
        FieldValue::GuidVal(g) => SqlParam::Uuid(*g),
        FieldValue::DecimalVal(d) => SqlParam::Decimal(*d),
        FieldValue::TimeVal(t) => SqlParam::DateTime(*t),
        FieldValue::BytesVal(b) => SqlParam::Bytes(crate::params::clone_bytes(b)),
        FieldValue::NoneVal => SqlParam::Null,
    }
}

/// Whether a field value fits a field's declared type: an absent value
/// fits only an optional field, a present value must match the declared
/// scalar type.
pub open spec fn value_fits(v: FieldView, ft: FieldType, optional: bool) -> bool {
    match v {
        FieldView::IntVal(_) => ft == FieldType::Int32,
        FieldView::LongVal(_) => ft == FieldType::Int64,
        FieldView::BoolVal(_) => ft == FieldType::Boolean,
        FieldView::TextVal(_) => ft == FieldType::Text,
        FieldView::GuidVal(_) => ft == FieldType::Uuid,
        FieldView::DecimalVal(_) => ft == FieldType::Decimal,
        FieldView::TimeVal(_) => ft == FieldType::Timestamp,
        FieldView::BytesVal(_) => ft == FieldType::Bytes,
        FieldView::NoneVal => optional,
    }
}

} // verus!
