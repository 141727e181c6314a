//! The row decoder: reconstructs a typed record from a result row by
//! column name, or by a prefixed name for multi-entity join results.
//!
//! A missing required column, an unexpected NULL, or a type mismatch is a
//! fatal decode error — a row-shape contract, distinct from validation.

use vstd::prelude::*;
use vstd::string::StringExecFns;

use crate::entity::EntityMeta;
use crate::entity::FieldMeta;
use crate::params::ParamView;
use crate::params::SqlParam;
use crate::record::field_views;
use crate::record::spec_field_param;
use crate::record::value_fits;
use crate::record::FieldValue;
use crate::record::FieldView;
use crate::statement::insert_eligible;

verus! {

/// One named value of a result row.  SQL NULL is carried as `Null`.
#[derive(Debug)]
pub struct RowCell {
    pub name: String,
    pub value: SqlParam,
}

/// A result row: named values in engine order.
#[derive(Debug)]
pub struct Row {
    pub cells: Vec<RowCell>,
}

/// The mathematical value of a row cell.
pub struct CellView {
    pub name: Seq<char>,
    pub value: ParamView,
}

impl View for RowCell {
    type V = CellView;

    open spec fn view(&self) -> CellView {
        CellView { name: self.name@, value: self.value@ }
    }
}

impl View for Row {
    type V = Seq<CellView>;

    open spec fn view(&self) -> Seq<CellView> {
        self.cells@.map_values(|c: RowCell| c@)
    }
}

/// A fatal decode error, carrying the column key it arose on.
#[derive(Debug, PartialEq)]
pub enum DecodeError {
    MissingColumn(String),
    NullValue(String),
    TypeMismatch(String),
}

/// The mathematical value of a decode error.
pub enum DecodeErrorView {
    MissingColumn(Seq<char>),
    NullValue(Seq<char>),
    TypeMismatch(Seq<char>),
}

impl View for DecodeError {
    type V = DecodeErrorView;

    open spec fn view(&self) -> DecodeErrorView {
        match self {
            DecodeError::MissingColumn(k) => DecodeErrorView::MissingColumn(k@),
            DecodeError::NullValue(k) => DecodeErrorView::NullValue(k@),
            DecodeError::TypeMismatch(k) => DecodeErrorView::TypeMismatch(k@),
        }
    }
}

/// The value of the first cell whose name equals `key`, if any.
pub open spec fn spec_lookup(cells: Seq<CellView>, key: Seq<char>) -> Option<ParamView>
    decreases cells.len(),
{
    if cells.len() == 0 {
        Option::None
    } else if cells[0].name == key {
        Option::Some(cells[0].value)
    } else {
        spec_lookup(cells.drop_first(), key)
    }
}

/// Whether a non-null wire value matches a field's declared type.
pub open spec fn param_fits(p: ParamView, ft: crate::entity::FieldType) -> bool {
    match p {
        ParamView::I32(_) => ft == crate::entity::FieldType::Int32,
        ParamView::I64(_) => ft == crate::entity::FieldType::Int64,
        ParamView::Bool(_) => ft == crate::entity::FieldType::Boolean,
        ParamView::Text(_) => ft == crate::entity::FieldType::Text,
        ParamView::Uuid(_) => ft == crate::entity::FieldType::Uuid,
        ParamView::Decimal(_) => ft == crate::entity::FieldType::Decimal,
        ParamView::DateTime(_) => ft == crate::entity::FieldType::Timestamp,
        ParamView::Bytes(_) => ft == crate::entity::FieldType::Bytes,
        ParamView::Null => false,
    }
}

/// The field value a non-null wire value decodes to.
pub open spec fn param_to_field(p: ParamView) -> FieldView {
    match p {
        ParamView::I32(x) => FieldView::IntVal(x),
        ParamView::I64(x) => FieldView::LongVal(x),
        ParamView::Bool(x) => FieldView::BoolVal(x),
        ParamView::Text(s) => FieldView::TextVal(s),
        ParamView::Uuid(g) => FieldView::GuidVal(g),
        ParamView::Decimal(d) => FieldView::DecimalVal(d),
        ParamView::DateTime(t) => FieldView::TimeVal(t),
        ParamView::Bytes(b) => FieldView::BytesVal(b),
        ParamView::Null => FieldView::NoneVal,
    }
}

/// The column key a field is looked up under: its column name, or
/// `<prefix>_<column name>` under a prefix.
pub open spec fn spec_field_key(prefix: Option<Seq<char>>, name: Seq<char>) -> Seq<char> {
    match prefix {
        Option::Some(p) => p + "_"@ + name,
        Option::None => name,
    }
}

/// Decoding one field from a row: absence of the key is fatal; NULL
/// decodes an optional field to the absent state and is fatal otherwise;
/// a present value must match the declared type.
pub open spec fn spec_decode_field(f: FieldMeta, cells: Seq<CellView>, key: Seq<char>) -> Result<
    FieldView,
    DecodeErrorView,
> {
    match spec_lookup(cells, key) {
        Option::None => Result::Err(DecodeErrorView::MissingColumn(key)),
        Option::Some(p) => if p is Null {
            if f.optional {
                Result::Ok(FieldView::NoneVal)
            } else {
                Result::Err(DecodeErrorView::NullValue(key))
            }
        } else if param_fits(p, f.field_type) {
            Result::Ok(param_to_field(p))
        } else {
            Result::Err(DecodeErrorView::TypeMismatch(key))
        },
    }
}

/// Decoding a whole record: fields in declaration order, the first error
/// wins.
pub open spec fn spec_decode(
    fs: Seq<FieldMeta>,
    cells: Seq<CellView>,
    prefix: Option<Seq<char>>,
) -> Result<Seq<FieldView>, DecodeErrorView>
    decreases fs.len(),
{
    if fs.len() == 0 {
        Result::Ok(Seq::empty())
    } else {
        match spec_decode(fs.drop_last(), cells, prefix) {
            Result::Err(e) => Result::Err(e),
            Result::Ok(rest) => match spec_decode_field(
                fs.last(),
                cells,
                spec_field_key(prefix, fs.last().column.name@),
            ) {
                Result::Err(e) => Result::Err(e),
                Result::Ok(v) => Result::Ok(rest.push(v)),
            },
        }
    }
}

/// Once a field prefix fails to decode, the whole record fails with that
/// same error.
proof fn lemma_decode_error_persists(
    fs: Seq<FieldMeta>,
    cells: Seq<CellView>,
    prefix: Option<Seq<char>>,
    i: int,
)
    requires
        0 <= i <= fs.len(),
        spec_decode(fs.take(i), cells, prefix) is Err,
    ensures
        spec_decode(fs, cells, prefix) == spec_decode(fs.take(i), cells, prefix),
    decreases fs.len() - i,
{
    if i < fs.len() {
        assert(fs.take(i + 1).drop_last() =~= fs.take(i));
        lemma_decode_error_persists(fs, cells, prefix, i + 1);
    } else {
        assert(fs.take(i) =~= fs);
    }
}

impl Row {
    /// The value of the first cell named `key`, if any.
    pub fn get(&self, key: &String) -> (r: Option<SqlParam>)
        ensures
            (r is None <==> spec_lookup(self@, key@) is None),
            (r matches Option::Some(p) ==> spec_lookup(self@, key@) == Option::Some(p@)),
    {
        let ghost cells = self@;
        proof {
            assert(cells.skip(0) =~= cells);
        }
        let mut i: usize = 0;
        while i < self.cells.len()
            invariant
                0 <= i <= cells.len(),
                cells == self@,
                spec_lookup(cells, key@) == spec_lookup(cells.skip(i as int), key@),
            decreases cells.len() - i,
        {
            proof {
                assert(cells.skip(i as int)[0] == cells[i as int]);
                assert(cells.skip(i as int).drop_first() =~= cells.skip(i + 1));
            }
            if self.cells[i].name == *key {
                return Option::Some(self.cells[i].value.clone());
            }
            i += 1;
        }
        proof {
            assert(cells.skip(cells.len() as int) =~= Seq::<CellView>::empty());
        }
        Option::None
    }
}

/// Converts a non-null wire value to a field value when it matches the
/// declared type.
fn param_to_field_value(p: SqlParam, ft: crate::entity::FieldType) -> (r: Option<FieldValue>)
    requires
        !(p@ is Null),
    ensures
        (r matches Option::Some(v) ==> param_fits(p@, ft) && v@ == param_to_field(p@)),
        (r is None <==> !param_fits(p@, ft)),
{
    match p {
        SqlParam::I32(x) => if matches!(ft, crate::entity::FieldType::Int32) {
            Option::Some(FieldValue::IntVal(x))
        } else {
            Option::None
        },
        SqlParam::I64(x) => if matches!(ft, crate::entity::FieldType::Int64) {
            Option::Some(FieldValue::LongVal(x))
        } else {
            Option::None
        },
        SqlParam::Bool(x) => if matches!(ft, crate::entity::FieldType::Boolean) {
            Option::Some(FieldValue::BoolVal(x))
        } else {
            Option::None
        },
        SqlParam::Text(s) => if matches!(ft, crate::entity::FieldType::Text) {
            Option::Some(FieldValue::TextVal(s))
        } else {
            Option::None
        },
        SqlParam::Uuid(g) => if matches!(ft, crate::entity::FieldType::Uuid) {
            Option::Some(FieldValue::GuidVal(g))
        } else {
            Option::None
        },
        SqlParam::Decimal(d) => if matches!(ft, crate::entity::FieldType::Decimal) {
            Option::Some(FieldValue::DecimalVal(d))
        } else {
            Option::None
        },
        SqlParam::DateTime(t) => if matches!(ft, crate::entity::FieldType::Timestamp) {
            Option::Some(FieldValue::TimeVal(t))
        } else {
            Option::None
        },
        SqlParam::Bytes(b) => if matches!(ft, crate::entity::FieldType::Bytes) {
            Option::Some(FieldValue::BytesVal(b))
        } else {
            Option::None
        },
        SqlParam::Null => vstd::pervasive::unreached(),
    }
}

impl EntityMeta {
    fn decode_inner(&self, row: &Row, prefix: Option<&str>) -> (r: Result<
        Vec<FieldValue>,
        DecodeError,
    >)
        ensures
            (r matches Result::Ok(vals) ==> spec_decode(
                self.fields@,
                row@,
                match prefix {
                    Option::Some(p) => Option::Some(p@),
                    Option::None => Option::None,
                },
            ) == Result::Ok::<Seq<FieldView>, DecodeErrorView>(field_views(vals@))),
            (r matches Result::Err(e) ==> spec_decode(
                self.fields@,
                row@,
                match prefix {
                    Option::Some(p) => Option::Some(p@),
                    Option::None => Option::None,
                },
            ) == Result::Err::<Seq<FieldView>, DecodeErrorView>(e@)),
    {
        let ghost fs = self.fields@;
        let ghost cells = row@;
        let ghost po: Option<Seq<char>> = match prefix {
            Option::Some(p) => Option::Some(p@),
            Option::None => Option::None,
        };
        let mut out: Vec<FieldValue> = Vec::new();
        proof {
            assert(fs.take(0) =~= Seq::<FieldMeta>::empty());
            assert(field_views(out@) =~= Seq::<FieldView>::empty());
        }
        let mut i: usize = 0;
        while i < self.fields.len()
            invariant
                0 <= i <= fs.len(),
                fs == self.fields@,
                cells == row@,
                po == (match prefix {
                    Option::Some(p) => Option::Some(p@),
                    Option::None => Option::<Seq<char>>::None,
                }),
                out@.len() == i,
                spec_decode(fs.take(i as int), cells, po) == Result::Ok::<
                    Seq<FieldView>,
                    DecodeErrorView,
                >(field_views(out@)),
            decreases fs.len() - i,
        {
            let f = &self.fields[i];
            let key: String = match prefix {
                Option::Some(p) => {
                    let mut k = p.to_owned();
                    k.append("_");
                    k.append(f.column.name.as_str());
                    k
                },
                Option::None => f.column.name.clone(),
            };
            proof {
                assert(key@ == spec_field_key(po, fs[i as int].column.name@));
                assert(fs.take(i + 1).drop_last() =~= fs.take(i as int));
                assert(fs.take(i + 1).last() == fs[i as int]);
            }
            let ghost out0 = out@;
            match row.get(&key) {
                Option::None => {
                    let e = DecodeError::MissingColumn(key);
                    proof {
                        assert(spec_decode(fs.take(i + 1), cells, po) == Result::Err::<
                            Seq<FieldView>,
                            DecodeErrorView,
                        >(e@));
                        lemma_decode_error_persists(fs, cells, po, i + 1);
                    }
                    return Result::Err(e);
                },
                Option::Some(p) => {
                    if matches!(p, SqlParam::Null) {
                        if f.optional {
                            out.push(FieldValue::NoneVal);
                        } else {
                            let e = DecodeError::NullValue(key);
                            proof {
                                assert(spec_decode(fs.take(i + 1), cells, po) == Result::Err::<
                                    Seq<FieldView>,
                                    DecodeErrorView,
                                >(e@));
                                lemma_decode_error_persists(fs, cells, po, i + 1);
                            }
                            return Result::Err(e);
                        }
                    } else {
                        match param_to_field_value(p, f.field_type) {
                            Option::Some(v) => {
                                out.push(v);
                            },
                            Option::None => {
                                let e = DecodeError::TypeMismatch(key);
                                proof {
                                    assert(spec_decode(fs.take(i + 1), cells, po) == Result::Err::<
                                        Seq<FieldView>,
                                        DecodeErrorView,
                                    >(e@));
                                    lemma_decode_error_persists(fs, cells, po, i + 1);
                                }
                                return Result::Err(e);
                            },
                        }
                    }
                },
            }
            proof {
                assert(field_views(out@) =~= field_views(out0).push(out@.last()@));
                assert(spec_decode(fs.take(i + 1), cells, po) == Result::Ok::<
                    Seq<FieldView>,
                    DecodeErrorView,
                >(field_views(out@)));
            }
            i += 1;
        }
        proof {
            assert(fs.take(fs.len() as int) =~= fs);
        }
        Result::Ok(out)
    }

    /// Decodes a typed record from a row, looking each field up by its
    /// column name.
    pub fn decode(&self, row: &Row) -> (r: Result<Vec<FieldValue>, DecodeError>)
        ensures
            (r matches Result::Ok(vals) ==> spec_decode(self.fields@, row@, Option::None)
                == Result::Ok::<Seq<FieldView>, DecodeErrorView>(field_views(vals@))),
            (r matches Result::Err(e) ==> spec_decode(self.fields@, row@, Option::None)
                == Result::Err::<Seq<FieldView>, DecodeErrorView>(e@)),
    {
        self.decode_inner(row, Option::None)
    }

    /// Decodes a typed record from a row of a multi-entity join, looking
    /// each field up under `<prefix>_<column name>`.
    pub fn decode_with_prefix(&self, row: &Row, prefix: &str) -> (r: Result<
        Vec<FieldValue>,
        DecodeError,
    >)
        ensures
            (r matches Result::Ok(vals) ==> spec_decode(
                self.fields@,
                row@,
                Option::Some(prefix@),
            ) == Result::Ok::<Seq<FieldView>, DecodeErrorView>(field_views(vals@))),
            (r matches Result::Err(e) ==> spec_decode(self.fields@, row@, Option::Some(prefix@))
                == Result::Err::<Seq<FieldView>, DecodeErrorView>(e@)),
    {
        self.decode_inner(row, Option::Some(prefix))
    }
}

/// The column/value pairing `build_insert` emits, read back as row cells:
/// each insert-eligible field's column name paired with the parameter its
/// value binds.
pub open spec fn spec_insert_cells(fs: Seq<FieldMeta>, vs: Seq<FieldView>) -> Seq<CellView>
    decreases fs.len(),
{
    if fs.len() == 0 {
        Seq::empty()
    } else {
        spec_insert_cells(fs.drop_last(), vs.drop_last()) + (if insert_eligible(fs.last()) {
            seq![
                CellView {
                    name: fs.last().column.name@,
                    value: spec_field_param(vs.last()),
                },
            ]
        } else {
            Seq::empty()
        })
    }
}

/// Looking a key up in concatenated cells searches the front part first.
proof fn lemma_lookup_concat(a: Seq<CellView>, b: Seq<CellView>, key: Seq<char>)
    ensures
        spec_lookup(a + b, key) == (if spec_lookup(a, key) is Some {
            spec_lookup(a, key)
        } else {
            spec_lookup(b, key)
        }),
    decreases a.len(),
{
    if a.len() == 0 {
        assert(a + b =~= b);
    } else {
        assert((a + b).drop_first() =~= a.drop_first() + b);
        lemma_lookup_concat(a.drop_first(), b, key);
    }
}

/// A key that names none of the fields is absent from the pairing.
proof fn lemma_pairing_miss(fs: Seq<FieldMeta>, vs: Seq<FieldView>, key: Seq<char>)
    requires
        forall|j: int| 0 <= j < fs.len() ==> fs[j].column.name@ != key,
    ensures
        spec_lookup(spec_insert_cells(fs, vs), key) is None,
    decreases fs.len(),
{
    if fs.len() > 0 {
        lemma_pairing_miss(fs.drop_last(), vs.drop_last(), key);
        let a = spec_insert_cells(fs.drop_last(), vs.drop_last());
        if insert_eligible(fs.last()) {
            let c = CellView { name: fs.last().column.name@, value: spec_field_param(vs.last()) };
            lemma_lookup_concat(a, seq![c], key);
            assert(fs[fs.len() - 1].column.name@ != key);
            assert(seq![c][0] == c);
            assert(seq![c].drop_first() =~= Seq::<CellView>::empty());
            assert(spec_lookup(Seq::<CellView>::empty(), key) is None);
            assert(spec_lookup(seq![c], key) is None);
            assert(spec_insert_cells(fs, vs) == a + seq![c]);
        } else {
            assert(spec_insert_cells(fs, vs) =~= a);
        }
    }
}

/// With column names unique, looking an eligible field's name up in the
/// pairing finds exactly the parameter its value bound.
proof fn lemma_pairing_lookup(fs: Seq<FieldMeta>, vs: Seq<FieldView>, i: int)
    requires
        vs.len() == fs.len(),
        0 <= i < fs.len(),
        insert_eligible(fs[i]),
        forall|j: int| 0 <= j < fs.len() && j != i ==> fs[j].column.name@ != fs[i].column.name@,
    ensures
        spec_lookup(spec_insert_cells(fs, vs), fs[i].column.name@) == Option::Some(
            spec_field_param(vs[i]),
        ),
    decreases fs.len(),
{
    let key = fs[i].column.name@;
    let a = spec_insert_cells(fs.drop_last(), vs.drop_last());
    if i == fs.len() - 1 {
        lemma_pairing_miss(fs.drop_last(), vs.drop_last(), key);
        let c = CellView { name: key, value: spec_field_param(vs[i]) };
        lemma_lookup_concat(a, seq![c], key);
        assert(seq![c].drop_first() =~= Seq::<CellView>::empty());
    } else {
        lemma_pairing_lookup(fs.drop_last(), vs.drop_last(), i);
        if insert_eligible(fs.last()) {
            let c = CellView { name: fs.last().column.name@, value: spec_field_param(vs.last()) };
            lemma_lookup_concat(a, seq![c], key);
        } else {
            assert(spec_insert_cells(fs, vs) =~= a);
        }
    }
}

/// Round trip, per field: pairing a record's insert columns with their
/// bound values and decoding that pairing as a row reproduces the
/// original value of every insert-eligible field, provided the record is
/// well typed and column names are unique.
pub proof fn lemma_insert_decode_round_trip(fs: Seq<FieldMeta>, vs: Seq<FieldView>, i: int)
    requires
        vs.len() == fs.len(),
        0 <= i < fs.len(),
        insert_eligible(fs[i]),
        value_fits(vs[i], fs[i].field_type, fs[i].optional),
        forall|j: int| 0 <= j < fs.len() && j != i ==> fs[j].column.name@ != fs[i].column.name@,
    ensures
        spec_decode_field(fs[i], spec_insert_cells(fs, vs), fs[i].column.name@) == Result::Ok::<
            FieldView,
            DecodeErrorView,
        >(vs[i]),
{
    lemma_pairing_lookup(fs, vs, i);
}

/// Round trip, whole record: when every field is insert-eligible, the
/// pairing row decodes back to a record equal to the original,
/// field by field.
pub proof fn lemma_insert_decode_record(fs: Seq<FieldMeta>, vs: Seq<FieldView>)
    requires
        vs.len() == fs.len(),
        forall|i: int| 0 <= i < fs.len() ==> insert_eligible(fs[i]),
        forall|i: int|
            0 <= i < fs.len() ==> value_fits(vs[i], fs[i].field_type, fs[i].optional),
        forall|i: int, j: int|
            0 <= i < fs.len() && 0 <= j < fs.len() && i != j ==> fs[i].column.name@
                != fs[j].column.name@,
    ensures
        spec_decode(fs, spec_insert_cells(fs, vs), Option::None) == Result::Ok::<
            Seq<FieldView>,
            DecodeErrorView,
        >(vs),
{
    lemma_insert_decode_record_upto(fs, vs, fs.len() as int);
    assert(fs.take(fs.len() as int) =~= fs);
    assert(vs.take(vs.len() as int) =~= vs);
}

proof fn lemma_insert_decode_record_upto(fs: Seq<FieldMeta>, vs: Seq<FieldView>, i: int)
    requires
        vs.len() == fs.len(),
        0 <= i <= fs.len(),
        forall|k: int| 0 <= k < fs.len() ==> insert_eligible(fs[k]),
        forall|k: int|
            0 <= k < fs.len() ==> value_fits(vs[k], fs[k].field_type, fs[k].optional),
        forall|k: int, j: int|
            0 <= k < fs.len() && 0 <= j < fs.len() && k != j ==> fs[k].column.name@
                != fs[j].column.name@,
    ensures
        spec_decode(fs.take(i), spec_insert_cells(fs, vs), Option::None) == Result::Ok::<
            Seq<FieldView>,
            DecodeErrorView,
        >(vs.take(i)),
    decreases i,
{
    if i > 0 {
        lemma_insert_decode_record_upto(fs, vs, i - 1);
        assert(fs.take(i).drop_last() =~= fs.take(i - 1));
        assert(fs.take(i).last() == fs[i - 1]);
        lemma_insert_decode_round_trip(fs, vs, i - 1);
        assert(vs.take(i) =~= vs.take(i - 1).push(vs[i - 1]));
    } else {
        assert(fs.take(0) =~= Seq::<FieldMeta>::empty());
        assert(vs.take(0) =~= Seq::<FieldView>::empty());
    }
}

} // verus!
