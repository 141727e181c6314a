//! One-time derivation of a record type's metadata from its declarative
//! description: each declared field becomes a column, a key or a relation,
//! and the first declared key fixes the canonical single-column key.

use vstd::prelude::*;

use crate::mapping::clone_opt_string;
use crate::mapping::ColumnMeta;
use crate::mapping::KeyMeta;
use crate::mapping::RelationMeta;
use crate::mapping::TableMeta;

verus! {

/// The declared scalar type of a field, deciding how its values bind and
/// decode.
#[derive(Clone, Copy, Debug, PartialEq, Eq, Structural)]
pub enum FieldType {
    Int32,
    Int64,
    Boolean,
    Text,
    Uuid,
    Decimal,
    Timestamp,
    Bytes,
}

/// Column annotations of a declared field: an optional column-name
/// override, validation rules, custom messages and exclusion flags.
#[derive(Debug)]
pub struct ColumnAnn {
    pub name: Option<String>,
    pub required: bool,
    pub allow_null: bool,
    pub max_length: Option<usize>,
    pub min_length: Option<usize>,
    pub allow_empty: bool,
    pub regex: Option<String>,
    pub error_max_length: Option<String>,
    pub error_min_length: Option<String>,
    pub error_required: Option<String>,
    pub error_allow_null: Option<String>,
    pub error_allow_empty: Option<String>,
    pub error_regex: Option<String>,
    pub ignore: bool,
    pub ignore_in_update: bool,
    pub ignore_in_insert: bool,
    pub ignore_in_delete: bool,
}

/// The default column annotations: no rules, empty text allowed, nothing
/// excluded.
pub open spec fn default_column_ann() -> ColumnAnn {
    ColumnAnn {
        name: Option::None,
        required: false,
        allow_null: false,
        max_length: Option::None,
        min_length: Option::None,
        allow_empty: true,
        regex: Option::None,
        error_max_length: Option::None,
        error_min_length: Option::None,
        error_required: Option::None,
        error_allow_null: Option::None,
        error_allow_empty: Option::None,
        error_regex: Option::None,
        ignore: false,
        ignore_in_update: false,
        ignore_in_insert: false,
        ignore_in_delete: false,
    }
}

impl ColumnAnn {
    pub fn new() -> (r: ColumnAnn)
        ensures
            r == default_column_ann(),
    {
        ColumnAnn {
            name: Option::None,
            required: false,
            allow_null: false,
            max_length: Option::None,
            min_length: Option::None,
            allow_empty: true,
            regex: Option::None,
            error_max_length: Option::None,
            error_min_length: Option::None,
            error_required: Option::None,
            error_allow_null: Option::None,
            error_allow_empty: Option::None,
            error_regex: Option::None,
            ignore: false,
            ignore_in_update: false,
            ignore_in_insert: false,
            ignore_in_delete: false,
        }
    }
}

/// Key annotations of a declared field.
#[derive(Debug)]
pub struct KeyAnn {
    pub name: Option<String>,
    pub is_identity: bool,
    pub ignore_in_update: bool,
    pub ignore_in_insert: bool,
}

impl KeyAnn {
    pub fn new() -> (r: KeyAnn)
        ensures
            r == (KeyAnn {
                name: Option::None,
                is_identity: false,
                ignore_in_update: false,
                ignore_in_insert: false,
            }),
    {
        KeyAnn {
            name: Option::None,
            is_identity: false,
            ignore_in_update: false,
            ignore_in_insert: false,
        }
    }
}

/// Relation annotations of a declared field.
#[derive(Debug)]
pub struct RelationAnn {
    pub foreign_key: String,
    pub table: String,
    pub table_number: Option<u32>,
    pub ignore_in_update: bool,
    pub ignore_in_insert: bool,
}

/// How a declared field participates in persistence.
#[derive(Debug)]
pub enum FieldAnn {
    Column(ColumnAnn),
    Key(KeyAnn),
    Relation(RelationAnn),
}

/// One declared field of a record type.
#[derive(Debug)]
pub struct FieldDecl {
    pub field_name: String,
    pub field_type: FieldType,
    pub optional: bool,
    pub ann: FieldAnn,
}

/// The declarative description of a record type.
#[derive(Debug)]
pub struct EntityDecl {
    pub table_name: String,
    pub schema: Option<String>,
    pub fields: Vec<FieldDecl>,
}

/// Everything derived for one non-relation field: its column descriptor,
/// its declared type, and its key flags.
#[derive(Debug)]
pub struct FieldMeta {
    pub column: ColumnMeta,
    pub field_type: FieldType,
    pub optional: bool,
    pub is_key: bool,
    pub is_identity: bool,
    pub key_ignore_in_update: bool,
    pub key_ignore_in_insert: bool,
}

/// The derived metadata of a record type: its table descriptors and the
/// per-field information the statement generator, validator and row
/// decoder consume.
#[derive(Debug)]
pub struct EntityMeta {
    pub table: TableMeta,
    pub fields: Vec<FieldMeta>,
}

/// The column name of a declared field: the annotation's override when
/// present, the field name otherwise.
pub open spec fn spec_col_name(d: FieldDecl) -> String {
    match d.ann {
        FieldAnn::Column(a) => match a.name {
            Option::Some(n) => n,
            Option::None => d.field_name,
        },
        FieldAnn::Key(k) => match k.name {
            Option::Some(n) => n,
            Option::None => d.field_name,
        },
        FieldAnn::Relation(_) => d.field_name,
    }
}

/// The column descriptor a key field receives: all rules at their
/// defaults.
pub open spec fn default_column_meta(name: String) -> ColumnMeta {
    ColumnMeta {
        name: name,
        required: false,
        allow_null: false,
        max_length: Option::None,
        min_length: Option::None,
        allow_empty: true,
        regex: Option::None,
        error_max_length: Option::None,
        error_min_length: Option::None,
        error_required: Option::None,
        error_allow_null: Option::None,
        error_allow_empty: Option::None,
        error_regex: Option::None,
        ignore: false,
        ignore_in_update: false,
        ignore_in_insert: false,
        ignore_in_delete: false,
    }
}

/// The column descriptor derived for a non-relation field.
pub open spec fn spec_column_meta(d: FieldDecl) -> ColumnMeta {
    match d.ann {
        FieldAnn::Column(a) => ColumnMeta {
            name: spec_col_name(d),
            required: a.required,
            allow_null: a.allow_null,
            max_length: a.max_length,
            min_length: a.min_length,
            allow_empty: a.allow_empty,
            regex: a.regex,
            error_max_length: a.error_max_length,
            error_min_length: a.error_min_length,
            error_required: a.error_required,
            error_allow_null: a.error_allow_null,
            error_allow_empty: a.error_allow_empty,
            error_regex: a.error_regex,
            ignore: a.ignore,
            ignore_in_update: a.ignore_in_update,
            ignore_in_insert: a.ignore_in_insert,
            ignore_in_delete: a.ignore_in_delete,
        },
        _ => default_column_meta(spec_col_name(d)),
    }
}

/// The per-field metadata derived for a non-relation field.
pub open spec fn spec_field_meta(d: FieldDecl) -> FieldMeta {
    match d.ann {
        FieldAnn::Key(k) => FieldMeta {
            column: spec_column_meta(d),
            field_type: d.field_type,
            optional: d.optional,
            is_key: true,
            is_identity: k.is_identity,
            key_ignore_in_update: k.ignore_in_update,
            key_ignore_in_insert: k.ignore_in_insert,
        },
        _ => FieldMeta {
            column: spec_column_meta(d),
            field_type: d.field_type,
            optional: d.optional,
            is_key: false,
            is_identity: false,
            key_ignore_in_update: false,
            key_ignore_in_insert: false,
        },
    }
}

/// The per-field metadata of all non-relation fields, in declaration
/// order.
pub open spec fn spec_fields(ds: Seq<FieldDecl>) -> Seq<FieldMeta>
    decreases ds.len(),
{
    if ds.len() == 0 {
        Seq::empty()
    } else {
        spec_fields(ds.drop_last()) + (if ds.last().ann is Relation {
            Seq::empty()
        } else {
            seq![spec_field_meta(ds.last())]
        })
    }
}

/// The column descriptors of all non-relation fields, in declaration
/// order.
pub open spec fn spec_columns(ds: Seq<FieldDecl>) -> Seq<ColumnMeta>
    decreases ds.len(),
{
    if ds.len() == 0 {
        Seq::empty()
    } else {
        spec_columns(ds.drop_last()) + (if ds.last().ann is Relation {
            Seq::empty()
        } else {
            seq![spec_column_meta(ds.last())]
        })
    }
}

/// The key descriptors of all key fields, in declaration order.
pub open spec fn spec_keys(ds: Seq<FieldDecl>) -> Seq<KeyMeta>
    decreases ds.len(),
{
    if ds.len() == 0 {
        Seq::empty()
    } else {
        spec_keys(ds.drop_last()) + (match ds.last().ann {
            FieldAnn::Key(k) => seq![
                KeyMeta {
                    column: spec_col_name(ds.last()),
                    is_identity: k.is_identity,
                    ignore_in_update: k.ignore_in_update,
                    ignore_in_insert: k.ignore_in_insert,
                },
            ],
            _ => Seq::empty(),
        })
    }
}

/// The relation descriptors of all relation fields, in declaration order.
pub open spec fn spec_relations(ds: Seq<FieldDecl>) -> Seq<RelationMeta>
    decreases ds.len(),
{
    if ds.len() == 0 {
        Seq::empty()
    } else {
        spec_relations(ds.drop_last()) + (match ds.last().ann {
            FieldAnn::Relation(r) => seq![
                RelationMeta {
                    name: ds.last().field_name,
                    foreign_key: r.foreign_key,
                    table: r.table,
                    table_number: r.table_number,
                    ignore_in_update: r.ignore_in_update,
                    ignore_in_insert: r.ignore_in_insert,
                },
            ],
            _ => Seq::empty(),
        })
    }
}

/// The first declared key, scanning from position `i`.
pub open spec fn spec_first_key_from(fs: Seq<FieldMeta>, i: int) -> Option<FieldMeta>
    decreases fs.len() - i,
{
    if i < 0 || i >= fs.len() {
        Option::None
    } else if fs[i].is_key {
        Option::Some(fs[i])
    } else {
        spec_first_key_from(fs, i + 1)
    }
}

/// The first declared key: the canonical single-column key of the record
/// type.  Order of declaration is semantically significant.
pub open spec fn spec_first_key(fs: Seq<FieldMeta>) -> Option<FieldMeta> {
    spec_first_key_from(fs, 0)
}

/// The column name of the canonical key; empty when no key is declared.
pub open spec fn spec_first_key_col(fs: Seq<FieldMeta>) -> Seq<char> {
    match spec_first_key(fs) {
        Option::Some(f) => f.column.name@,
        Option::None => Seq::empty(),
    }
}

/// When a field at `i` is the first declared key, the canonical key is
/// that field, whatever keys follow it.
pub proof fn lemma_first_key_found(fs: Seq<FieldMeta>, k: int, i: int)
    requires
        0 <= k <= i < fs.len(),
        fs[i].is_key,
        forall|j: int| k <= j < i ==> !fs[j].is_key,
    ensures
        spec_first_key_from(fs, k) == Option::Some(fs[i]),
    decreases i - k,
{
    if k < i {
        lemma_first_key_found(fs, k + 1, i);
    }
}

/// The typed key-extraction capability the record type gains: decided by
/// the declared type of the first key field; unsupported types yield
/// none.
#[derive(Clone, Copy, Debug, PartialEq, Eq, Structural)]
pub enum KeyKind {
    IntKey,
    GuidKey,
    StringKey,
}

/// The capability matching the first key's declared type: exactly one of
/// integer, GUID or text, or none for other types or keyless tables.
pub open spec fn spec_key_capability(fs: Seq<FieldMeta>) -> Option<KeyKind> {
    match spec_first_key(fs) {
        Option::Some(f) => match f.field_type {
            FieldType::Int32 => Option::Some(KeyKind::IntKey),
            FieldType::Uuid => Option::Some(KeyKind::GuidKey),
            FieldType::Text => Option::Some(KeyKind::StringKey),
            _ => Option::None,
        },
        Option::None => Option::None,
    }
}

impl EntityMeta {
    /// The column name of the first declared key; empty when no key
    /// exists.
    pub fn first_key_column(&self) -> (r: String)
        ensures
            r@ == spec_first_key_col(self.fields@),
    {
        let ghost fs = self.fields@;
        let mut i: usize = 0;
        while i < self.fields.len()
            invariant
                0 <= i <= fs.len(),
                fs == self.fields@,
                spec_first_key_from(fs, 0) == spec_first_key_from(fs, i as int),
            decreases fs.len() - i,
        {
            if self.fields[i].is_key {
                return self.fields[i].column.name.clone();
            }
            i += 1;
        }
        String::new()
    }

    /// The typed key-extraction capability of this record type.
    pub fn key_capability(&self) -> (r: Option<KeyKind>)
        ensures
            r == spec_key_capability(self.fields@),
    {
        let ghost fs = self.fields@;
        let mut i: usize = 0;
        while i < self.fields.len()
            invariant
                0 <= i <= fs.len(),
                fs == self.fields@,
                spec_first_key_from(fs, 0) == spec_first_key_from(fs, i as int),
            decreases fs.len() - i,
        {
            if self.fields[i].is_key {
                return match self.fields[i].field_type {
                    FieldType::Int32 => Option::Some(KeyKind::IntKey),
                    FieldType::Uuid => Option::Some(KeyKind::GuidKey),
                    FieldType::Text => Option::Some(KeyKind::StringKey),
                    _ => Option::None,
                };
            }
            i += 1;
        }
        Option::None
    }
}

/// Derives the complete metadata of a record type from its declaration:
/// relation fields feed only the relation list; every other field becomes
/// a column descriptor, and key fields additionally a key descriptor.
pub fn derive_entity(decl: &EntityDecl) -> (em: EntityMeta)
    ensures
        em.table.name == decl.table_name,
        em.table.schema == decl.schema,
        em.table.columns@ == spec_columns(decl.fields@),
        em.table.keys@ == spec_keys(decl.fields@),
        em.table.relations@ == spec_relations(decl.fields@),
        em.fields@ == spec_fields(decl.fields@),
{
    let mut columns: Vec<ColumnMeta> = Vec::new();
    let mut keys: Vec<KeyMeta> = Vec::new();
    let mut relations: Vec<RelationMeta> = Vec::new();
    let mut fields: Vec<FieldMeta> = Vec::new();
    let mut i: usize = 0;
    while i < decl.fields.len()
        invariant
            i <= decl.fields@.len(),
            columns@ == spec_columns(decl.fields@.take(i as int)),
            keys@ == spec_keys(decl.fields@.take(i as int)),
            relations@ == spec_relations(decl.fields@.take(i as int)),
            fields@ == spec_fields(decl.fields@.take(i as int)),
        decreases decl.fields@.len() - i,
    {
        let d = &decl.fields[i];
        proof {
            assert(decl.fields@.take(i + 1).drop_last() =~= decl.fields@.take(i as int));
            assert(decl.fields@.take(i + 1).last() == decl.fields@[i as int]);
        }
        match &d.ann {
            FieldAnn::Relation(r) => {
                relations.push(
                    RelationMeta {
                        name: d.field_name.clone(),
                        foreign_key: r.foreign_key.clone(),
                        table: r.table.clone(),
                        table_number: r.table_number,
                        ignore_in_update: r.ignore_in_update,
                        ignore_in_insert: r.ignore_in_insert,
                    },
                );
            },
            FieldAnn::Column(a) => {
                let name = match &a.name {
                    Option::Some(n) => n.clone(),
                    Option::None => d.field_name.clone(),
                };
                let cm = ColumnMeta {
                    name,
                    required: a.required,
                    allow_null: a.allow_null,
                    max_length: a.max_length,
                    min_length: a.min_length,
                    allow_empty: a.allow_empty,
                    regex: clone_opt_string(&a.regex),
                    error_max_length: clone_opt_string(&a.error_max_length),
                    error_min_length: clone_opt_string(&a.error_min_length),
                    error_required: clone_opt_string(&a.error_required),
                    error_allow_null: clone_opt_string(&a.error_allow_null),
                    error_allow_empty: clone_opt_string(&a.error_allow_empty),
                    error_regex: clone_opt_string(&a.error_regex),
                    ignore: a.ignore,
                    ignore_in_update: a.ignore_in_update,
                    ignore_in_insert: a.ignore_in_insert,
                    ignore_in_delete: a.ignore_in_delete,
                };
                fields.push(
                    FieldMeta {
                        column: cm.clone(),
                        field_type: d.field_type,
                        optional: d.optional,
                        is_key: false,
                        is_identity: false,
                        key_ignore_in_update: false,
                        key_ignore_in_insert: false,
                    },
                );
                columns.push(cm);
            },
            FieldAnn::Key(k) => {
                let name = match &k.name {
                    Option::Some(n) => n.clone(),
                    Option::None => d.field_name.clone(),
                };
                keys.push(
                    KeyMeta {
                        column: name.clone(),
                        is_identity: k.is_identity,
                        ignore_in_update: k.ignore_in_update,
                        ignore_in_insert: k.ignore_in_insert,
                    },
                );
                let cm = ColumnMeta {
                    name,
                    required: false,
                    allow_null: false,
                    max_length: Option::None,
                    min_length: Option::None,
                    allow_empty: true,
                    regex: Option::None,
                    error_max_length: Option::None,
                    error_min_length: Option::None,
                    error_required: Option::None,
                    error_allow_null: Option::None,
                    error_allow_empty: Option::None,
                    error_regex: Option::None,
                    ignore: false,
                    ignore_in_update: false,
                    ignore_in_insert: false,
                    ignore_in_delete: false,
                };
                fields.push(
                    FieldMeta {
                        column: cm.clone(),
                        field_type: d.field_type,
                        optional: d.optional,
                        is_key: true,
                        is_identity: k.is_identity,
                        key_ignore_in_update: k.ignore_in_update,
                        key_ignore_in_insert: k.ignore_in_insert,
                    },
                );
                columns.push(cm);
            },
        }
        i += 1;
    }
    proof {
        assert(decl.fields@.take(decl.fields@.len() as int) =~= decl.fields@);
    }
    EntityMeta {
        table: TableMeta {
            name: decl.table_name.clone(),
            schema: clone_opt_string(&decl.schema),
            columns,
            keys,
            relations,
        },
        fields,
    }
}

} // verus!
