//! Per-record-type static descriptors: table identity, column, key and
//! relation metadata, and the capability traits a record type may offer.

use vstd::prelude::*;

use crate::params::Guid;
use crate::params::PlaceholderStyle;
use crate::params::SqlParam;

verus! {

/// Which database engine a connection talks to.
#[derive(Clone, Copy, Debug, PartialEq, Eq, Structural)]
pub enum DbKind {
    Mssql,
    Postgres,
}

impl DbKind {
    /// The placeholder dialect the engine expects.
    pub fn style(self) -> (r: PlaceholderStyle)
        ensures
            r == (match self {
                DbKind::Mssql => PlaceholderStyle::AtP,
                DbKind::Postgres => PlaceholderStyle::Dollar,
            }),
    {
        match self {
            DbKind::Mssql => PlaceholderStyle::AtP,
            DbKind::Postgres => PlaceholderStyle::Dollar,
        }
    }
}

/// A column descriptor: name, constraints, validation rules, custom error
/// messages, and per-operation exclusion flags.
#[derive(Debug)]
pub struct ColumnMeta {
    pub name: String,
    pub required: bool,
    pub allow_null: bool,
    pub max_length: Option<usize>,
    pub min_length: Option<usize>,
    pub allow_empty: bool,
    pub regex: Option<String>,
    pub error_max_length: Option<String>,
    pub error_min_length: Option<String>,
    pub error_required: Option<String>,
    pub error_allow_null: Option<String>,
    pub error_allow_empty: Option<String>,
    pub error_regex: Option<String>,
    pub ignore: bool,
    pub ignore_in_update: bool,
    pub ignore_in_insert: bool,
    pub ignore_in_delete: bool,
}

/// A key descriptor.  An identity key's value is assigned by the database
/// and is excluded from INSERT.
#[derive(Debug)]
pub struct KeyMeta {
    pub column: String,
    pub is_identity: bool,
    pub ignore_in_update: bool,
    pub ignore_in_insert: bool,
}

/// Foreign-key linkage metadata; carried for tooling, never consumed by
/// statement generation.
#[derive(Debug)]
pub struct RelationMeta {
    pub name: String,
    pub foreign_key: String,
    pub table: String,
    pub table_number: Option<u32>,
    pub ignore_in_update: bool,
    pub ignore_in_insert: bool,
}

/// Table identity plus the column, key and relation descriptors of one
/// record type.
#[derive(Debug)]
pub struct TableMeta {
    pub name: String,
    pub schema: Option<String>,
    pub columns: Vec<ColumnMeta>,
    pub keys: Vec<KeyMeta>,
    pub relations: Vec<RelationMeta>,
}

/// Copies an optional string, preserving the value exactly.
pub fn clone_opt_string(o: &Option<String>) -> (r: Option<String>)
    ensures
        r == *o,
{
    match o {
        Option::Some(s) => Option::Some(s.clone()),
        Option::None => Option::None,
    }
}

impl Clone for ColumnMeta {
    /// A clone of a column descriptor equals the original.
    fn clone(&self) -> (res: Self)
        ensures
            res == *self,
    {
        ColumnMeta {
            name: self.name.clone(),
            required: self.required,
            allow_null: self.allow_null,
            max_length: self.max_length,
            min_length: self.min_length,
            allow_empty: self.allow_empty,
            regex: clone_opt_string(&self.regex),
            error_max_length: clone_opt_string(&self.error_max_length),
            error_min_length: clone_opt_string(&self.error_min_length),
            error_required: clone_opt_string(&self.error_required),
            error_allow_null: clone_opt_string(&self.error_allow_null),
            error_allow_empty: clone_opt_string(&self.error_allow_empty),
            error_regex: clone_opt_string(&self.error_regex),
            ignore: self.ignore,
            ignore_in_update: self.ignore_in_update,
            ignore_in_insert: self.ignore_in_insert,
            ignore_in_delete: self.ignore_in_delete,
        }
    }
}

/// A record type bound to exactly one table.
pub trait Entity {
    fn table() -> TableMeta;
}

/// Field-level rule checks that collect human-readable violation messages.
pub trait Validatable {
    fn validate(&self) -> Result<(), Vec<String>>;
}

/// Statement shapes a persistable record type offers: INSERT, UPDATE,
/// DELETE, and delete by the first declared key.
pub trait Persistable {
    fn build_insert(&self, style: PlaceholderStyle) -> (String, Vec<SqlParam>, bool);

    fn build_update(&self, style: PlaceholderStyle) -> (String, Vec<SqlParam>);

    fn build_delete(&self, style: PlaceholderStyle) -> (String, Vec<SqlParam>);

    fn build_delete_by_key(key: SqlParam, style: PlaceholderStyle) -> (String, Vec<SqlParam>);
}

/// Typed extraction of an integer-valued first key.
pub trait KeyAsInt {
    fn key(&self) -> i32;
}

/// Typed extraction of a GUID-valued first key.
pub trait KeyAsGuid {
    fn key(&self) -> Guid;
}

/// Typed extraction of a text-valued first key.
pub trait KeyAsString {
    fn key(&self) -> String;
}

} // verus!
