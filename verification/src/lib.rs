//! A data-mapping library: an expression/query compiler and an
//! entity-metadata-driven statement generator for two SQL dialects.
//!
//! Record types are described once by a declarative [`entity::EntityDecl`];
//! from it the library derives table metadata, INSERT/UPDATE/DELETE statement
//! builders, a field-level validator and a row decoder.  A composable
//! expression tree lowers itself to parameterized SQL text with
//! dialect-correct placeholders.  Statement execution against a live store is
//! left to a thin unverified shell around this crate.

pub mod digits;
pub mod entity;
pub mod expr;
pub mod mapping;
pub mod params;
pub mod query;
pub mod record;
pub mod row;
pub mod statement;
pub mod validate;

pub use record::FieldValue;

pub use entity::derive_entity;
pub use entity::ColumnAnn;
pub use entity::EntityDecl;
pub use entity::EntityMeta;
pub use entity::FieldAnn;
pub use entity::FieldDecl;
pub use entity::FieldMeta;
pub use entity::FieldType;
pub use entity::KeyAnn;
pub use entity::RelationAnn;
pub use mapping::ColumnMeta;
pub use mapping::DbKind;
pub use mapping::Entity;
pub use mapping::KeyAsGuid;
pub use mapping::KeyAsInt;
pub use mapping::KeyAsString;
pub use mapping::KeyMeta;
pub use mapping::Persistable;
pub use mapping::RelationMeta;
pub use mapping::TableMeta;
pub use mapping::Validatable;

pub use expr::col;
pub use expr::val;
pub use expr::BinOp;
pub use expr::Expr;

pub use params::Dec;
pub use params::Guid;
pub use params::PlaceholderStyle;
pub use params::SqlParam;
pub use params::Timestamp;
pub use params::ToParam;

pub use entity::KeyKind;
pub use query::JoinClause;
pub use query::JoinType;
pub use query::Query;
pub use row::DecodeError;
pub use row::Row;
pub use row::RowCell;
