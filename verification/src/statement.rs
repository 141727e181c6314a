//! The statement generator: INSERT, UPDATE and DELETE statement text and
//! ordered parameter lists, derived from a record type's metadata.
//!
//! Placeholder numbering always restarts at 1 per generated statement and,
//! for UPDATE, runs continuously across the SET list and the WHERE list.

use vstd::prelude::*;
use vstd::string::StringExecFns;

use crate::entity::lemma_first_key_found;
use crate::entity::spec_first_key_col;
use crate::entity::EntityMeta;
use crate::entity::FieldMeta;
use crate::expr::ph_list;
use crate::params::placeholder;
use crate::params::spec_placeholder;
use crate::params::views_of;
use crate::params::ParamView;
use crate::params::PlaceholderStyle;
use crate::params::SqlParam;
use crate::record::field_param;
use crate::record::field_views;
use crate::record::spec_field_param;
use crate::record::FieldValue;
use crate::record::FieldView;

verus! {

/// A field's value is inserted unless the field is an identity key or
/// excluded by an ignore flag.
pub open spec fn insert_eligible(f: FieldMeta) -> bool {
    !f.is_identity && !f.column.ignore && !f.column.ignore_in_insert && !f.key_ignore_in_insert
}

/// A field joins the UPDATE SET list when it is a non-key column not
/// excluded by an ignore flag.
pub open spec fn update_set_eligible(f: FieldMeta) -> bool {
    !f.is_key && !f.column.ignore && !f.column.ignore_in_update
}

/// A field joins the UPDATE and DELETE WHERE lists when it is a key not
/// excluded from updates.
pub open spec fn key_where_eligible(f: FieldMeta) -> bool {
    f.is_key && !f.key_ignore_in_update
}

/// Comma-joined text parts.
pub open spec fn join_comma(parts: Seq<Seq<char>>) -> Seq<char>
    decreases parts.len(),
{
    if parts.len() == 0 {
        Seq::empty()
    } else {
        let sep: Seq<char> = if parts.len() == 1 { Seq::empty() } else { ", "@ };
        join_comma(parts.drop_last()) + sep + parts.last()
    }
}

/// The column names of the insert-eligible fields, in declaration order.
pub open spec fn spec_insert_cols(fs: Seq<FieldMeta>) -> Seq<Seq<char>>
    decreases fs.len(),
{
    if fs.len() == 0 {
        Seq::empty()
    } else {
        spec_insert_cols(fs.drop_last()) + (if insert_eligible(fs.last()) {
            seq![fs.last().column.name@]
        } else {
            Seq::empty()
        })
    }
}

/// The parameter values of the insert-eligible fields, in declaration
/// order.
pub open spec fn spec_insert_params(fs: Seq<FieldMeta>, vs: Seq<FieldView>) -> Seq<ParamView>
    decreases fs.len(),
{
    if fs.len() == 0 {
        Seq::empty()
    } else {
        spec_insert_params(fs.drop_last(), vs.drop_last()) + (if insert_eligible(fs.last()) {
            seq![spec_field_param(vs.last())]
        } else {
            Seq::empty()
        })
    }
}

/// Whether the metadata declares at least one identity key.
pub open spec fn spec_has_identity(fs: Seq<FieldMeta>) -> bool
    decreases fs.len(),
{
    if fs.len() == 0 {
        false
    } else {
        spec_has_identity(fs.drop_last()) || (fs.last().is_key && fs.last().is_identity)
    }
}

/// The text of one assignment: `<name> = <placeholder n>`.
pub open spec fn eq_item(name: Seq<char>, style: PlaceholderStyle, n: int) -> Seq<char> {
    name + " = "@ + spec_placeholder(style, n)
}

/// Assignments over `cols` joined by `sep`, with placeholder ordinals
/// running from `base + 1`.
pub open spec fn spec_assign_list(
    cols: Seq<Seq<char>>,
    style: PlaceholderStyle,
    base: int,
    sep: Seq<char>,
) -> Seq<char>
    decreases cols.len(),
{
    if cols.len() == 0 {
        Seq::empty()
    } else {
        let s: Seq<char> = if cols.len() == 1 { Seq::empty() } else { sep };
        spec_assign_list(cols.drop_last(), style, base, sep) + s + eq_item(
            cols.last(),
            style,
            base + cols.len(),
        )
    }
}

/// The column names of the UPDATE SET list, in declaration order.
pub open spec fn spec_set_cols(fs: Seq<FieldMeta>) -> Seq<Seq<char>>
    decreases fs.len(),
{
    if fs.len() == 0 {
        Seq::empty()
    } else {
        spec_set_cols(fs.drop_last()) + (if update_set_eligible(fs.last()) {
            seq![fs.last().column.name@]
        } else {
            Seq::empty()
        })
    }
}

/// The parameter values of the UPDATE SET list, in declaration order.
pub open spec fn spec_set_params(fs: Seq<FieldMeta>, vs: Seq<FieldView>) -> Seq<ParamView>
    decreases fs.len(),
{
    if fs.len() == 0 {
        Seq::empty()
    } else {
        spec_set_params(fs.drop_last(), vs.drop_last()) + (if update_set_eligible(fs.last()) {
            seq![spec_field_param(vs.last())]
        } else {
            Seq::empty()
        })
    }
}

/// The column names of the key WHERE list, in declaration order.
pub open spec fn spec_where_cols(fs: Seq<FieldMeta>) -> Seq<Seq<char>>
    decreases fs.len(),
{
    if fs.len() == 0 {
        Seq::empty()
    } else {
        spec_where_cols(fs.drop_last()) + (if key_where_eligible(fs.last()) {
            seq![fs.last().column.name@]
        } else {
            Seq::empty()
        })
    }
}

/// The parameter values of the key WHERE list, in declaration order.
pub open spec fn spec_where_params(fs: Seq<FieldMeta>, vs: Seq<FieldView>) -> Seq<ParamView>
    decreases fs.len(),
{
    if fs.len() == 0 {
        Seq::empty()
    } else {
        spec_where_params(fs.drop_last(), vs.drop_last()) + (if key_where_eligible(fs.last()) {
            seq![spec_field_param(vs.last())]
        } else {
            Seq::empty()
        })
    }
}

/// The full UPDATE statement text: placeholder numbering is continuous
/// across the SET list and the WHERE list.
pub open spec fn spec_update_sql(em: EntityMeta, style: PlaceholderStyle) -> Seq<char> {
    "UPDATE "@ + em.table.name@ + " SET "@ + spec_assign_list(
        spec_set_cols(em.fields@),
        style,
        0,
        ", "@,
    ) + " WHERE "@ + spec_assign_list(
        spec_where_cols(em.fields@),
        style,
        spec_set_cols(em.fields@).len() as int,
        " AND "@,
    )
}

/// The full DELETE statement text.
pub open spec fn spec_delete_sql(em: EntityMeta, style: PlaceholderStyle) -> Seq<char> {
    "DELETE FROM "@ + em.table.name@ + " WHERE "@ + spec_assign_list(
        spec_where_cols(em.fields@),
        style,
        0,
        " AND "@,
    )
}

/// The full delete-by-key statement text: it always targets the first
/// declared key column, whatever keys follow it.
pub open spec fn spec_delete_by_key_sql(em: EntityMeta, style: PlaceholderStyle) -> Seq<char> {
    "DELETE FROM "@ + em.table.name@ + " WHERE "@ + spec_first_key_col(em.fields@) + " = "@
        + spec_placeholder(style, 1)
}

/// The full INSERT statement text.
pub open spec fn spec_insert_sql(em: EntityMeta, style: PlaceholderStyle) -> Seq<char> {
    "INSERT INTO "@ + em.table.name@ + " ("@ + join_comma(spec_insert_cols(em.fields@))
        + ") VALUES ("@ + ph_list(style, 0, spec_insert_cols(em.fields@).len()) + ")"@
}

impl EntityMeta {
    /// Builds the INSERT statement for a record: its eligible columns in
    /// declaration order, placeholders numbered from 1 in emission order,
    /// the parameter list pairing each placeholder with the record's
    /// value, and a flag telling whether an identity key exists (in which
    /// case the statement omits the server-assigned value).
    pub fn build_insert(&self, record: &Vec<FieldValue>, style: PlaceholderStyle) -> (r: (
        String,
        Vec<SqlParam>,
        bool,
    ))
        requires
            record@.len() == self.fields@.len(),
        ensures
            r.0@ == spec_insert_sql(*self, style),
            views_of(r.1@) == spec_insert_params(self.fields@, field_views(record@)),
            r.2 == spec_has_identity(self.fields@),
    {
        let ghost fs = self.fields@;
        let ghost vs = field_views(record@);
        let mut cols = String::new();
        let mut vals = String::new();
        let mut params: Vec<SqlParam> = Vec::new();
        let mut has_identity = false;
        let mut i: usize = 0;
        while i < self.fields.len()
            invariant
                i <= fs.len(),
                fs == self.fields@,
                vs == field_views(record@),
                record@.len() == fs.len(),
                params@.len() == spec_insert_cols(fs.take(i as int)).len(),
                cols@ == join_comma(spec_insert_cols(fs.take(i as int))),
                vals@ == ph_list(style, 0, params@.len() as nat),
                views_of(params@) == spec_insert_params(fs.take(i as int), vs.take(i as int)),
                has_identity == spec_has_identity(fs.take(i as int)),
            decreases fs.len() - i,
        {
            let f = &self.fields[i];
            proof {
                assert(fs.take(i + 1).drop_last() =~= fs.take(i as int));
                assert(vs.take(i + 1).drop_last() =~= vs.take(i as int));
                assert(fs.take(i + 1).last() == fs[i as int]);
                assert(vs.take(i + 1).last() == record@[i as int]@);
            }
            if f.is_key && f.is_identity {
                has_identity = true;
            }
            if !f.is_identity && !f.column.ignore && !f.column.ignore_in_insert
                && !f.key_ignore_in_insert {
                if params.len() > 0 {
                    cols.append(", ");
                    vals.append(", ");
                }
                cols.append(f.column.name.as_str());
                params.push(field_param(&record[i]));
                let ph = placeholder(style, params.len());
                vals.append(ph.as_str());
                proof {
                    assert(spec_insert_cols(fs.take(i + 1)).drop_last() =~= spec_insert_cols(
                        fs.take(i as int),
                    ));
                    assert(cols@ =~= join_comma(spec_insert_cols(fs.take(i + 1))));
                    assert(vals@ =~= ph_list(style, 0, params@.len() as nat));
                    assert(views_of(params@) =~= spec_insert_params(
                        fs.take(i + 1),
                        vs.take(i + 1),
                    ));
                }
            } else {
                proof {
                    assert(spec_insert_cols(fs.take(i + 1)) =~= spec_insert_cols(
                        fs.take(i as int),
                    ));
                    assert(views_of(params@) =~= spec_insert_params(
                        fs.take(i + 1),
                        vs.take(i + 1),
                    ));
                }
            }
            i += 1;
        }
        proof {
            assert(fs.take(fs.len() as int) =~= fs);
            assert(vs.take(vs.len() as int) =~= vs);
        }
        let mut sql = "INSERT INTO ".to_owned();
        sql.append(self.table.name.as_str());
        sql.append(" (");
        sql.append(cols.as_str());
        sql.append(") VALUES (");
        sql.append(vals.as_str());
        sql.append(")");
        (sql, params, has_identity)
    }

    /// Builds the UPDATE statement for a record: the eligible non-key
    /// columns as the SET list, the non-excluded keys ANDed as the WHERE
    /// list, placeholders numbered continuously across both.
    pub fn build_update(&self, record: &Vec<FieldValue>, style: PlaceholderStyle) -> (r: (
        String,
        Vec<SqlParam>,
    ))
        requires
            record@.len() == self.fields@.len(),
        ensures
            r.0@ == spec_update_sql(*self, style),
            views_of(r.1@) == spec_set_params(self.fields@, field_views(record@))
                + spec_where_params(self.fields@, field_views(record@)),
    {
        let ghost fs = self.fields@;
        let ghost vs = field_views(record@);
        let mut sets = String::new();
        let mut params: Vec<SqlParam> = Vec::new();
        let mut i: usize = 0;
        while i < self.fields.len()
            invariant
                i <= fs.len(),
                fs == self.fields@,
                vs == field_views(record@),
                record@.len() == fs.len(),
                params@.len() == spec_set_cols(fs.take(i as int)).len(),
                sets@ == spec_assign_list(spec_set_cols(fs.take(i as int)), style, 0, ", "@),
                views_of(params@) == spec_set_params(fs.take(i as int), vs.take(i as int)),
            decreases fs.len() - i,
        {
            let f = &self.fields[i];
            proof {
                assert(fs.take(i + 1).drop_last() =~= fs.take(i as int));
                assert(vs.take(i + 1).drop_last() =~= vs.take(i as int));
                assert(fs.take(i + 1).last() == fs[i as int]);
                assert(vs.take(i + 1).last() == record@[i as int]@);
            }
            if !f.is_key && !f.column.ignore && !f.column.ignore_in_update {
                if params.len() > 0 {
                    sets.append(", ");
                }
                sets.append(f.column.name.as_str());
                sets.append(" = ");
                params.push(field_param(&record[i]));
                let ph = placeholder(style, params.len());
                sets.append(ph.as_str());
                proof {
                    assert(spec_set_cols(fs.take(i + 1)).drop_last() =~= spec_set_cols(
                        fs.take(i as int),
                    ));
                    assert(sets@ =~= spec_assign_list(
                        spec_set_cols(fs.take(i + 1)),
                        style,
                        0,
                        ", "@,
                    ));
                    assert(views_of(params@) =~= spec_set_params(fs.take(i + 1), vs.take(i + 1)));
                }
            } else {
                proof {
                    assert(spec_set_cols(fs.take(i + 1)) =~= spec_set_cols(fs.take(i as int)));
                    assert(views_of(params@) =~= spec_set_params(fs.take(i + 1), vs.take(i + 1)));
                }
            }
            i += 1;
        }
        proof {
            assert(fs.take(fs.len() as int) =~= fs);
            assert(vs.take(vs.len() as int) =~= vs);
        }
        let nsets: usize = params.len();
        let mut wheres = String::new();
        let mut i: usize = 0;
        while i < self.fields.len()
            invariant
                i <= fs.len(),
                fs == self.fields@,
                vs == field_views(record@),
                record@.len() == fs.len(),
                nsets == spec_set_cols(fs).len(),
                nsets == spec_set_params(fs, vs).len(),
                params@.len() == nsets + spec_where_cols(fs.take(i as int)).len(),
                params@.len() == nsets + spec_where_params(
                    fs.take(i as int),
                    vs.take(i as int),
                ).len(),
                wheres@ == spec_assign_list(
                    spec_where_cols(fs.take(i as int)),
                    style,
                    nsets as int,
                    " AND "@,
                ),
                views_of(params@) == spec_set_params(fs, vs) + spec_where_params(
                    fs.take(i as int),
                    vs.take(i as int),
                ),
            decreases fs.len() - i,
        {
            let f = &self.fields[i];
            proof {
                assert(fs.take(i + 1).drop_last() =~= fs.take(i as int));
                assert(vs.take(i + 1).drop_last() =~= vs.take(i as int));
                assert(fs.take(i + 1).last() == fs[i as int]);
                assert(vs.take(i + 1).last() == record@[i as int]@);
            }
            if f.is_key && !f.key_ignore_in_update {
                if params.len() > nsets {
                    wheres.append(" AND ");
                }
                wheres.append(f.column.name.as_str());
                wheres.append(" = ");
                let ghost p0 = params@;
                params.push(field_param(&record[i]));
                let ph = placeholder(style, params.len());
                wheres.append(ph.as_str());
                proof {
                    assert(spec_where_cols(fs.take(i + 1)).drop_last() =~= spec_where_cols(
                        fs.take(i as int),
                    ));
                    assert(wheres@ =~= spec_assign_list(
                        spec_where_cols(fs.take(i + 1)),
                        style,
                        nsets as int,
                        " AND "@,
                    ));
                    let ghost rhs = spec_set_params(fs, vs) + spec_where_params(
                        fs.take(i + 1),
                        vs.take(i + 1),
                    );
                    assert(spec_where_params(fs.take(i + 1), vs.take(i + 1)) == spec_where_params(
                        fs.take(i as int),
                        vs.take(i as int),
                    ) + seq![spec_field_param(record@[i as int]@)]);
                    assert forall|j: int| 0 <= j < params@.len() implies views_of(params@)[j]
                        == rhs[j] by {
                        if j < p0.len() {
                            assert(views_of(p0)[j] == (spec_set_params(fs, vs) + spec_where_params(
                                fs.take(i as int),
                                vs.take(i as int),
                            ))[j]);
                        }
                    }
                    assert(views_of(params@) =~= rhs);
                }
            } else {
                proof {
                    assert(spec_where_cols(fs.take(i + 1)) =~= spec_where_cols(fs.take(i as int)));
                    assert(views_of(params@) =~= spec_set_params(fs, vs) + spec_where_params(
                        fs.take(i + 1),
                        vs.take(i + 1),
                    ));
                }
            }
            i += 1;
        }
        proof {
            assert(fs.take(fs.len() as int) =~= fs);
            assert(vs.take(vs.len() as int) =~= vs);
        }
        let mut sql = "UPDATE ".to_owned();
        sql.append(self.table.name.as_str());
        sql.append(" SET ");
        sql.append(sets.as_str());
        sql.append(" WHERE ");
        sql.append(wheres.as_str());
        (sql, params)
    }

    /// Builds the DELETE statement for a record: the WHERE list is built
    /// identically to the UPDATE WHERE list, with placeholders numbered
    /// from 1.
    pub fn build_delete(&self, record: &Vec<FieldValue>, style: PlaceholderStyle) -> (r: (
        String,
        Vec<SqlParam>,
    ))
        requires
            record@.len() == self.fields@.len(),
        ensures
            r.0@ == spec_delete_sql(*self, style),
            views_of(r.1@) == spec_where_params(self.fields@, field_views(record@)),
    {
        let ghost fs = self.fields@;
        let ghost vs = field_views(record@);
        let mut wheres = String::new();
        let mut params: Vec<SqlParam> = Vec::new();
        let mut i: usize = 0;
        while i < self.fields.len()
            invariant
                i <= fs.len(),
                fs == self.fields@,
                vs == field_views(record@),
                record@.len() == fs.len(),
                params@.len() == spec_where_cols(fs.take(i as int)).len(),
                wheres@ == spec_assign_list(
                    spec_where_cols(fs.take(i as int)),
                    style,
                    0,
                    " AND "@,
                ),
                views_of(params@) == spec_where_params(fs.take(i as int), vs.take(i as int)),
            decreases fs.len() - i,
        {
            let f = &self.fields[i];
            proof {
                assert(fs.take(i + 1).drop_last() =~= fs.take(i as int));
                assert(vs.take(i + 1).drop_last() =~= vs.take(i as int));
                assert(fs.take(i + 1).last() == fs[i as int]);
                assert(vs.take(i + 1).last() == record@[i as int]@);
            }
            if f.is_key && !f.key_ignore_in_update {
                if params.len() > 0 {
                    wheres.append(" AND ");
                }
                wheres.append(f.column.name.as_str());
                wheres.append(" = ");
                params.push(field_param(&record[i]));
                let ph = placeholder(style, params.len());
                wheres.append(ph.as_str());
                proof {
                    assert(spec_where_cols(fs.take(i + 1)).drop_last() =~= spec_where_cols(
                        fs.take(i as int),
                    ));
                    assert(wheres@ =~= spec_assign_list(
                        spec_where_cols(fs.take(i + 1)),
                        style,
                        0,
                        " AND "@,
                    ));
                    assert(views_of(params@) =~= spec_where_params(
                        fs.take(i + 1),
                        vs.take(i + 1),
                    ));
                }
            } else {
                proof {
                    assert(spec_where_cols(fs.take(i + 1)) =~= spec_where_cols(fs.take(i as int)));
                    assert(views_of(params@) =~= spec_where_params(
                        fs.take(i + 1),
                        vs.take(i + 1),
                    ));
                }
            }
            i += 1;
        }
        proof {
            assert(fs.take(fs.len() as int) =~= fs);
            assert(vs.take(vs.len() as int) =~= vs);
        }
        let mut sql = "DELETE FROM ".to_owned();
        sql.append(self.table.name.as_str());
        sql.append(" WHERE ");
        sql.append(wheres.as_str());
        (sql, params)
    }

    /// Builds the delete-by-key statement: it always targets the first
    /// declared key column's name, even when additional keys exist, and
    /// binds the given key value as the single parameter.
    pub fn build_delete_by_key(&self, key: SqlParam, style: PlaceholderStyle) -> (r: (
        String,
        Vec<SqlParam>,
    ))
        ensures
            r.0@ == spec_delete_by_key_sql(*self, style),
            views_of(r.1@) == seq![key@],
    {
        let name = self.first_key_column();
        let ph = placeholder(style, 1);
        let mut sql = "DELETE FROM ".to_owned();
        sql.append(self.table.name.as_str());
        sql.append(" WHERE ");
        sql.append(name.as_str());
        sql.append(" = ");
        sql.append(ph.as_str());
        let ghost kv = key@;
        let mut params: Vec<SqlParam> = Vec::new();
        params.push(key);
        proof {
            assert(views_of(params@) =~= seq![kv]);
        }
        (sql, params)
    }
}

/// An identity key exists exactly when some declared key field carries
/// the identity flag: the `has_identity` result of `build_insert` is true
/// if and only if such a field exists.
pub proof fn lemma_has_identity_iff(fs: Seq<FieldMeta>)
    ensures
        spec_has_identity(fs) <==> (exists|i: int|
            0 <= i < fs.len() && fs[i].is_key && fs[i].is_identity),
    decreases fs.len(),
{
    if fs.len() > 0 {
        lemma_has_identity_iff(fs.drop_last());
        if spec_has_identity(fs.drop_last()) {
            let i = choose|i: int|
                0 <= i < fs.drop_last().len() && fs.drop_last()[i].is_key
                    && fs.drop_last()[i].is_identity;
            assert(fs[i].is_key && fs[i].is_identity);
        }
        if exists|i: int| 0 <= i < fs.len() && fs[i].is_key && fs[i].is_identity {
            let i = choose|i: int| 0 <= i < fs.len() && fs[i].is_key && fs[i].is_identity;
            if i < fs.len() - 1 {
                assert(fs.drop_last()[i].is_key && fs.drop_last()[i].is_identity);
            }
        }
    }
}

/// An INSERT binds exactly one parameter per eligible column: the VALUES
/// list of `spec_insert_sql` carries one placeholder per emitted column,
/// numbered 1 upward in emission order.
pub proof fn lemma_insert_placeholder_count(fs: Seq<FieldMeta>, vs: Seq<FieldView>)
    requires
        vs.len() == fs.len(),
    ensures
        spec_insert_params(fs, vs).len() == spec_insert_cols(fs).len(),
    decreases fs.len(),
{
    if fs.len() > 0 {
        lemma_insert_placeholder_count(fs.drop_last(), vs.drop_last());
    }
}

/// Delete-by-key always targets the first declared key column's name,
/// even when additional keys exist, for any dialect.
pub proof fn lemma_delete_by_key_targets_first_key(em: EntityMeta, i: int, style: PlaceholderStyle)
    requires
        0 <= i < em.fields@.len(),
        em.fields@[i].is_key,
        forall|j: int| 0 <= j < i ==> !em.fields@[j].is_key,
    ensures
        spec_delete_by_key_sql(em, style) == "DELETE FROM "@ + em.table.name@ + " WHERE "@
            + em.fields@[i].column.name@ + " = "@ + spec_placeholder(style, 1),
{
    lemma_first_key_found(em.fields@, 0, i);
}

} // verus!
