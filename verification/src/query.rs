//! The fluent query builder: table, joins, filters, ordering and row
//! limit, composed with the expression compiler into a full SELECT.
//!
//! The row-limit clause is dialect-dependent: the `@P` dialect writes a
//! leading `TOP(n)` right after `SELECT`, the `$` dialect a trailing
//! `LIMIT n`.

use vstd::prelude::*;
use vstd::string::StringExecFns;

use crate::digits::dec_int;
use crate::digits::i64_to_string;
use crate::expr::expr_params;
use crate::expr::expr_sql;
use crate::expr::Expr;
use crate::params::views_of;
use crate::params::ParamView;
use crate::params::PlaceholderStyle;
use crate::params::SqlParam;

verus! {

/// The kind of a join clause.
#[derive(Clone, Copy, Debug, PartialEq, Eq, Structural)]
pub enum JoinType {
    Inner,
    Left,
    Right,
    Full,
}

impl JoinType {
    /// The SQL keywords of the join kind.
    pub open spec fn spec_sql(self) -> Seq<char> {
        match self {
            JoinType::Inner => "INNER JOIN"@,
            JoinType::Left => "LEFT JOIN"@,
            JoinType::Right => "RIGHT JOIN"@,
            JoinType::Full => "FULL JOIN"@,
        }
    }

    pub fn to_sql(self) -> (r: &'static str)
        ensures
            r@ == self.spec_sql(),
    {
        match self {
            JoinType::Inner => "INNER JOIN",
            JoinType::Left => "LEFT JOIN",
            JoinType::Right => "RIGHT JOIN",
            JoinType::Full => "FULL JOIN",
        }
    }
}

/// One accumulated join: its kind, the joined table text, and the ON
/// expression.
#[derive(Debug)]
pub struct JoinClause {
    pub join_type: JoinType,
    pub table: String,
    pub on: Expr,
}

/// A fluent accumulator for a SELECT over one table.
#[derive(Debug)]
pub struct Query {
    pub table: String,
    pub style: PlaceholderStyle,
    pub joins: Vec<JoinClause>,
    pub filters: Vec<Expr>,
    pub order_by: Option<String>,
    pub top: Option<i64>,
}

/// The parameter values the joins append, in join order.
pub open spec fn joins_params(js: Seq<JoinClause>) -> Seq<ParamView>
    decreases js.len(),
{
    if js.len() == 0 {
        Seq::empty()
    } else {
        joins_params(js.drop_last()) + expr_params(js.last().on)
    }
}

/// The parameter values the filters append, in filter order.
pub open spec fn filters_params(es: Seq<Expr>) -> Seq<ParamView>
    decreases es.len(),
{
    if es.len() == 0 {
        Seq::empty()
    } else {
        filters_params(es.drop_last()) + expr_params(es.last())
    }
}

/// The SELECT head: under the `@P` dialect a row limit becomes a leading
/// `TOP(n)` modifier; the `$` dialect leaves the head bare.
pub open spec fn spec_query_head(q: Query) -> Seq<char> {
    match q.style {
        PlaceholderStyle::AtP => match q.top {
            Option::Some(n) => "SELECT TOP("@ + dec_int(n as int) + ") * FROM "@ + q.table@,
            Option::None => "SELECT * FROM "@ + q.table@,
        },
        PlaceholderStyle::Dollar => "SELECT * FROM "@ + q.table@,
    }
}

/// The join clauses' text, with parameter ordinals continuing from `k`.
pub open spec fn spec_joins_sql(js: Seq<JoinClause>, style: PlaceholderStyle, k: int) -> Seq<char>
    decreases js.len(),
{
    if js.len() == 0 {
        Seq::empty()
    } else {
        spec_joins_sql(js.drop_last(), style, k) + " "@ + js.last().join_type.spec_sql() + " "@
            + js.last().table@ + " ON "@ + expr_sql(
            js.last().on,
            style,
            k + joins_params(js.drop_last()).len(),
        )
    }
}

/// The filters' text: `WHERE` before the first, `AND` before each
/// further one — multiple `Where` calls AND-combine as separate
/// top-level predicates.
pub open spec fn spec_filters_sql(es: Seq<Expr>, style: PlaceholderStyle, k: int) -> Seq<char>
    decreases es.len(),
{
    if es.len() == 0 {
        Seq::empty()
    } else {
        let kw: Seq<char> = if es.len() == 1 { " WHERE "@ } else { " AND "@ };
        spec_filters_sql(es.drop_last(), style, k) + kw + expr_sql(
            es.last(),
            style,
            k + filters_params(es.drop_last()).len(),
        )
    }
}

/// The ORDER BY clause, when ordering was requested.
pub open spec fn spec_order_sql(q: Query) -> Seq<char> {
    match q.order_by {
        Option::Some(ob) => " ORDER BY "@ + ob@,
        Option::None => Seq::empty(),
    }
}

/// The trailing LIMIT clause: only the `$` dialect writes one.
pub open spec fn spec_limit_sql(q: Query) -> Seq<char> {
    match q.top {
        Option::Some(n) => if q.style == PlaceholderStyle::Dollar {
            " LIMIT "@ + dec_int(n as int)
        } else {
            Seq::empty()
        },
        Option::None => Seq::empty(),
    }
}

/// The full SELECT text.
pub open spec fn spec_query_sql(q: Query) -> Seq<char> {
    spec_query_head(q) + spec_joins_sql(q.joins@, q.style, 0) + spec_filters_sql(
        q.filters@,
        q.style,
        joins_params(q.joins@).len() as int,
    ) + spec_order_sql(q) + spec_limit_sql(q)
}

/// The full parameter list: join parameters first, filter parameters
/// after, each group in accumulation order.
pub open spec fn spec_query_params(q: Query) -> Seq<ParamView> {
    joins_params(q.joins@) + filters_params(q.filters@)
}

#[allow(non_snake_case)]
impl Query {
    /// A fresh query over `table` under the given dialect.
    pub fn new(table: &str, style: PlaceholderStyle) -> (r: Query)
        ensures
            r.table@ == table@,
            r.style == style,
            r.joins@ == Seq::<JoinClause>::empty(),
            r.filters@ == Seq::<Expr>::empty(),
            r.order_by is None,
            r.top is None,
    {
        let r = Query {
            table: table.to_owned(),
            style,
            joins: Vec::new(),
            filters: Vec::new(),
            order_by: Option::None,
            top: Option::None,
        };
        proof {
            assert(r.joins@ =~= Seq::<JoinClause>::empty());
            assert(r.filters@ =~= Seq::<Expr>::empty());
        }
        r
    }

    /// Adds one more top-level predicate; all accumulated predicates are
    /// ANDed.
    pub fn Where(self, expr: Expr) -> (r: Query)
        ensures
            r.table == self.table,
            r.style == self.style,
            r.joins@ == self.joins@,
            r.filters@ == self.filters@.push(expr),
            r.order_by == self.order_by,
            r.top == self.top,
    {
        let mut q = self;
        q.filters.push(expr);
        q
    }

    /// Adds a join clause.
    pub fn Join(self, join_type: JoinType, table: &str, on_expr: Expr) -> (r: Query)
        ensures
            r.table == self.table,
            r.style == self.style,
            r.joins@.len() == self.joins@.len() + 1,
            r.joins@.drop_last() == self.joins@,
            r.joins@.last().join_type == join_type,
            r.joins@.last().table@ == table@,
            r.joins@.last().on == on_expr,
            r.filters@ == self.filters@,
            r.order_by == self.order_by,
            r.top == self.top,
    {
        let mut q = self;
        q.joins.push(JoinClause { join_type, table: table.to_owned(), on: on_expr });
        proof {
            assert(q.joins@.drop_last() =~= self.joins@);
        }
        q
    }

    /// Sets the ordering text, written into the statement verbatim.
    pub fn OrderBy(self, ob: &str) -> (r: Query)
        ensures
            r.table == self.table,
            r.style == self.style,
            r.joins@ == self.joins@,
            r.filters@ == self.filters@,
            (r.order_by matches Option::Some(s) && s@ == ob@),
            r.top == self.top,
    {
        let mut q = self;
        q.order_by = Option::Some(ob.to_owned());
        q
    }

    /// Sets the row limit.
    pub fn Top(self, n: i64) -> (r: Query)
        ensures
            r.table == self.table,
            r.style == self.style,
            r.joins@ == self.joins@,
            r.filters@ == self.filters@,
            r.order_by == self.order_by,
            r.top == Option::Some(n),
    {
        let mut q = self;
        q.top = Option::Some(n);
        q
    }

    /// Lowers the accumulated query to its full SELECT text and ordered
    /// parameter list.
    pub fn to_sql(&self) -> (r: (String, Vec<SqlParam>))
        ensures
            r.0@ == spec_query_sql(*self),
            views_of(r.1@) == spec_query_params(*self),
    {
        let mut params: Vec<SqlParam> = Vec::new();
        let mut sql: String = match self.style {
            PlaceholderStyle::AtP => {
                match self.top {
                    Option::Some(n) => {
                        let mut s = "SELECT TOP(".to_owned();
                        let d = i64_to_string(n);
                        s.append(d.as_str());
                        s.append(") * FROM ");
                        s.append(self.table.as_str());
                        s
                    },
                    Option::None => {
                        let mut s = "SELECT * FROM ".to_owned();
                        s.append(self.table.as_str());
                        s
                    },
                }
            },
            PlaceholderStyle::Dollar => {
                let mut s = "SELECT * FROM ".to_owned();
                s.append(self.table.as_str());
                s
            },
        };
        let ghost js = self.joins@;
        let ghost es = self.filters@;
        proof {
            assert(js.take(0) =~= Seq::<JoinClause>::empty());
            assert(views_of(params@) =~= Seq::<ParamView>::empty());
            assert(sql@ =~= spec_query_head(*self) + spec_joins_sql(js.take(0), self.style, 0));
        }
        let mut i: usize = 0;
        while i < self.joins.len()
            invariant
                0 <= i <= js.len(),
                js == self.joins@,
                sql@ == spec_query_head(*self) + spec_joins_sql(js.take(i as int), self.style, 0),
                views_of(params@) == joins_params(js.take(i as int)),
                params@.len() == joins_params(js.take(i as int)).len(),
            decreases js.len() - i,
        {
            let j = &self.joins[i];
            proof {
                assert(js.take(i + 1).drop_last() =~= js.take(i as int));
                assert(js.take(i + 1).last() == js[i as int]);
            }
            sql.append(" ");
            sql.append(j.join_type.to_sql());
            sql.append(" ");
            sql.append(j.table.as_str());
            sql.append(" ON ");
            let e = j.on.to_sql_with(self.style, &mut params);
            sql.append(e.as_str());
            proof {
                assert(sql@ =~= spec_query_head(*self) + spec_joins_sql(
                    js.take(i + 1),
                    self.style,
                    0,
                ));
                assert(views_of(params@) =~= joins_params(js.take(i + 1)));
            }
            i += 1;
        }
        proof {
            assert(js.take(js.len() as int) =~= js);
            assert(es.take(0) =~= Seq::<Expr>::empty());
        }
        let ghost base = joins_params(js).len() as int;
        let mut i: usize = 0;
        while i < self.filters.len()
            invariant
                0 <= i <= es.len(),
                js == self.joins@,
                es == self.filters@,
                base == joins_params(js).len(),
                sql@ == spec_query_head(*self) + spec_joins_sql(js, self.style, 0)
                    + spec_filters_sql(es.take(i as int), self.style, base),
                views_of(params@) == joins_params(js) + filters_params(es.take(i as int)),
                params@.len() == base + filters_params(es.take(i as int)).len(),
            decreases es.len() - i,
        {
            let f = &self.filters[i];
            proof {
                assert(es.take(i + 1).drop_last() =~= es.take(i as int));
                assert(es.take(i + 1).last() == es[i as int]);
            }
            if i == 0 {
                sql.append(" WHERE ");
            } else {
                sql.append(" AND ");
            }
            let e = f.to_sql_with(self.style, &mut params);
            sql.append(e.as_str());
            proof {
                assert(sql@ =~= spec_query_head(*self) + spec_joins_sql(js, self.style, 0)
                    + spec_filters_sql(es.take(i + 1), self.style, base));
                assert(views_of(params@) =~= joins_params(js) + filters_params(es.take(i + 1)));
                assert(views_of(params@).len() == params@.len());
            }
            i += 1;
        }
        proof {
            assert(es.take(es.len() as int) =~= es);
        }
        match &self.order_by {
            Option::Some(ob) => {
                sql.append(" ORDER BY ");
                sql.append(ob.as_str());
            },
            Option::None => (),
        }
        match self.top {
            Option::Some(n) => {
                if matches!(self.style, PlaceholderStyle::Dollar) {
                    sql.append(" LIMIT ");
                    let d = i64_to_string(n);
                    sql.append(d.as_str());
                }
            },
            Option::None => (),
        }
        proof {
            assert(sql@ =~= spec_query_sql(*self));
            assert(views_of(params@) =~= spec_query_params(*self));
        }
        (sql, params)
    }
}

} // verus!
