use rquery_orm::{col, val, JoinType, PlaceholderStyle, Query, SqlParam};

#[test]
fn expr_builds_and_params_order() {
    let e = col("E.Age").gt(val(30)).and(col("E.Active").eq(val(true)));
    let mut ps = vec![];
    let sql = e.to_sql_with(PlaceholderStyle::AtP, &mut ps);
    assert_eq!(sql, "(E.Age > @P1) AND (E.Active = @P2)");
    assert_eq!(ps.len(), 2);
}

#[test]
fn join_and_where_build_for_pg() {
    let q = Query::new("Employees E", PlaceholderStyle::Dollar)
        .Join(
            JoinType::Left,
            "Countries C",
            col("E.CountryId").eq(col("C.CountryId")),
        )
        .Where(col("E.CountryId").eq(val("Mex")))
        .OrderBy("E.Id")
        .Top(5);
    let (sql, params) = q.to_sql();
    assert!(sql.contains("LEFT JOIN Countries C ON (E.CountryId = C.CountryId)"));
    assert!(sql.contains("WHERE (E.CountryId = $1)"));
    assert!(sql.ends_with("ORDER BY E.Id LIMIT 5"));
    assert_eq!(params.len(), 1);
}

#[test]
fn full_query_chain_pg() {
    let q = Query::new("Employees", PlaceholderStyle::Dollar)
        .Join(
            JoinType::Left,
            "Countries C",
            col("Employees.CountryId").eq(col("C.CountryId")),
        )
        .Where(col("Employees.CountryId").eq(val("Mex")))
        .OrderBy("Employees.HireDate DESC")
        .Top(10);
    let (sql, params) = q.to_sql();
    assert_eq!(
        sql,
        "SELECT * FROM Employees LEFT JOIN Countries C ON (Employees.CountryId = C.CountryId) WHERE (Employees.CountryId = $1) ORDER BY Employees.HireDate DESC LIMIT 10",
    );
    assert_eq!(params, vec![SqlParam::Text("Mex".into())]);
}
