use rquery_orm::{
    col, derive_entity, val, ColumnAnn, Dec, DecodeError, EntityDecl, FieldAnn, FieldDecl,
    FieldType, FieldValue, Guid, KeyAnn, PlaceholderStyle, Query, Row, RowCell, SqlParam,
    Timestamp,
};

fn plain_column(name: &str, ft: FieldType) -> FieldDecl {
    FieldDecl {
        field_name: name.to_string(),
        field_type: ft,
        optional: false,
        ann: FieldAnn::Column(ColumnAnn::new()),
    }
}

fn cell(name: &str, value: SqlParam) -> RowCell {
    RowCell { name: name.to_string(), value }
}

#[test]
fn like_and_in_list_append_their_values_first() {
    let e = col("x")
        .in_list(vec![val(1), val(2)])
        .and(col("y").like(val("a%")));
    let mut ps = vec![];
    let sql = e.to_sql_with(PlaceholderStyle::Dollar, &mut ps);
    assert_eq!(sql, "x IN ($1, $2) AND (y LIKE $3)");
    assert_eq!(
        ps,
        vec![
            SqlParam::I32(1),
            SqlParam::I32(2),
            SqlParam::Text("a%".to_string())
        ]
    );
}

#[test]
fn recompiling_a_tree_reproduces_text_and_values() {
    let e = col("a").eq(val(10)).or(col("b").ne(val("z")));
    let mut p1 = vec![];
    let mut p2 = vec![];
    let s1 = e.to_sql_with(PlaceholderStyle::AtP, &mut p1);
    let s2 = e.to_sql_with(PlaceholderStyle::AtP, &mut p2);
    assert_eq!(s1, s2);
    assert_eq!(p1, p2);
    assert_eq!(s1, "(a = @P1) OR (b <> @P2)");
}

#[test]
fn ordinals_continue_over_a_shared_list() {
    let first = col("a").lt(val(1));
    let second = col("b").ge(val(2));
    let mut ps = vec![];
    let s1 = first.to_sql_with(PlaceholderStyle::Dollar, &mut ps);
    let s2 = second.to_sql_with(PlaceholderStyle::Dollar, &mut ps);
    assert_eq!(s1, "(a < $1)");
    assert_eq!(s2, "(b >= $2)");
    assert_eq!(ps, vec![SqlParam::I32(1), SqlParam::I32(2)]);
}

#[test]
fn group_always_parenthesizes() {
    let e = col("a").eq(val(1)).group();
    let mut ps = vec![];
    let sql = e.to_sql_with(PlaceholderStyle::Dollar, &mut ps);
    assert_eq!(sql, "((a = $1))");
}

#[test]
fn optional_values_bind_null() {
    let e = col("a").eq(val(Option::<i32>::None));
    let mut ps = vec![];
    let sql = e.to_sql_with(PlaceholderStyle::Dollar, &mut ps);
    assert_eq!(sql, "(a = $1)");
    assert_eq!(ps, vec![SqlParam::Null]);
}

#[test]
fn two_digit_placeholders_render_fully() {
    let items: Vec<_> = (1..=12).map(val).collect();
    let e = col("n").in_list(items);
    let mut ps = vec![];
    let sql = e.to_sql_with(PlaceholderStyle::AtP, &mut ps);
    assert!(sql.ends_with("@P10, @P11, @P12)"));
    assert_eq!(ps.len(), 12);
}

#[test]
fn top_is_leading_for_atp_and_trailing_for_dollar() {
    let (mssql, _) = Query::new("T", PlaceholderStyle::AtP).Top(3).to_sql();
    assert_eq!(mssql, "SELECT TOP(3) * FROM T");
    let (pg, _) = Query::new("T", PlaceholderStyle::Dollar).Top(3).to_sql();
    assert_eq!(pg, "SELECT * FROM T LIMIT 3");
}

#[test]
fn multiple_where_calls_and_combine() {
    let q = Query::new("T", PlaceholderStyle::Dollar)
        .Where(col("a").eq(val(1)))
        .Where(col("b").eq(val(2)));
    let (sql, params) = q.to_sql();
    assert_eq!(sql, "SELECT * FROM T WHERE (a = $1) AND (b = $2)");
    assert_eq!(params, vec![SqlParam::I32(1), SqlParam::I32(2)]);
}

fn inventory_decl() -> EntityDecl {
    EntityDecl {
        table_name: "Inventory".to_string(),
        schema: None,
        fields: vec![
            FieldDecl {
                field_name: "item_id".to_string(),
                field_type: FieldType::Int32,
                optional: false,
                ann: FieldAnn::Key(KeyAnn {
                    name: None,
                    is_identity: true,
                    ignore_in_update: false,
                    ignore_in_insert: false,
                }),
            },
            plain_column("label", FieldType::Text),
            plain_column("count", FieldType::Int64),
            plain_column("active", FieldType::Boolean),
            plain_column("uid", FieldType::Uuid),
            plain_column("price", FieldType::Decimal),
            plain_column("added", FieldType::Timestamp),
            plain_column("blob", FieldType::Bytes),
            FieldDecl {
                field_name: "note".to_string(),
                field_type: FieldType::Text,
                optional: true,
                ann: FieldAnn::Column(ColumnAnn::new()),
            },
        ],
    }
}

fn inventory_record() -> Vec<FieldValue> {
    vec![
        FieldValue::IntVal(0),
        FieldValue::TextVal("bolt".to_string()),
        FieldValue::LongVal(42),
        FieldValue::BoolVal(true),
        FieldValue::GuidVal(Guid { bits: 7 }),
        FieldValue::DecimalVal(Dec { mantissa: 1999, scale: 2 }),
        FieldValue::TimeVal(Timestamp { secs: 86400, nanos: 5 }),
        FieldValue::BytesVal(vec![1, 2, 3]),
        FieldValue::NoneVal,
    ]
}

#[test]
fn insert_then_decode_round_trips_every_non_identity_field() {
    let em = derive_entity(&inventory_decl());
    let record = inventory_record();
    let (_, params, _) = em.build_insert(&record, PlaceholderStyle::Dollar);
    let names = ["label", "count", "active", "uid", "price", "added", "blob", "note"];
    assert_eq!(params.len(), names.len());
    let mut cells: Vec<RowCell> = names
        .iter()
        .zip(params.into_iter())
        .map(|(n, p)| cell(n, p))
        .collect();
    // the identity column is not part of the insert pairing; the row
    // carries whatever value the store assigned
    cells.push(cell("item_id", SqlParam::I32(17)));
    let row = Row { cells };
    let decoded = em.decode(&row).unwrap();
    assert_eq!(decoded[0], FieldValue::IntVal(17));
    assert_eq!(decoded[1..], record[1..]);
}

#[test]
fn decode_reports_a_missing_column() {
    let em = derive_entity(&inventory_decl());
    let row = Row { cells: vec![cell("item_id", SqlParam::I32(1))] };
    assert_eq!(
        em.decode(&row),
        Err(DecodeError::MissingColumn("label".to_string()))
    );
}

#[test]
fn decode_rejects_null_in_a_required_field() {
    let em = derive_entity(&EntityDecl {
        table_name: "T".to_string(),
        schema: None,
        fields: vec![plain_column("x", FieldType::Int32)],
    });
    let row = Row { cells: vec![cell("x", SqlParam::Null)] };
    assert_eq!(em.decode(&row), Err(DecodeError::NullValue("x".to_string())));
}

#[test]
fn decode_rejects_a_type_mismatch() {
    let em = derive_entity(&EntityDecl {
        table_name: "T".to_string(),
        schema: None,
        fields: vec![plain_column("x", FieldType::Int32)],
    });
    let row = Row { cells: vec![cell("x", SqlParam::Text("oops".to_string()))] };
    assert_eq!(
        em.decode(&row),
        Err(DecodeError::TypeMismatch("x".to_string()))
    );
}

#[test]
fn decode_maps_null_to_absent_for_optional_fields() {
    let em = derive_entity(&EntityDecl {
        table_name: "T".to_string(),
        schema: None,
        fields: vec![FieldDecl {
            field_name: "note".to_string(),
            field_type: FieldType::Text,
            optional: true,
            ann: FieldAnn::Column(ColumnAnn::new()),
        }],
    });
    let row = Row { cells: vec![cell("note", SqlParam::Null)] };
    assert_eq!(em.decode(&row).unwrap(), vec![FieldValue::NoneVal]);
}

#[test]
fn decode_with_prefix_reads_prefixed_columns() {
    let em = derive_entity(&EntityDecl {
        table_name: "T".to_string(),
        schema: None,
        fields: vec![plain_column("name", FieldType::Text)],
    });
    let row = Row {
        cells: vec![
            cell("name", SqlParam::Text("other".to_string())),
            cell("E_name", SqlParam::Text("mine".to_string())),
        ],
    };
    let decoded = em.decode_with_prefix(&row, "E").unwrap();
    assert_eq!(decoded, vec![FieldValue::TextVal("mine".to_string())]);
}

#[test]
fn decode_takes_the_first_cell_with_a_name() {
    let em = derive_entity(&EntityDecl {
        table_name: "T".to_string(),
        schema: None,
        fields: vec![plain_column("x", FieldType::Int32)],
    });
    let row = Row {
        cells: vec![cell("x", SqlParam::I32(1)), cell("x", SqlParam::I32(2))],
    };
    assert_eq!(em.decode(&row).unwrap(), vec![FieldValue::IntVal(1)]);
}
