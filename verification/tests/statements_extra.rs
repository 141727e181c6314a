use rquery_orm::{
    derive_entity, ColumnAnn, DbKind, EntityDecl, FieldAnn, FieldDecl, FieldType, FieldValue,
    KeyAnn, KeyKind, PlaceholderStyle, SqlParam,
};

fn key_field(name: &str, ft: FieldType, is_identity: bool) -> FieldDecl {
    FieldDecl {
        field_name: name.to_string(),
        field_type: ft,
        optional: false,
        ann: FieldAnn::Key(KeyAnn {
            name: None,
            is_identity,
            ignore_in_update: false,
            ignore_in_insert: false,
        }),
    }
}

fn plain_column(name: &str, ft: FieldType) -> FieldDecl {
    FieldDecl {
        field_name: name.to_string(),
        field_type: ft,
        optional: false,
        ann: FieldAnn::Column(ColumnAnn::new()),
    }
}

#[test]
fn insert_with_zero_eligible_columns_is_still_wellformed() {
    let em = derive_entity(&EntityDecl {
        table_name: "Lone".to_string(),
        schema: None,
        fields: vec![key_field("id", FieldType::Int32, true)],
    });
    let record = vec![FieldValue::IntVal(1)];
    let (sql, params, has_identity) = em.build_insert(&record, PlaceholderStyle::Dollar);
    assert_eq!(sql, "INSERT INTO Lone () VALUES ()");
    assert_eq!(params.len(), 0);
    assert!(has_identity);
}

#[test]
fn insert_without_identity_reports_none() {
    let em = derive_entity(&EntityDecl {
        table_name: "T".to_string(),
        schema: None,
        fields: vec![
            key_field("code", FieldType::Text, false),
            plain_column("label", FieldType::Text),
        ],
    });
    let record = vec![
        FieldValue::TextVal("k1".to_string()),
        FieldValue::TextVal("hello".to_string()),
    ];
    let (sql, params, has_identity) = em.build_insert(&record, PlaceholderStyle::AtP);
    assert_eq!(sql, "INSERT INTO T (code, label) VALUES (@P1, @P2)");
    assert_eq!(
        params,
        vec![
            SqlParam::Text("k1".to_string()),
            SqlParam::Text("hello".to_string())
        ]
    );
    assert!(!has_identity);
}

#[test]
fn delete_by_key_targets_first_key_for_any_dialect() {
    let em = derive_entity(&EntityDecl {
        table_name: "Pairs".to_string(),
        schema: None,
        fields: vec![
            key_field("first_id", FieldType::Int32, false),
            key_field("second_id", FieldType::Int32, false),
        ],
    });
    let (sql_d, params_d) = em.build_delete_by_key(SqlParam::I32(5), PlaceholderStyle::Dollar);
    assert_eq!(sql_d, "DELETE FROM Pairs WHERE first_id = $1");
    assert_eq!(params_d, vec![SqlParam::I32(5)]);
    let (sql_m, params_m) = em.build_delete_by_key(SqlParam::I32(5), PlaceholderStyle::AtP);
    assert_eq!(sql_m, "DELETE FROM Pairs WHERE first_id = @P1");
    assert_eq!(params_m, vec![SqlParam::I32(5)]);
}

#[test]
fn update_numbers_placeholders_across_set_and_where() {
    let em = derive_entity(&EntityDecl {
        table_name: "Pairs".to_string(),
        schema: None,
        fields: vec![
            key_field("first_id", FieldType::Int32, false),
            key_field("second_id", FieldType::Int32, false),
            plain_column("x", FieldType::Int32),
            plain_column("y", FieldType::Int32),
        ],
    });
    let record = vec![
        FieldValue::IntVal(1),
        FieldValue::IntVal(2),
        FieldValue::IntVal(3),
        FieldValue::IntVal(4),
    ];
    let (sql, params) = em.build_update(&record, PlaceholderStyle::Dollar);
    assert_eq!(
        sql,
        "UPDATE Pairs SET x = $1, y = $2 WHERE first_id = $3 AND second_id = $4"
    );
    assert_eq!(
        params,
        vec![
            SqlParam::I32(3),
            SqlParam::I32(4),
            SqlParam::I32(1),
            SqlParam::I32(2)
        ]
    );
}

#[test]
fn key_capability_follows_first_key_type() {
    let int_meta = derive_entity(&EntityDecl {
        table_name: "A".to_string(),
        schema: None,
        fields: vec![key_field("id", FieldType::Int32, true)],
    });
    assert_eq!(int_meta.key_capability(), Some(KeyKind::IntKey));

    let text_meta = derive_entity(&EntityDecl {
        table_name: "B".to_string(),
        schema: None,
        fields: vec![key_field("code", FieldType::Text, false)],
    });
    assert_eq!(text_meta.key_capability(), Some(KeyKind::StringKey));

    let guid_meta = derive_entity(&EntityDecl {
        table_name: "C".to_string(),
        schema: None,
        fields: vec![key_field("uid", FieldType::Uuid, false)],
    });
    assert_eq!(guid_meta.key_capability(), Some(KeyKind::GuidKey));

    let unsupported = derive_entity(&EntityDecl {
        table_name: "D".to_string(),
        schema: None,
        fields: vec![key_field("stamp", FieldType::Timestamp, false)],
    });
    assert_eq!(unsupported.key_capability(), None);

    let keyless = derive_entity(&EntityDecl {
        table_name: "E".to_string(),
        schema: None,
        fields: vec![plain_column("x", FieldType::Int32)],
    });
    assert_eq!(keyless.key_capability(), None);
}

#[test]
fn delete_by_key_on_a_keyless_table_leaves_the_column_blank() {
    let em = derive_entity(&EntityDecl {
        table_name: "Bare".to_string(),
        schema: None,
        fields: vec![plain_column("x", FieldType::Int32)],
    });
    let (sql, params) = em.build_delete_by_key(SqlParam::I32(1), PlaceholderStyle::Dollar);
    assert_eq!(sql, "DELETE FROM Bare WHERE  = $1");
    assert_eq!(params.len(), 1);
}

#[test]
fn db_kind_decides_placeholder_style() {
    assert_eq!(DbKind::Mssql.style(), PlaceholderStyle::AtP);
    assert_eq!(DbKind::Postgres.style(), PlaceholderStyle::Dollar);
}

#[test]
fn column_name_override_applies_to_keys() {
    let em = derive_entity(&EntityDecl {
        table_name: "T".to_string(),
        schema: None,
        fields: vec![FieldDecl {
            field_name: "id".to_string(),
            field_type: FieldType::Int32,
            optional: false,
            ann: FieldAnn::Key(KeyAnn {
                name: Some("t_id".to_string()),
                is_identity: false,
                ignore_in_update: false,
                ignore_in_insert: false,
            }),
        }],
    });
    assert_eq!(em.table.keys[0].column, "t_id");
    assert_eq!(em.table.columns[0].name, "t_id");
    let (sql, _) = em.build_delete_by_key(SqlParam::I32(1), PlaceholderStyle::Dollar);
    assert_eq!(sql, "DELETE FROM T WHERE t_id = $1");
}
