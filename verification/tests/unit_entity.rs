use rquery_orm::{
    derive_entity, ColumnAnn, EntityDecl, FieldAnn, FieldDecl, FieldType, FieldValue, KeyAnn,
    PlaceholderStyle, Timestamp,
};

fn plain_column(name: &str, ft: FieldType) -> FieldDecl {
    FieldDecl {
        field_name: name.to_string(),
        field_type: ft,
        optional: false,
        ann: FieldAnn::Column(ColumnAnn::new()),
    }
}

fn employees_decl() -> EntityDecl {
    EntityDecl {
        table_name: "Employees".to_string(),
        schema: None,
        fields: vec![
            FieldDecl {
                field_name: "employee_id".to_string(),
                field_type: FieldType::Int32,
                optional: false,
                ann: FieldAnn::Key(KeyAnn {
                    name: None,
                    is_identity: true,
                    ignore_in_update: false,
                    ignore_in_insert: false,
                }),
            },
            plain_column("first_name", FieldType::Text),
            plain_column("last_name", FieldType::Text),
            plain_column("age", FieldType::Int32),
            plain_column("hire_date", FieldType::Timestamp),
        ],
    }
}

#[test]
fn entity_metadata() {
    let t = derive_entity(&employees_decl()).table;
    assert_eq!(t.name, "Employees");
    assert_eq!(t.columns.len(), 5);
    assert_eq!(t.keys.len(), 1);
    assert_eq!(t.keys[0].column, "employee_id");
}

#[test]
fn insert_sql_builds() {
    let em = derive_entity(&employees_decl());
    let emp = vec![
        FieldValue::IntVal(0),
        FieldValue::TextVal("John".to_string()),
        FieldValue::TextVal("Doe".to_string()),
        FieldValue::IntVal(30),
        FieldValue::TimeVal(Timestamp { secs: 0, nanos: 0 }),
    ];
    let (sql, params, has_id) = em.build_insert(&emp, PlaceholderStyle::Dollar);
    assert_eq!(
        sql,
        "INSERT INTO Employees (first_name, last_name, age, hire_date) VALUES ($1, $2, $3, $4)"
    );
    assert_eq!(params.len(), 4);
    assert!(has_id);
}
