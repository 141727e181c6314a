#![allow(non_upper_case_globals)]

use rquery_orm::{
    derive_entity, ColumnAnn, EntityDecl, EntityMeta, FieldAnn, FieldDecl, FieldType, FieldValue,
    KeyAnn, KeyAsInt, Persistable, PlaceholderStyle, RelationAnn, SqlParam, Validatable,
};

fn test_entity_decl() -> EntityDecl {
    let mut a = ColumnAnn::new();
    a.name = Some("col_a".to_string());

    let mut b = ColumnAnn::new();
    b.ignore_in_update = true;

    let mut c = ColumnAnn::new();
    c.ignore = true;

    let mut d = ColumnAnn::new();
    d.ignore_in_insert = true;

    let mut e = ColumnAnn::new();
    e.required = true;
    e.error_required = Some("e required".to_string());

    EntityDecl {
        table_name: "T1".to_string(),
        schema: Some("dbo".to_string()),
        fields: vec![
            FieldDecl {
                field_name: "id".to_string(),
                field_type: FieldType::Int32,
                optional: false,
                ann: FieldAnn::Key(KeyAnn {
                    name: None,
                    is_identity: true,
                    ignore_in_update: false,
                    ignore_in_insert: false,
                }),
            },
            FieldDecl {
                field_name: "a".to_string(),
                field_type: FieldType::Int32,
                optional: false,
                ann: FieldAnn::Column(a),
            },
            FieldDecl {
                field_name: "b".to_string(),
                field_type: FieldType::Int32,
                optional: false,
                ann: FieldAnn::Column(b),
            },
            FieldDecl {
                field_name: "c".to_string(),
                field_type: FieldType::Int32,
                optional: false,
                ann: FieldAnn::Column(c),
            },
            FieldDecl {
                field_name: "d".to_string(),
                field_type: FieldType::Int32,
                optional: false,
                ann: FieldAnn::Column(d),
            },
            FieldDecl {
                field_name: "e".to_string(),
                field_type: FieldType::Int32,
                optional: true,
                ann: FieldAnn::Column(e),
            },
            FieldDecl {
                field_name: "rel".to_string(),
                field_type: FieldType::Int32,
                optional: false,
                ann: FieldAnn::Relation(RelationAnn {
                    foreign_key: "id".to_string(),
                    table: "Other".to_string(),
                    table_number: Some(2),
                    ignore_in_update: true,
                    ignore_in_insert: true,
                }),
            },
        ],
    }
}

#[allow(dead_code)]
struct TestEntity {
    id: i32,
    a: i32,
    b: i32,
    c: i32,
    d: i32,
    e: Option<i32>,
    rel: i32,
}

impl TestEntity {
    pub const TABLE: &'static str = "T1";
    pub const id: &'static str = "id";
    pub const a: &'static str = "col_a";
    pub const b: &'static str = "b";
    pub const d: &'static str = "d";
    pub const e: &'static str = "e";

    fn meta() -> EntityMeta {
        derive_entity(&test_entity_decl())
    }

    fn record(&self) -> Vec<FieldValue> {
        vec![
            FieldValue::IntVal(self.id),
            FieldValue::IntVal(self.a),
            FieldValue::IntVal(self.b),
            FieldValue::IntVal(self.c),
            FieldValue::IntVal(self.d),
            match self.e {
                Some(v) => FieldValue::IntVal(v),
                None => FieldValue::NoneVal,
            },
        ]
    }
}

impl Validatable for TestEntity {
    fn validate(&self) -> Result<(), Vec<String>> {
        TestEntity::meta().validate(&self.record())
    }
}

impl Persistable for TestEntity {
    fn build_insert(&self, style: PlaceholderStyle) -> (String, Vec<SqlParam>, bool) {
        TestEntity::meta().build_insert(&self.record(), style)
    }
    fn build_update(&self, style: PlaceholderStyle) -> (String, Vec<SqlParam>) {
        TestEntity::meta().build_update(&self.record(), style)
    }
    fn build_delete(&self, style: PlaceholderStyle) -> (String, Vec<SqlParam>) {
        TestEntity::meta().build_delete(&self.record(), style)
    }
    fn build_delete_by_key(key: SqlParam, style: PlaceholderStyle) -> (String, Vec<SqlParam>) {
        TestEntity::meta().build_delete_by_key(key, style)
    }
}

impl KeyAsInt for TestEntity {
    fn key(&self) -> i32 {
        self.id
    }
}

#[test]
fn table_and_columns_metadata() {
    let t = TestEntity::meta().table;
    assert_eq!(t.name, "T1");
    assert_eq!(t.schema, Some("dbo".to_string()));
    // Columns exclude the relation field; every other annotated field has a
    // column descriptor, the fully ignored one included, carrying its flag.
    assert!(t.columns.iter().any(|c| c.name == "col_a"));
    assert!(t.columns.iter().any(|c| c.name == "b"));
    assert!(t.columns.iter().any(|c| c.name == "d"));
    assert!(t.columns.iter().any(|c| c.name == "e"));
    assert!(t.columns.iter().any(|c| c.name == "id"));
    assert!(t.columns.iter().any(|c| c.name == "c" && c.ignore));
    assert!(!t.columns.iter().any(|c| c.name == "rel"));
    // Keys
    assert_eq!(t.keys.len(), 1);
    assert_eq!(t.keys[0].column, "id");
    assert!(t.keys[0].is_identity);
    // Relations
    assert_eq!(t.relations.len(), 1);
    let r = &t.relations[0];
    assert_eq!(r.name, "rel");
    assert_eq!(r.foreign_key, "id");
    assert_eq!(r.table, "Other");
    assert_eq!(r.table_number, Some(2));
    assert!(r.ignore_in_update);
    assert!(r.ignore_in_insert);
    // Associated consts
    assert_eq!(TestEntity::TABLE, "T1");
    assert_eq!(TestEntity::id, "id");
    assert_eq!(TestEntity::a, "col_a");
    assert_eq!(TestEntity::b, "b");
    assert_eq!(TestEntity::d, "d");
    assert_eq!(TestEntity::e, "e");
}

#[test]
fn validate_required_and_allow_flags() {
    let te = TestEntity { id: 0, a: 1, b: 2, c: 3, d: 4, e: None, rel: 0 };
    let errs = te.validate().unwrap_err();
    assert!(errs.contains(&"e required".to_string()));
}

#[test]
fn build_insert_update_delete_sql() {
    let te = TestEntity { id: 10, a: 11, b: 12, c: 13, d: 14, e: Some(15), rel: 0 };

    // INSERT: exclude identity id, ignore c, and ignore_in_insert d
    let (sql_i, params_i, has_identity) = te.build_insert(PlaceholderStyle::Dollar);
    assert_eq!(sql_i, "INSERT INTO T1 (col_a, b, e) VALUES ($1, $2, $3)");
    assert_eq!(params_i.len(), 3);
    assert!(has_identity);

    // UPDATE: set a, d, e; where id; b is ignore_in_update; c ignored
    let (sql_u, params_u) = te.build_update(PlaceholderStyle::AtP);
    assert_eq!(sql_u, "UPDATE T1 SET col_a = @P1, d = @P2, e = @P3 WHERE id = @P4");
    assert_eq!(params_u.len(), 4);

    // DELETE: where id
    let (sql_d, params_d) = te.build_delete(PlaceholderStyle::Dollar);
    assert_eq!(sql_d, "DELETE FROM T1 WHERE id = $1");
    assert_eq!(params_d.len(), 1);

    // Static delete by key uses first key column
    let (sql_dbk, params_dbk) =
        TestEntity::build_delete_by_key(SqlParam::I32(99), PlaceholderStyle::Dollar);
    assert_eq!(sql_dbk, "DELETE FROM T1 WHERE id = $1");
    assert_eq!(params_dbk.len(), 1);
}

#[test]
fn key_trait_impl() {
    let te = TestEntity { id: 7, a: 0, b: 0, c: 0, d: 0, e: None, rel: 0 };
    assert_eq!(te.key(), 7);
}
