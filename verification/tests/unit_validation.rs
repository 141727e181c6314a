use rquery_orm::{
    derive_entity, ColumnAnn, EntityDecl, EntityMeta, FieldAnn, FieldDecl, FieldType, FieldValue,
    KeyAnn, Validatable,
};

fn user_decl() -> EntityDecl {
    let mut username = ColumnAnn::new();
    username.required = true;
    username.max_length = Some(30);
    username.error_required = Some("Username is required".to_string());
    username.error_max_length = Some("Max 30 chars".to_string());

    let mut email = ColumnAnn::new();
    email.required = true;
    email.regex = Some("^[a-zA-Z0-9._%+-]+@[a-zA-Z0-9.-]+\\.[a-zA-Z]{2,}$".to_string());
    email.error_regex = Some("Invalid email format".to_string());

    let mut password = ColumnAnn::new();
    password.min_length = Some(8);
    password.error_min_length = Some("Password must be at least 8 chars".to_string());

    let mut bio = ColumnAnn::new();
    bio.allow_null = true;

    EntityDecl {
        table_name: "Users".to_string(),
        schema: None,
        fields: vec![
            FieldDecl {
                field_name: "id".to_string(),
                field_type: FieldType::Int32,
                optional: false,
                ann: FieldAnn::Key(KeyAnn {
                    name: None,
                    is_identity: true,
                    ignore_in_update: false,
                    ignore_in_insert: false,
                }),
            },
            FieldDecl {
                field_name: "username".to_string(),
                field_type: FieldType::Text,
                optional: false,
                ann: FieldAnn::Column(username),
            },
            FieldDecl {
                field_name: "email".to_string(),
                field_type: FieldType::Text,
                optional: false,
                ann: FieldAnn::Column(email),
            },
            FieldDecl {
                field_name: "password".to_string(),
                field_type: FieldType::Text,
                optional: false,
                ann: FieldAnn::Column(password),
            },
            FieldDecl {
                field_name: "bio".to_string(),
                field_type: FieldType::Text,
                optional: true,
                ann: FieldAnn::Column(bio),
            },
        ],
    }
}

struct User {
    id: i32,
    username: String,
    email: String,
    password: String,
    bio: Option<String>,
}

impl User {
    fn meta() -> EntityMeta {
        derive_entity(&user_decl())
    }

    fn record(&self) -> Vec<FieldValue> {
        vec![
            FieldValue::IntVal(self.id),
            FieldValue::TextVal(self.username.clone()),
            FieldValue::TextVal(self.email.clone()),
            FieldValue::TextVal(self.password.clone()),
            match &self.bio {
                Some(b) => FieldValue::TextVal(b.clone()),
                None => FieldValue::NoneVal,
            },
        ]
    }
}

impl Validatable for User {
    fn validate(&self) -> Result<(), Vec<String>> {
        User::meta().validate(&self.record())
    }
}

#[test]
fn validation_fails() {
    let user = User {
        id: 0,
        username: "".into(),
        email: "invalid".into(),
        password: "123".into(),
        bio: None,
    };
    let errs = user.validate().unwrap_err();
    assert!(errs.contains(&"Username is required".to_string()));
    assert!(errs.contains(&"Invalid email format".to_string()));
    assert!(errs.contains(&"Password must be at least 8 chars".to_string()));
}

#[test]
fn validation_passes() {
    let user = User {
        id: 1,
        username: "john".into(),
        email: "john@example.com".into(),
        password: "password123".into(),
        bio: None,
    };
    assert!(user.validate().is_ok());
}
