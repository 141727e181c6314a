use rquery_orm::{
    derive_entity, ColumnAnn, EntityDecl, EntityMeta, FieldAnn, FieldDecl, FieldType, FieldValue,
};

fn one_text_column(ann: ColumnAnn, optional: bool) -> EntityMeta {
    derive_entity(&EntityDecl {
        table_name: "T".to_string(),
        schema: None,
        fields: vec![FieldDecl {
            field_name: "name".to_string(),
            field_type: FieldType::Text,
            optional,
            ann: FieldAnn::Column(ann),
        }],
    })
}

fn text(v: &str) -> Vec<FieldValue> {
    vec![FieldValue::TextVal(v.to_string())]
}

#[test]
fn default_required_message_embeds_the_column_name() {
    let mut ann = ColumnAnn::new();
    ann.required = true;
    let errs = one_text_column(ann, false).validate(&text("")).unwrap_err();
    assert_eq!(errs, vec!["name is required".to_string()]);
}

#[test]
fn default_empty_message_fires_only_without_required() {
    let mut ann = ColumnAnn::new();
    ann.allow_empty = false;
    let errs = one_text_column(ann, false).validate(&text("")).unwrap_err();
    assert_eq!(errs, vec!["name cannot be empty".to_string()]);
}

#[test]
fn required_wins_over_empty_and_exactly_one_fires() {
    let mut ann = ColumnAnn::new();
    ann.required = true;
    ann.allow_empty = false;
    let errs = one_text_column(ann, false).validate(&text("")).unwrap_err();
    assert_eq!(errs, vec!["name is required".to_string()]);
}

#[test]
fn default_max_length_message_embeds_the_threshold() {
    let mut ann = ColumnAnn::new();
    ann.max_length = Some(5);
    let errs = one_text_column(ann, false)
        .validate(&text("toolongtext"))
        .unwrap_err();
    assert_eq!(errs, vec!["name exceeds max length 5".to_string()]);
}

#[test]
fn default_min_length_message_embeds_the_threshold() {
    let mut ann = ColumnAnn::new();
    ann.min_length = Some(8);
    let errs = one_text_column(ann, false).validate(&text("abc")).unwrap_err();
    assert_eq!(errs, vec!["name below min length 8".to_string()]);
}

#[test]
fn default_null_message_fires_for_absent_values() {
    let ann = ColumnAnn::new();
    let errs = one_text_column(ann, true)
        .validate(&vec![FieldValue::NoneVal])
        .unwrap_err();
    assert_eq!(errs, vec!["name cannot be null".to_string()]);
}

#[test]
fn default_regex_message_fires_on_mismatch() {
    let mut ann = ColumnAnn::new();
    ann.regex = Some("^[0-9]+$".to_string());
    let errs = one_text_column(ann, false).validate(&text("abc")).unwrap_err();
    assert_eq!(errs, vec!["name has invalid format".to_string()]);
}

#[test]
fn matching_text_passes_the_regex_rule() {
    let mut ann = ColumnAnn::new();
    ann.regex = Some("^[0-9]+$".to_string());
    assert!(one_text_column(ann, false).validate(&text("123")).is_ok());
}

#[test]
fn all_failing_rules_collect_together() {
    let mut ann = ColumnAnn::new();
    ann.min_length = Some(4);
    ann.regex = Some("^[0-9]+$".to_string());
    let errs = one_text_column(ann, false).validate(&text("ab")).unwrap_err();
    assert_eq!(
        errs,
        vec![
            "name below min length 4".to_string(),
            "name has invalid format".to_string()
        ]
    );
}

#[test]
fn present_optional_text_runs_the_text_rules() {
    let mut ann = ColumnAnn::new();
    ann.max_length = Some(2);
    let em = one_text_column(ann, true);
    let errs = em.validate(&text("abc")).unwrap_err();
    assert_eq!(errs, vec!["name exceeds max length 2".to_string()]);
    assert!(em.validate(&text("ab")).is_ok());
}

#[test]
fn custom_required_message_is_verbatim_and_alone() {
    let mut ann = ColumnAnn::new();
    ann.required = true;
    ann.max_length = Some(30);
    ann.error_required = Some("Username is required".to_string());
    let errs = one_text_column(ann, false).validate(&text("")).unwrap_err();
    assert_eq!(errs, vec!["Username is required".to_string()]);
}

#[test]
fn unparsable_pattern_yields_no_message() {
    let mut ann = ColumnAnn::new();
    ann.regex = Some("foo(bar".to_string());
    assert!(one_text_column(ann, false).validate(&text("anything")).is_ok());
}

#[test]
fn non_text_scalar_columns_have_no_generated_validation() {
    let mut ann = ColumnAnn::new();
    ann.required = true;
    let em = derive_entity(&EntityDecl {
        table_name: "T".to_string(),
        schema: None,
        fields: vec![FieldDecl {
            field_name: "n".to_string(),
            field_type: FieldType::Int32,
            optional: false,
            ann: FieldAnn::Column(ann),
        }],
    });
    assert!(em.validate(&vec![FieldValue::IntVal(0)]).is_ok());
}
