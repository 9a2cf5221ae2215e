use prisma_rust_schema::annotation::{
    AnnotationError, EnumValueAnnotation, FieldAnnotation, ModelAnnotation, TypeAnnotation,
    Visibility,
};

#[test]
fn skip_without_value_is_true() {
    let ann = FieldAnnotation::from_str("@prs.skip").unwrap();
    assert!(ann.skip);
}

#[test]
fn skip_false_is_false() {
    let ann = FieldAnnotation::from_str("@prs.skip=false").unwrap();
    assert!(!ann.skip);
}

#[test]
fn skip_with_other_value_is_true() {
    let ann = FieldAnnotation::from_str("@prs.skip=yes").unwrap();
    assert!(ann.skip);
}

#[test]
fn bad_visibility_is_hard_error() {
    let err = FieldAnnotation::from_str("@prs.visibility=bogus").unwrap_err();
    assert_eq!(err, AnnotationError::UnknownVisibility("bogus".to_string()));
    let msg = err.message();
    assert!(msg.contains("Unknown visibility: bogus"));
    assert!(msg.contains("private, protected (pub(crate)), public (pub)"));
}

#[test]
fn empty_derive_is_hard_error() {
    let err = ModelAnnotation::from_str("@prs.derive=").unwrap_err();
    assert_eq!(err, AnnotationError::EmptyDerive);
    assert_eq!(err.message(), "Derive cannot be empty");
}

#[test]
fn unknown_key_is_hard_error() {
    let err = FieldAnnotation::from_str("@prs.frobnicate=1").unwrap_err();
    assert_eq!(
        err,
        AnnotationError::UnknownDirective("frobnicate=1".to_string())
    );
    assert_eq!(err.message(), "Unknown field annotation: frobnicate=1");
}

#[test]
fn derive_is_not_a_field_directive() {
    let err = FieldAnnotation::from_str("@prs.derive=Debug").unwrap_err();
    assert_eq!(
        err,
        AnnotationError::UnknownDirective("derive=Debug".to_string())
    );
}

#[test]
fn empty_documentation_is_all_defaults() {
    let ann = FieldAnnotation::from("");
    assert_eq!(ann.rename, None);
    assert!(!ann.skip);
    assert_eq!(ann.type_, None);
    assert!(matches!(ann.visibility, Visibility::Public));
}

#[test]
fn non_directive_lines_are_ignored() {
    let ann = FieldAnnotation::from_str("A field.\nIt matters.\n@prs.rename=other").unwrap();
    assert_eq!(ann.rename, Some("other".to_string()));
    assert!(!ann.skip);
}

#[test]
fn bad_directive_degrades_to_defaults_on_infallible_path() {
    let ann = FieldAnnotation::from("@prs.rename=kept\n@prs.nonsense");
    assert_eq!(ann.rename, None);
    assert!(!ann.skip);
}

#[test]
fn visibility_values_parse() {
    let p = FieldAnnotation::from_str("@prs.visibility=private").unwrap();
    assert!(matches!(p.visibility, Visibility::Private));
    let q = FieldAnnotation::from_str("@prs.visibility=protected").unwrap();
    assert!(matches!(q.visibility, Visibility::Protected));
    let r = FieldAnnotation::from_str("@prs.visibility=public").unwrap();
    assert!(matches!(r.visibility, Visibility::Public));
}

#[test]
fn derive_list_splits_and_trims() {
    let ann = ModelAnnotation::from_str("@prs.derive=Debug, Clone ,PartialEq").unwrap();
    assert_eq!(
        ann.derive,
        Some(vec![
            "Debug".to_string(),
            "Clone".to_string(),
            "PartialEq".to_string()
        ])
    );
}

#[test]
fn type_override_is_kept_verbatim() {
    let ann = TypeAnnotation::from_str("@prs.type=usize").unwrap();
    assert_eq!(ann.type_, Some("usize".to_string()));
}

#[test]
fn enum_value_accepts_only_skip_and_rename() {
    let ann = EnumValueAnnotation::from_str("@prs.rename=Other").unwrap();
    assert_eq!(ann.rename, Some("Other".to_string()));
    let err = EnumValueAnnotation::from_str("@prs.visibility=private").unwrap_err();
    assert!(matches!(err, AnnotationError::UnknownDirective(_)));
}

#[test]
fn later_directives_override_earlier_ones() {
    let ann = FieldAnnotation::from_str("@prs.rename=first\n@prs.rename=second").unwrap();
    assert_eq!(ann.rename, Some("second".to_string()));
}

#[test]
fn value_may_contain_equals_sign() {
    let ann = FieldAnnotation::from_str("@prs.rename=a=b").unwrap();
    assert_eq!(ann.rename, Some("a=b".to_string()));
}

#[test]
fn directive_lines_are_trimmed_before_matching() {
    let ann = FieldAnnotation::from_str("   @prs.skip   ").unwrap();
    assert!(ann.skip);
}
