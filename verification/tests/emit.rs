use prisma_rust_schema::annotation::Visibility;
use prisma_rust_schema::dmmf::{Datamodel, DatamodelEnum, EnumValue, Field, FieldKind, Model, NativeType};
use prisma_rust_schema::emit::{
    apply_patch, emit_declarations, generate_rust_types, Declaration, EmitError, EmitOptions,
    EmittedDeclaration, EmittedKind, EmittedMember, Patch,
};

fn scalar_field(name: &str, field_type: &str, required: bool, list: bool) -> Field {
    Field {
        kind: FieldKind::Scalar,
        name: name.to_string(),
        is_required: required,
        is_list: list,
        is_unique: false,
        is_id: false,
        is_read_only: false,
        is_generated: None,
        is_updated_at: None,
        field_type: field_type.to_string(),
        native_type: None,
        db_name: None,
        has_default_value: false,
        relation_from_fields: None,
        relation_to_fields: None,
        relation_on_delete: None,
        relation_on_update: None,
        relation_name: None,
        documentation: None,
    }
}

fn model(name: &str, fields: Vec<Field>) -> Model {
    Model {
        name: name.to_string(),
        db_name: None,
        schema: None,
        fields,
        unique_fields: Vec::new(),
        unique_indexes: Vec::new(),
        documentation: None,
        primary_key: None,
        is_generated: None,
    }
}

fn member(name: &str, type_expr: &str) -> EmittedMember {
    EmittedMember {
        name: name.to_string(),
        docs: Vec::new(),
        storage_rename: None,
        visibility: Visibility::Public,
        type_expr: Some(type_expr.to_string()),
    }
}

#[test]
fn user_model_end_to_end() {
    let mut id = scalar_field("id", "ObjectId", true, false);
    id.is_id = true;
    id.native_type = Some(NativeType { name: "ObjectId".to_string(), args: Vec::new() });
    let email = scalar_field("email", "String", true, false);
    let name = scalar_field("name", "String", false, false);
    let user = model("User", vec![id, email, name]);
    let decls = vec![Declaration::Model(user)];
    let out = emit_declarations(&decls, &EmitOptions::default()).unwrap();
    assert_eq!(out.declarations.len(), 1);
    assert_eq!(out.warnings.len(), 0);
    let d = &out.declarations[0];
    assert_eq!(d.name, "User");
    assert!(matches!(d.kind, EmittedKind::Struct));
    assert_eq!(d.derive, None);
    assert_eq!(d.members.len(), 3);
    assert_eq!(d.members[0].name, "id");
    assert_eq!(d.members[0].type_expr, Some("bson::oid::ObjectId".to_string()));
    assert_eq!(d.members[0].storage_rename, None);
    assert_eq!(d.members[1].name, "email");
    assert_eq!(d.members[1].type_expr, Some("String".to_string()));
    assert_eq!(d.members[1].storage_rename, None);
    assert_eq!(d.members[2].name, "name");
    assert_eq!(d.members[2].type_expr, Some("Option<String>".to_string()));
    assert_eq!(d.members[2].storage_rename, None);
}

#[test]
fn camel_case_field_gets_storage_rename() {
    let m = model("User", vec![scalar_field("createdAt", "DateTime", true, false)]);
    let decls = vec![Declaration::Model(m)];
    let out = emit_declarations(&decls, &EmitOptions::default()).unwrap();
    let d = &out.declarations[0];
    assert_eq!(d.members[0].name, "created_at");
    assert_eq!(d.members[0].storage_rename, Some("createdAt".to_string()));
    assert_eq!(
        d.members[0].type_expr,
        Some("chrono::DateTime<chrono::Utc>".to_string())
    );
}

#[test]
fn skipped_declaration_is_absent() {
    let mut skipped = model("Hidden", vec![scalar_field("id", "Int", true, false)]);
    skipped.documentation = Some("@prs.skip".to_string());
    let kept = model("Kept", vec![scalar_field("id", "Int", true, false)]);
    let decls = vec![Declaration::Model(skipped), Declaration::Model(kept)];
    let out = emit_declarations(&decls, &EmitOptions::default()).unwrap();
    assert_eq!(out.declarations.len(), 1);
    assert_eq!(out.declarations[0].name, "Kept");
}

#[test]
fn relation_fields_never_appear() {
    // All three variants: a relation name, a relation-source list, and a
    // field type naming another model; a rename directive changes nothing.
    let mut by_name = scalar_field("author", "String", true, false);
    by_name.relation_name = Some("AuthorPosts".to_string());
    by_name.documentation = Some("@prs.rename=writer".to_string());
    let mut by_sources = scalar_field("owner", "String", true, false);
    by_sources.relation_from_fields = Some(vec!["ownerId".to_string()]);
    let mut by_type = scalar_field("posts", "Post", true, true);
    by_type.kind = FieldKind::Object;
    let keep = scalar_field("id", "Int", true, false);
    let user = model("User", vec![by_name, by_sources, by_type, keep]);
    let post = model("Post", vec![scalar_field("id", "Int", true, false)]);
    let decls = vec![Declaration::Model(user), Declaration::Model(post)];
    let out = emit_declarations(&decls, &EmitOptions::default()).unwrap();
    let d = &out.declarations[0];
    assert_eq!(d.members.len(), 1);
    assert_eq!(d.members[0].name, "id");
}

#[test]
fn skipped_field_is_absent() {
    let mut hidden = scalar_field("secret", "String", true, false);
    hidden.documentation = Some("@prs.skip".to_string());
    let m = model("M", vec![hidden, scalar_field("id", "Int", true, false)]);
    let out = emit_declarations(&vec![Declaration::Model(m)], &EmitOptions::default()).unwrap();
    assert_eq!(out.declarations[0].members.len(), 1);
    assert_eq!(out.declarations[0].members[0].name, "id");
}

#[test]
fn renamed_field_keeps_schema_name_for_storage() {
    let mut f = scalar_field("name", "String", false, false);
    f.documentation = Some("@prs.rename=username".to_string());
    let m = model("User", vec![f]);
    let out = emit_declarations(&vec![Declaration::Model(m)], &EmitOptions::default()).unwrap();
    let d = &out.declarations[0];
    assert_eq!(d.members[0].name, "username");
    assert_eq!(d.members[0].storage_rename, Some("name".to_string()));
}

#[test]
fn declared_storage_name_wins_over_rename() {
    let mut f = scalar_field("name", "String", true, false);
    f.db_name = Some("_name".to_string());
    f.documentation = Some("@prs.rename=username".to_string());
    let m = model("User", vec![f]);
    let out = emit_declarations(&vec![Declaration::Model(m)], &EmitOptions::default()).unwrap();
    assert_eq!(
        out.declarations[0].members[0].storage_rename,
        Some("_name".to_string())
    );
}

#[test]
fn unsupported_native_type_is_an_error() {
    let mut f = scalar_field("id", "Int", true, false);
    f.native_type = Some(NativeType { name: "Money".to_string(), args: Vec::new() });
    let m = model("M", vec![f]);
    let err = emit_declarations(&vec![Declaration::Model(m)], &EmitOptions::default()).unwrap_err();
    assert_eq!(err, EmitError::UnsupportedNativeType("Money".to_string()));
    assert_eq!(err.message(), "unsupported native type: Money");
}

#[test]
fn list_and_option_wrap_in_order() {
    let f = scalar_field("tags", "String", false, true);
    let m = model("M", vec![f]);
    let out = emit_declarations(&vec![Declaration::Model(m)], &EmitOptions::default()).unwrap();
    assert_eq!(
        out.declarations[0].members[0].type_expr,
        Some("Option<Vec<String>>".to_string())
    );
}

#[test]
fn reference_types_get_prefix_and_pascal_case() {
    let f = scalar_field("status", "user_status", true, false);
    let m = model("M", vec![f]);
    let mut opts = EmitOptions::default();
    opts.prefix = Some("Api".to_string());
    let out = emit_declarations(&vec![Declaration::Model(m)], &opts).unwrap();
    // The prefix is applied before case conversion.
    assert_eq!(
        out.declarations[0].members[0].type_expr,
        Some("Apiuser_status".to_string())
    );
    assert_eq!(out.declarations[0].name, "ApiM");
}

#[test]
fn allow_list_filters_declarations() {
    let a = model("A", vec![scalar_field("id", "Int", true, false)]);
    let b = model("B", vec![scalar_field("id", "Int", true, false)]);
    let mut opts = EmitOptions::default();
    opts.only = Some(vec!["B".to_string()]);
    let out = emit_declarations(
        &vec![Declaration::Model(a), Declaration::Model(b)],
        &opts,
    )
    .unwrap();
    assert_eq!(out.declarations.len(), 1);
    assert_eq!(out.declarations[0].name, "B");
}

#[test]
fn composite_type_with_type_override_warns_and_skips() {
    let mut c = model("Meta", vec![scalar_field("id", "Int", true, false)]);
    c.documentation = Some("@prs.type=usize".to_string());
    let out =
        emit_declarations(&vec![Declaration::CompositeType(c)], &EmitOptions::default()).unwrap();
    assert_eq!(out.declarations.len(), 0);
    assert_eq!(out.warnings.len(), 1);
    assert!(out.warnings[0].contains("Skipping type name declaration for `Meta`"));
}

#[test]
fn enum_values_keep_names_and_rename_storage() {
    let e = DatamodelEnum {
        name: "Permission".to_string(),
        values: vec![
            EnumValue { name: "USER".to_string(), db_name: None, documentation: None },
            EnumValue {
                name: "ADMIN".to_string(),
                db_name: None,
                documentation: Some("@prs.rename=Root".to_string()),
            },
            EnumValue {
                name: "GONE".to_string(),
                db_name: None,
                documentation: Some("@prs.skip".to_string()),
            },
        ],
        db_name: None,
        documentation: None,
    };
    let out = emit_declarations(&vec![Declaration::Enum(e)], &EmitOptions::default()).unwrap();
    let d = &out.declarations[0];
    assert_eq!(d.name, "Permission");
    assert!(matches!(d.kind, EmittedKind::Enum));
    assert_eq!(d.members.len(), 2);
    assert_eq!(d.members[0].name, "USER");
    assert_eq!(d.members[0].storage_rename, None);
    assert_eq!(d.members[1].name, "Root");
    assert_eq!(d.members[1].storage_rename, Some("ADMIN".to_string()));
}

#[test]
fn declaration_derive_wins_over_default() {
    let mut m = model("M", vec![scalar_field("id", "Int", true, false)]);
    m.documentation = Some("@prs.derive=Clone".to_string());
    let n = model("N", vec![scalar_field("id", "Int", true, false)]);
    let mut opts = EmitOptions::default();
    opts.derive = Some(vec!["Debug".to_string(), "PartialEq".to_string()]);
    let out = emit_declarations(
        &vec![Declaration::Model(m), Declaration::Model(n)],
        &opts,
    )
    .unwrap();
    assert_eq!(out.declarations[0].derive, Some(vec!["Clone".to_string()]));
    assert_eq!(
        out.declarations[1].derive,
        Some(vec!["Debug".to_string(), "PartialEq".to_string()])
    );
}

#[test]
fn patch_replaces_named_members_only() {
    let d = EmittedDeclaration {
        name: "User".to_string(),
        docs: Vec::new(),
        derive: None,
        visibility: Visibility::Public,
        kind: EmittedKind::Struct,
        members: vec![member("id", "i64"), member("name", "String")],
    };
    let patch = Patch {
        name: "User".to_string(),
        members: vec![member("name", "Box<str>"), member("extra", "u8")],
    };
    let r = apply_patch(d, &patch);
    assert_eq!(r.members.len(), 2);
    assert_eq!(r.members[0].name, "id");
    assert_eq!(r.members[0].type_expr, Some("i64".to_string()));
    assert_eq!(r.members[1].name, "name");
    assert_eq!(r.members[1].type_expr, Some("Box<str>".to_string()));
    assert!(r.members.iter().all(|m| m.name != "extra"));
}

#[test]
fn configured_patch_applies_to_matching_struct() {
    let m = model("User", vec![scalar_field("id", "Int", true, false)]);
    let mut opts = EmitOptions::default();
    opts.patch = Some(vec![Patch {
        name: "User".to_string(),
        members: vec![member("id", "u64")],
    }]);
    let out = emit_declarations(&vec![Declaration::Model(m)], &opts).unwrap();
    assert_eq!(
        out.declarations[0].members[0].type_expr,
        Some("u64".to_string())
    );
}

#[test]
fn generate_renders_source_text() {
    let mut f = scalar_field("createdAt", "DateTime", true, false);
    f.documentation = Some("When it was made.\n@prs.visibility=protected".to_string());
    let mut m = model("blog_post", vec![f]);
    m.documentation = Some("A post.\n@prs.derive=Debug, Clone".to_string());
    let dm = Datamodel {
        models: vec![m],
        enums: Vec::new(),
        type_models: Vec::new(),
        indexes: Vec::new(),
    };
    let out = generate_rust_types(dm, &EmitOptions::default()).unwrap();
    let expected = "/// A post.\n#[derive(Debug, Clone)]\npub struct BlogPost {\n    /// When it was made.\n    #[serde(rename = \"createdAt\")]\n    pub(crate) created_at: chrono::DateTime<chrono::Utc>,\n}\n\n";
    assert_eq!(out.code, expected);
    assert_eq!(out.warnings.len(), 0);
}

#[test]
fn datamodel_order_is_models_types_enums() {
    let dm = Datamodel {
        models: vec![model("M", vec![scalar_field("id", "Int", true, false)])],
        enums: vec![DatamodelEnum {
            name: "E".to_string(),
            values: vec![EnumValue { name: "A".to_string(), db_name: None, documentation: None }],
            db_name: None,
            documentation: None,
        }],
        type_models: vec![model("T", vec![scalar_field("id", "Int", true, false)])],
        indexes: Vec::new(),
    };
    let out = generate_rust_types(dm, &EmitOptions::default()).unwrap();
    let m_at = out.code.find("struct M").unwrap();
    let t_at = out.code.find("struct T").unwrap();
    let e_at = out.code.find("enum E").unwrap();
    assert!(m_at < t_at && t_at < e_at);
}
