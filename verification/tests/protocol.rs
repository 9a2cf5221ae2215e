use prisma_rust_schema::code::extract_docs;
use prisma_rust_schema::config::{resolve_output_path, EnvValue, GeneratorConfig};
use prisma_rust_schema::dmmf::FieldLocation;
use prisma_rust_schema::jsonrpc::{default_manifest, parse_method, unknown_method_message, RequestMethod};
use prisma_rust_schema::typed_sql::{QueryIntrospectionBuiltinType, QueryIntrospectionType};
use std::collections::HashMap;

#[test]
fn method_dispatch() {
    assert_eq!(parse_method("getManifest"), RequestMethod::GetManifest);
    assert_eq!(parse_method("generate"), RequestMethod::Generate);
    assert_eq!(parse_method("shutdown"), RequestMethod::Unknown);
}

#[test]
fn manifest_contents() {
    let r = default_manifest("1.2.3".to_string());
    assert_eq!(r.manifest.pretty_name, "Prisma Rust Schema");
    assert_eq!(r.manifest.default_output, "../src/prisma-rust-schema.rs");
    assert_eq!(r.manifest.version, Some("1.2.3".to_string()));
    assert!(r.manifest.denylists.is_none());
}

#[test]
fn unknown_method_text() {
    assert_eq!(
        unknown_method_message("shutdown"),
        "Cannot handle method shutdown"
    );
}

#[test]
fn builtin_query_types_parse() {
    assert_eq!(
        QueryIntrospectionType::from("int"),
        QueryIntrospectionType::Builtin(QueryIntrospectionBuiltinType::Int)
    );
    assert_eq!(
        QueryIntrospectionType::from("bigint-array"),
        QueryIntrospectionType::Builtin(QueryIntrospectionBuiltinType::BigintArray)
    );
    assert_eq!(
        QueryIntrospectionType::from("datetime"),
        QueryIntrospectionType::Builtin(QueryIntrospectionBuiltinType::Datetime)
    );
    assert_eq!(
        QueryIntrospectionType::from("unknown"),
        QueryIntrospectionType::Builtin(QueryIntrospectionBuiltinType::Unknown)
    );
    assert_eq!(
        QueryIntrospectionType::from("money"),
        QueryIntrospectionType::UserDefined("money".to_string())
    );
}

#[test]
fn field_location_wire_names() {
    assert_eq!(FieldLocation::Scalar.as_ref(), "scalar");
    assert_eq!(FieldLocation::InputObjectTypes.as_ref(), "inputObjectTypes");
    assert_eq!(FieldLocation::OutputObjectTypes.as_ref(), "outputObjectTypes");
    assert_eq!(FieldLocation::EnumTypes.as_ref(), "enumTypes");
    assert_eq!(FieldLocation::FieldRefTypes.as_ref(), "fieldRefTypes");
}

fn generator_config(output: Option<Option<&str>>) -> GeneratorConfig {
    GeneratorConfig {
        name: "rust".to_string(),
        output: output.map(|v| EnvValue {
            from_env_var: None,
            value: v.map(|s| s.to_string()),
        }),
        is_custom_output: None,
        provider: EnvValue { from_env_var: None, value: None },
        config: HashMap::new(),
        binary_targets: Vec::new(),
        preview_features: Vec::new(),
        env_paths: None,
        source_file_path: "schema.prisma".to_string(),
    }
}

#[test]
fn output_path_resolution() {
    let explicit = generator_config(Some(Some("./types.rs")));
    assert_eq!(resolve_output_path(&explicit), "./types.rs");
    let defaulted = generator_config(Some(None));
    assert_eq!(resolve_output_path(&defaulted), "./src/prisma_types.rs");
}

#[test]
fn extract_docs_strips_directives() {
    let doc = Some("  First line.\n@prs.skip\n\tSecond line.  ".to_string());
    let docs = extract_docs(&doc);
    assert_eq!(docs, vec!["First line.".to_string(), "Second line.".to_string()]);
    assert_eq!(extract_docs(&None), Vec::<String>::new());
}
