//! The generator-side configuration: what the schema toolchain hands a
//! generator when it asks it to run.

use vstd::prelude::*;
use std::collections::HashMap;
use crate::dmmf::Document;
use crate::typed_sql::SqlQueryOutput;

verus! {

pub struct EnvValue {
    pub from_env_var: Option<String>,
    pub value: Option<String>,
}

pub struct BinaryTargetsEnvValue {
    pub from_env_var: Option<String>,
    pub value: String,
    pub native: Option<bool>,
}

pub struct GeneratorConfig {
    pub name: String,
    pub output: Option<EnvValue>,
    pub is_custom_output: Option<bool>,
    pub provider: EnvValue,
    pub config: HashMap<String, Option<String>>,
    pub binary_targets: Vec<BinaryTargetsEnvValue>,
    pub preview_features: Vec<String>,
    pub env_paths: Option<EnvPaths>,
    pub source_file_path: String,
}

pub struct EnvPaths {
    pub root_env_path: Option<String>,
    pub schema_env_path: Option<String>,
}

#[derive(Debug, Clone, PartialEq, Eq, Structural)]
pub enum ConnectorType {
    Mysql,
    Mongodb,
    Sqlite,
    Postgresql,
    Postgres,
    PrismaPostgres,
    Sqlserver,
    Cockroachdb,
}

#[derive(Debug, Clone, PartialEq, Eq, Structural)]
pub enum ActiveConnectorType {
    Mysql,
    Mongodb,
    Sqlite,
    Postgresql,
    Sqlserver,
    Cockroachdb,
}

pub struct DataSource {
    pub name: String,
    pub provider: ConnectorType,
    pub active_provider: ActiveConnectorType,
    pub url: EnvValue,
    pub direct_url: Option<EnvValue>,
    pub schemas: Vec<String>,
    pub source_file_path: String,
}

pub struct BinaryPaths {
    pub schema_engine: Option<HashMap<String, String>>,
    pub query_engine: Option<HashMap<String, String>>,
    pub libquery_engine: Option<HashMap<String, String>>,
}

pub struct GeneratorOptions {
    pub generator: GeneratorConfig,
    pub other_generators: Vec<GeneratorConfig>,
    pub schema_path: String,
    pub dmmf: Document,
    pub datasources: Vec<DataSource>,
    pub datamodel: String,
    pub version: String,
    pub binary_paths: Option<BinaryPaths>,
    pub postinstall: Option<bool>,
    pub no_engine: Option<bool>,
    pub no_hints: Option<bool>,
    pub allow_no_models: Option<bool>,
    pub env_paths: Option<EnvPaths>,
    pub typed_sql: Option<Vec<SqlQueryOutput>>,
}

#[derive(Debug, Clone, PartialEq, Eq, Structural)]
pub enum EngineType {
    QueryEngine,
    LibqueryEngine,
    SchemaEngine,
}

pub struct GeneratorManifest {
    pub pretty_name: Option<String>,
    pub default_output: Option<String>,
    pub denylists: Option<DenyLists>,
    pub requires_generators: Option<Vec<String>>,
    pub requires_engines: Option<Vec<EngineType>>,
    pub version: Option<String>,
    pub requires_engine_version: Option<String>,
}

pub struct DenyLists {
    pub models: Option<Vec<String>>,
    pub fields: Option<Vec<String>>,
}

/// The output path a generator configuration resolves to: the configured
/// value, or the default path where none was set.
pub open spec fn output_path_of(g: GeneratorConfig) -> Seq<char>
    recommends
        g.output is Some,
{
    match g.output {
        Some(ev) => match ev.value {
            Some(v) => v@,
            None => "./src/prisma_types.rs"@,
        },
        None => Seq::empty(),
    }
}

/// The output path of a generation run; the configuration must carry an
/// output entry.
pub fn resolve_output_path(generator: &GeneratorConfig) -> (r: String)
    requires
        generator.output is Some,
    ensures
        r@ == output_path_of(*generator),
{
    match &generator.output {
        Some(ev) => match &ev.value {
            Some(v) => v.clone(),
            None => String::from_str("./src/prisma_types.rs"),
        },
        None => {
            proof {
                assert(false);
            }
            String::new()
        },
    }
}

} // verus!
