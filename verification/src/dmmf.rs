//! The document model: the machine-readable description of a schema
//! (models, enums, composite types, fields, mappings) that drives
//! generation. Values of these types arrive fully resolved; the library
//! only reads them.

use vstd::prelude::*;

verus! {

pub struct Document {
    pub datamodel: Datamodel,
    pub schema: Schema,
    pub mappings: Mappings,
}

pub struct Mappings {
    pub model_operations: Vec<ModelMapping>,
    pub other_operations: OtherOperationMappings,
}

pub struct OtherOperationMappings {
    pub read: Vec<String>,
    pub write: Vec<String>,
}

pub struct DatamodelEnum {
    pub name: String,
    pub values: Vec<EnumValue>,
    pub db_name: Option<String>,
    pub documentation: Option<String>,
}

pub struct SchemaEnum {
    pub name: String,
    pub values: Vec<String>,
}

pub struct EnumValue {
    pub name: String,
    pub db_name: Option<String>,
    pub documentation: Option<String>,
}

pub struct Datamodel {
    pub models: Vec<Model>,
    pub enums: Vec<DatamodelEnum>,
    pub type_models: Vec<Model>,
    pub indexes: Vec<Index>,
}

pub struct UniqueIndex {
    pub name: String,
    pub fields: Vec<String>,
}

pub struct PrimaryKey {
    pub name: Option<String>,
    pub fields: Vec<String>,
}

pub struct Model {
    pub name: String,
    pub db_name: Option<String>,
    pub schema: Option<String>,
    pub fields: Vec<Field>,
    pub unique_fields: Vec<Vec<String>>,
    pub unique_indexes: Vec<UniqueIndex>,
    pub documentation: Option<String>,
    pub primary_key: Option<PrimaryKey>,
    pub is_generated: Option<bool>,
}

#[derive(Debug, Clone, PartialEq, Eq, Structural)]
pub enum FieldKind {
    Scalar,
    Object,
    Enum,
    Unsupported,
}

#[derive(Debug, Clone, PartialEq, Eq, Structural)]
pub enum FieldNamespace {
    Model,
    Prisma,
}

#[derive(Debug, Clone, PartialEq, Eq, Structural)]
pub enum FieldLocation {
    Scalar,
    InputObjectTypes,
    OutputObjectTypes,
    EnumTypes,
    FieldRefTypes,
}

impl FieldLocation {
    /// The wire name of the location, as the document format spells it.
    pub fn as_ref(&self) -> (r: &'static str)
        ensures
            self is Scalar ==> r@ == "scalar"@,
            self is InputObjectTypes ==> r@ == "inputObjectTypes"@,
            self is OutputObjectTypes ==> r@ == "outputObjectTypes"@,
            self is EnumTypes ==> r@ == "enumTypes"@,
            self is FieldRefTypes ==> r@ == "fieldRefTypes"@,
    {
        match self {
            FieldLocation::Scalar => "scalar",
            FieldLocation::InputObjectTypes => "inputObjectTypes",
            FieldLocation::OutputObjectTypes => "outputObjectTypes",
            FieldLocation::EnumTypes => "enumTypes",
            FieldLocation::FieldRefTypes => "fieldRefTypes",
        }
    }
}

/// A native-database-type override on a field: a type name and its
/// arguments, e.g. an object-identifier type.
pub struct NativeType {
    pub name: String,
    pub args: Vec<String>,
}

pub struct Field {
    pub kind: FieldKind,
    pub name: String,
    pub is_required: bool,
    pub is_list: bool,
    pub is_unique: bool,
    pub is_id: bool,
    pub is_read_only: bool,
    pub is_generated: Option<bool>,
    pub is_updated_at: Option<bool>,
    pub field_type: String,
    pub native_type: Option<NativeType>,
    pub db_name: Option<String>,
    pub has_default_value: bool,
    pub relation_from_fields: Option<Vec<String>>,
    pub relation_to_fields: Option<Vec<String>>,
    pub relation_on_delete: Option<String>,
    pub relation_on_update: Option<String>,
    pub relation_name: Option<String>,
    pub documentation: Option<String>,
}

pub struct Index {
    pub model: String,
    pub index_type: IndexType,
    pub is_defined_on_field: bool,
    pub name: Option<String>,
    pub db_name: Option<String>,
    pub algorithm: Option<String>,
    pub clustered: Option<bool>,
    pub fields: Vec<IndexField>,
}

#[derive(Debug, Clone, PartialEq, Eq, Structural)]
pub enum IndexType {
    Id,
    Normal,
    Unique,
    Fulltext,
}

pub struct IndexField {
    pub name: String,
    pub sort_order: Option<SortOrder>,
    pub length: Option<u32>,
    pub operator_class: Option<String>,
}

#[derive(Debug, Clone, PartialEq, Eq, Structural)]
pub enum SortOrder {
    Asc,
    Desc,
}

pub struct Schema {
    pub root_query_type: Option<String>,
    pub root_mutation_type: Option<String>,
    pub input_object_types: InputObjectTypes,
    pub output_object_types: OutputObjectTypes,
    pub enum_types: EnumTypes,
    pub field_ref_types: FieldRefTypes,
}

pub struct InputObjectTypes {
    pub model: Option<Vec<InputType>>,
    pub prisma: Vec<InputType>,
}

pub struct OutputObjectTypes {
    pub model: Vec<OutputType>,
    pub prisma: Vec<OutputType>,
}

pub struct EnumTypes {
    pub model: Option<Vec<SchemaEnum>>,
    pub prisma: Vec<SchemaEnum>,
}

pub struct FieldRefTypes {
    pub prisma: Option<Vec<FieldRefType>>,
}

pub struct Query {
    pub name: String,
    pub args: Vec<SchemaArg>,
    pub output: QueryOutput,
}

pub struct QueryOutput {
    pub name: String,
    pub is_required: bool,
    pub is_list: bool,
}

pub struct TypeRef<T> {
    pub is_list: bool,
    pub typ: String,
    pub location: T,
    pub namespace: Option<FieldNamespace>,
}

pub type InputTypeRef = TypeRef<FieldLocation>;

pub struct SchemaArg {
    pub name: String,
    pub comment: Option<String>,
    pub is_nullable: bool,
    pub is_required: bool,
    pub input_types: Vec<InputTypeRef>,
    pub deprecation: Option<Deprecation>,
}

pub struct OutputType {
    pub name: String,
    pub fields: Vec<SchemaField>,
}

pub struct SchemaField {
    pub name: String,
    pub is_nullable: Option<bool>,
    pub output_type: OutputTypeRef,
    pub args: Vec<SchemaArg>,
    pub deprecation: Option<Deprecation>,
    pub documentation: Option<String>,
}

pub struct OutputTypeRef {
    pub is_list: bool,
    pub typ: String,
    pub location: FieldLocation,
}

pub struct Deprecation {
    pub since_version: String,
    pub reason: String,
    pub planned_removal_version: Option<String>,
}

pub struct InputType {
    pub name: String,
    pub constraints: InputTypeConstraints,
    pub meta: Option<InputTypeMeta>,
    pub fields: Vec<SchemaArg>,
}

pub struct InputTypeConstraints {
    pub max_num_fields: Option<u32>,
    pub min_num_fields: Option<u32>,
    pub fields: Option<Vec<String>>,
}

pub struct InputTypeMeta {
    pub source: Option<String>,
    pub grouping: Option<String>,
}

pub struct FieldRefType {
    pub name: String,
    pub allow_types: Vec<TypeRef<FieldLocation>>,
    pub fields: Vec<SchemaArg>,
}

pub struct ModelMapping {
    pub model: String,
    pub plural: Option<String>,
    pub find_unique: Option<String>,
    pub find_unique_or_throw: Option<String>,
    pub find_first: Option<String>,
    pub find_first_or_throw: Option<String>,
    pub find_many: Option<String>,
    pub create: Option<String>,
    pub create_many: Option<String>,
    pub create_many_and_return: Option<String>,
    pub update: Option<String>,
    pub update_many: Option<String>,
    pub update_many_and_return: Option<String>,
    pub upsert: Option<String>,
    pub delete: Option<String>,
    pub delete_many: Option<String>,
    pub aggregate: Option<String>,
    pub group_by: Option<String>,
    pub count: Option<String>,
    pub find_raw: Option<String>,
    pub aggregate_raw: Option<String>,
}

#[derive(Debug, Clone, PartialEq, Eq, Structural)]
pub enum ModelAction {
    FindUnique,
    FindUniqueOrThrow,
    FindFirst,
    FindFirstOrThrow,
    FindMany,
    Create,
    CreateMany,
    CreateManyAndReturn,
    Update,
    UpdateMany,
    UpdateManyAndReturn,
    Upsert,
    Delete,
    DeleteMany,
    GroupBy,
    Count,
    Aggregate,
    FindRaw,
    AggregateRaw,
}

} // verus!
