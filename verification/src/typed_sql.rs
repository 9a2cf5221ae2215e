//! Typed SQL query descriptions: introspected queries, their parameters and
//! result columns, and the builtin column-type vocabulary.

use vstd::prelude::*;
use crate::text::eq_str;

verus! {

pub struct SqlQueryOutput {
    pub name: String,
    pub source: String,
    pub documentation: Option<String>,
    pub parameters: Vec<SqlQueryParameterOutput>,
    pub result_columns: Vec<SqlQueryColumnOutput>,
}

pub struct SqlQueryParameterOutput {
    pub name: String,
    pub typ: QueryIntrospectionType,
    pub documentation: Option<String>,
    pub nullable: bool,
}

pub struct SqlQueryColumnOutput {
    pub name: String,
    pub typ: QueryIntrospectionType,
    pub nullable: bool,
}

#[derive(Debug, Clone, PartialEq, Eq)]
pub enum QueryIntrospectionType {
    Builtin(QueryIntrospectionBuiltinType),
    UserDefined(String),
}

// This must remain in sync with the column-type vocabulary of the query
// engine that introspects the SQL.
#[derive(Debug, Clone, Copy, PartialEq, Eq, Structural)]
pub enum QueryIntrospectionBuiltinType {
    Int,
    Bigint,
    Float,
    Double,
    String,
    Enum,
    Bytes,
    Bool,
    Char,
    Decimal,
    Json,
    Xml,
    Uuid,
    Datetime,
    Date,
    Time,
    IntArray,
    BigintArray,
    FloatArray,
    DoubleArray,
    StringArray,
    CharArray,
    BytesArray,
    BoolArray,
    DecimalArray,
    JsonArray,
    XmlArray,
    UuidArray,
    DatetimeArray,
    DateArray,
    TimeArray,
    Null,
    Unknown,
}

/// The builtin column type a wire name stands for, if it names one.
pub open spec fn builtin_type_of(s: Seq<char>) -> Option<QueryIntrospectionBuiltinType> {
    if s == "int"@ {
        Some(QueryIntrospectionBuiltinType::Int)
    } else if s == "bigint"@ {
        Some(QueryIntrospectionBuiltinType::Bigint)
    } else if s == "float"@ {
        Some(QueryIntrospectionBuiltinType::Float)
    } else if s == "double"@ {
        Some(QueryIntrospectionBuiltinType::Double)
    } else if s == "string"@ {
        Some(QueryIntrospectionBuiltinType::String)
    } else if s == "enum"@ {
        Some(QueryIntrospectionBuiltinType::Enum)
    } else if s == "bytes"@ {
        Some(QueryIntrospectionBuiltinType::Bytes)
    } else if s == "bool"@ {
        Some(QueryIntrospectionBuiltinType::Bool)
    } else if s == "char"@ {
        Some(QueryIntrospectionBuiltinType::Char)
    } else if s == "decimal"@ {
        Some(QueryIntrospectionBuiltinType::Decimal)
    } else if s == "json"@ {
        Some(QueryIntrospectionBuiltinType::Json)
    } else if s == "xml"@ {
        Some(QueryIntrospectionBuiltinType::Xml)
    } else if s == "uuid"@ {
        Some(QueryIntrospectionBuiltinType::Uuid)
    } else if s == "datetime"@ {
        Some(QueryIntrospectionBuiltinType::Datetime)
    } else if s == "date"@ {
        Some(QueryIntrospectionBuiltinType::Date)
    } else if s == "time"@ {
        Some(QueryIntrospectionBuiltinType::Time)
    } else if s == "int-array"@ {
        Some(QueryIntrospectionBuiltinType::IntArray)
    } else if s == "bigint-array"@ {
        Some(QueryIntrospectionBuiltinType::BigintArray)
    } else if s == "float-array"@ {
        Some(QueryIntrospectionBuiltinType::FloatArray)
    } else if s == "double-array"@ {
        Some(QueryIntrospectionBuiltinType::DoubleArray)
    } else if s == "string-array"@ {
        Some(QueryIntrospectionBuiltinType::StringArray)
    } else if s == "char-array"@ {
        Some(QueryIntrospectionBuiltinType::CharArray)
    } else if s == "bytes-array"@ {
        Some(QueryIntrospectionBuiltinType::BytesArray)
    } else if s == "bool-array"@ {
        Some(QueryIntrospectionBuiltinType::BoolArray)
    } else if s == "decimal-array"@ {
        Some(QueryIntrospectionBuiltinType::DecimalArray)
    } else if s == "json-array"@ {
        Some(QueryIntrospectionBuiltinType::JsonArray)
    } else if s == "xml-array"@ {
        Some(QueryIntrospectionBuiltinType::XmlArray)
    } else if s == "uuid-array"@ {
        Some(QueryIntrospectionBuiltinType::UuidArray)
    } else if s == "datetime-array"@ {
        Some(QueryIntrospectionBuiltinType::DatetimeArray)
    } else if s == "date-array"@ {
        Some(QueryIntrospectionBuiltinType::DateArray)
    } else if s == "time-array"@ {
        Some(QueryIntrospectionBuiltinType::TimeArray)
    } else if s == "null"@ {
        Some(QueryIntrospectionBuiltinType::Null)
    } else if s == "unknown"@ {
        Some(QueryIntrospectionBuiltinType::Unknown)
    } else {
        None
    }
}

impl QueryIntrospectionType {
    /// The introspection type a wire name stands for: a builtin where the
    /// name is in the vocabulary, the name itself as user-defined otherwise.
    pub fn from(s: &str) -> (r: Self)
        ensures
            match builtin_type_of(s@) {
                Some(b) => r == QueryIntrospectionType::Builtin(b),
                None => r matches QueryIntrospectionType::UserDefined(u) && u@ == s@,
            },
    {
        if eq_str(s, "int") {
            QueryIntrospectionType::Builtin(QueryIntrospectionBuiltinType::Int)
        } else if eq_str(s, "bigint") {
            QueryIntrospectionType::Builtin(QueryIntrospectionBuiltinType::Bigint)
        } else if eq_str(s, "float") {
            QueryIntrospectionType::Builtin(QueryIntrospectionBuiltinType::Float)
        } else if eq_str(s, "double") {
            QueryIntrospectionType::Builtin(QueryIntrospectionBuiltinType::Double)
        } else if eq_str(s, "string") {
            QueryIntrospectionType::Builtin(QueryIntrospectionBuiltinType::String)
        } else if eq_str(s, "enum") {
            QueryIntrospectionType::Builtin(QueryIntrospectionBuiltinType::Enum)
        } else if eq_str(s, "bytes") {
            QueryIntrospectionType::Builtin(QueryIntrospectionBuiltinType::Bytes)
        } else if eq_str(s, "bool") {
            QueryIntrospectionType::Builtin(QueryIntrospectionBuiltinType::Bool)
        } else if eq_str(s, "char") {
            QueryIntrospectionType::Builtin(QueryIntrospectionBuiltinType::Char)
        } else if eq_str(s, "decimal") {
            QueryIntrospectionType::Builtin(QueryIntrospectionBuiltinType::Decimal)
        } else if eq_str(s, "json") {
            QueryIntrospectionType::Builtin(QueryIntrospectionBuiltinType::Json)
        } else if eq_str(s, "xml") {
            QueryIntrospectionType::Builtin(QueryIntrospectionBuiltinType::Xml)
        } else if eq_str(s, "uuid") {
            QueryIntrospectionType::Builtin(QueryIntrospectionBuiltinType::Uuid)
        } else if eq_str(s, "datetime") {
            QueryIntrospectionType::Builtin(QueryIntrospectionBuiltinType::Datetime)
        } else if eq_str(s, "date") {
            QueryIntrospectionType::Builtin(QueryIntrospectionBuiltinType::Date)
        } else if eq_str(s, "time") {
            QueryIntrospectionType::Builtin(QueryIntrospectionBuiltinType::Time)
        } else if eq_str(s, "int-array") {
            QueryIntrospectionType::Builtin(QueryIntrospectionBuiltinType::IntArray)
        } else if eq_str(s, "bigint-array") {
            QueryIntrospectionType::Builtin(QueryIntrospectionBuiltinType::BigintArray)
        } else if eq_str(s, "float-array") {
            QueryIntrospectionType::Builtin(QueryIntrospectionBuiltinType::FloatArray)
        } else if eq_str(s, "double-array") {
            QueryIntrospectionType::Builtin(QueryIntrospectionBuiltinType::DoubleArray)
        } else if eq_str(s, "string-array") {
            QueryIntrospectionType::Builtin(QueryIntrospectionBuiltinType::StringArray)
        } else if eq_str(s, "char-array") {
            QueryIntrospectionType::Builtin(QueryIntrospectionBuiltinType::CharArray)
        } else if eq_str(s, "bytes-array") {
            QueryIntrospectionType::Builtin(QueryIntrospectionBuiltinType::BytesArray)
        } else if eq_str(s, "bool-array") {
            QueryIntrospectionType::Builtin(QueryIntrospectionBuiltinType::BoolArray)
        } else if eq_str(s, "decimal-array") {
            QueryIntrospectionType::Builtin(QueryIntrospectionBuiltinType::DecimalArray)
        } else if eq_str(s, "json-array") {
            QueryIntrospectionType::Builtin(QueryIntrospectionBuiltinType::JsonArray)
        } else if eq_str(s, "xml-array") {
            QueryIntrospectionType::Builtin(QueryIntrospectionBuiltinType::XmlArray)
        } else if eq_str(s, "uuid-array") {
            QueryIntrospectionType::Builtin(QueryIntrospectionBuiltinType::UuidArray)
        } else if eq_str(s, "datetime-array") {
            QueryIntrospectionType::Builtin(QueryIntrospectionBuiltinType::DatetimeArray)
        } else if eq_str(s, "date-array") {
            QueryIntrospectionType::Builtin(QueryIntrospectionBuiltinType::DateArray)
        } else if eq_str(s, "time-array") {
            QueryIntrospectionType::Builtin(QueryIntrospectionBuiltinType::TimeArray)
        } else if eq_str(s, "null") {
            QueryIntrospectionType::Builtin(QueryIntrospectionBuiltinType::Null)
        } else if eq_str(s, "unknown") {
            QueryIntrospectionType::Builtin(QueryIntrospectionBuiltinType::Unknown)
        } else {
            QueryIntrospectionType::UserDefined(s.to_owned())
        }
    }
}

} // verus!
