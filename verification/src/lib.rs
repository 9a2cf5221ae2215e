//! Translation of database schema declarations into Rust type declarations:
//! identifier case classification and conversion, documentation-directive
//! parsing, field-type mapping, declaration emission and patch merging.

pub mod text;
pub mod transform;
pub mod annotation;
pub mod emit;
pub mod code;
pub mod jsonrpc;
pub mod dmmf;
pub mod config;
pub mod typed_sql;
