//! The request/response vocabulary of the line-based protocol: the
//! generator manifest and the dispatch decision for an incoming method
//! name. The transport itself (reading lines, serializing JSON) lives
//! outside the library.

use vstd::prelude::*;
use crate::text::eq_str;

verus! {

pub struct Manifest {
    pub pretty_name: String,
    pub default_output: String,
    pub denylists: Option<Denylists>,
    pub requires_generators: Option<Vec<String>>,
    pub requires_engines: Option<Vec<String>>,
    pub version: Option<String>,
    pub requires_engine_version: Option<String>,
}

pub struct Denylists {
    pub models: Option<Vec<String>>,
    pub fields: Option<Vec<String>>,
}

pub struct ManifestResponse {
    pub manifest: Manifest,
}

/// What an incoming request method asks for.
#[derive(Debug, Clone, Copy, PartialEq, Eq, Structural)]
pub enum RequestMethod {
    GetManifest,
    Generate,
    Unknown,
}

/// The dispatch decision for a method name.
pub open spec fn method_of(m: Seq<char>) -> RequestMethod {
    if m == "getManifest"@ {
        RequestMethod::GetManifest
    } else if m == "generate"@ {
        RequestMethod::Generate
    } else {
        RequestMethod::Unknown
    }
}

/// The dispatch decision for an incoming method name.
pub fn parse_method(method: &str) -> (r: RequestMethod)
    ensures
        r == method_of(method@),
{
    if eq_str(method, "getManifest") {
        RequestMethod::GetManifest
    } else if eq_str(method, "generate") {
        RequestMethod::Generate
    } else {
        RequestMethod::Unknown
    }
}

/// The manifest this generator answers a `getManifest` request with.
pub fn default_manifest(version: String) -> (r: ManifestResponse)
    ensures
        r.manifest.pretty_name@ == "Prisma Rust Schema"@,
        r.manifest.default_output@ == "../src/prisma-rust-schema.rs"@,
        r.manifest.version matches Some(v) && v@ == version@,
        r.manifest.denylists is None,
        r.manifest.requires_generators is None,
        r.manifest.requires_engines is None,
        r.manifest.requires_engine_version is None,
{
    ManifestResponse {
        manifest: Manifest {
            pretty_name: String::from_str("Prisma Rust Schema"),
            default_output: String::from_str("../src/prisma-rust-schema.rs"),
            denylists: None,
            requires_generators: None,
            requires_engines: None,
            version: Some(version),
            requires_engine_version: None,
        },
    }
}

/// The error message for a method the generator cannot handle.
pub fn unknown_method_message(method: &str) -> (r: String)
    ensures
        r@ == "Cannot handle method "@ + method@,
{
    let mut s = String::from_str("Cannot handle method ");
    s.append(method);
    s
}

} // verus!
