//! Locating the built page script: the asset manifest is JSON, and the
//! script's file name sits under the page's source-module entry. Reading
//! the manifest file from disk belongs to the caller; this module takes its
//! text.

use vstd::prelude::*;

verus! {

#[verifier::external_type_specification]
#[verifier::external_body]
pub struct ExValue(serde_json::Value);

#[verifier::external_type_specification]
#[verifier::external_body]
pub struct ExJsonPath(serde_json_path::JsonPath);

/// Relies on `serde_json::from_str`: parses JSON text into a value tree;
/// `None` stands for a parse failure.
#[verifier::external_body]
fn parse_json(text: &str) -> (r: Option<serde_json::Value>)
{
    serde_json::from_str(text).ok()
}

/// Relies on `serde_json_path::JsonPath::parse`: compiles a JSON-path
/// query; `None` stands for an invalid query.
#[verifier::external_body]
fn parse_json_path(path: &str) -> (r: Option<serde_json_path::JsonPath>)
{
    serde_json_path::JsonPath::parse(path).ok()
}

/// Relies on `JsonPath::query` and `NodeList::exactly_one`: the single node
/// the query locates, or `None` when it locates none or several.
#[verifier::external_body]
fn query_exactly_one<'a>(
    path: &serde_json_path::JsonPath,
    value: &'a serde_json::Value,
) -> (r: Option<&'a serde_json::Value>)
{
    path.query(value).exactly_one().ok()
}

/// Relies on `serde_json::Value::as_str` and `str::to_owned`: the node's
/// string content, or `None` for a non-string node.
#[verifier::external_body]
fn value_as_string(value: &serde_json::Value) -> (r: Option<String>)
{
    match value.as_str() {
        Some(s) => Some(s.to_owned()),
        None => None,
    }
}

/// The single string a JSON-path query locates in the manifest text: the
/// text must parse, the query must locate exactly one node, and that node
/// must be a string.
pub fn read_manifest(manifest: &str, path: &str) -> (r: Option<String>) {
    let value = match parse_json(manifest) {
        Some(v) => v,
        None => {
            return None;
        },
    };
    let query = match parse_json_path(path) {
        Some(q) => q,
        None => {
            return None;
        },
    };
    let node = match query_exactly_one(&query, &value) {
        Some(n) => n,
        None => {
            return None;
        },
    };
    value_as_string(node)
}

/// The file name of the page's script: the manifest entry of the page's
/// source module.
pub fn javascript_filename(manifest: &str) -> (r: Option<String>) {
    read_manifest(manifest, "$[\"src/main.tsx\"].file")
}

} // verus!
