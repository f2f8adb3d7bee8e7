//! Turning outside document values into the library's own.
//!
//! The catalog arrives as YAML text and the engine's report as JSON text.
//! Both are parsed by their own crates; each node of the parsed value is
//! then carried over, one variant to one variant, into a `Doc` that the
//! verified logic reads.

use vstd::prelude::*;

use crate::doc::{docs_view, Doc, DocV};

verus! {

/// Relies on yaml_rust::Yaml: the parsed YAML node, carried opaquely into
/// the conversion below.
#[verifier::external_type_specification]
#[verifier::external_body]
pub struct ExYaml(yaml_rust::Yaml);

/// Relies on serde_json::Value: the parsed JSON node, carried opaquely
/// into the conversion below.
#[verifier::external_type_specification]
#[verifier::external_body]
pub struct ExJsonValue(serde_json::Value);

/// What parsing YAML text yields: the documents' models, or the scanner's
/// error text. Parsing depends on the text alone.
pub uninterp spec fn yaml_docs_of(text: Seq<char>) -> Result<Seq<DocV>, Seq<char>>;

/// Relies on yaml_rust::YamlLoader::load_from_str: parses YAML text into a
/// list of documents — a function of the text alone — each node carried
/// over by the conversion below; a scan failure is the scanner's own
/// message.
#[verifier::external_body]
pub(crate) fn load_yaml_docs(text: &str) -> (r: Result<Vec<Doc>, String>)
    ensures
        (match r {
            Ok(docs) => Ok::<Seq<DocV>, Seq<char>>(docs_view(docs@)),
            Err(e) => Err::<Seq<DocV>, Seq<char>>(e@),
        }) == yaml_docs_of(text@),
{
    match yaml_rust::YamlLoader::load_from_str(text) {
        Ok(ys) => Ok(ys.iter().map(yaml_to_doc).collect()),
        Err(e) => Err(e.to_string()),
    }
}

/// Relies on the yaml_rust::Yaml variants: each node is carried over to the
/// matching document node, one arm per variant; an absent node maps to an
/// absent node, and node kinds the logic never reads collapse together.
#[verifier::external_body]
pub(crate) fn yaml_to_doc(y: &yaml_rust::Yaml) -> Doc {
    match y {
        yaml_rust::Yaml::String(s) => Doc::Str(s.clone()),
        yaml_rust::Yaml::Boolean(b) => Doc::Bool(*b),
        yaml_rust::Yaml::Integer(i) => Doc::Int(*i),
        yaml_rust::Yaml::Array(a) => Doc::Array(a.iter().map(yaml_to_doc).collect()),
        yaml_rust::Yaml::Hash(h) => Doc::Mapping(
            h.iter().map(|(k, v)| (yaml_to_doc(k), yaml_to_doc(v))).collect(),
        ),
        yaml_rust::Yaml::BadValue => Doc::Missing,
        _ => Doc::Other,
    }
}

/// What parsing JSON text yields: the document's model, or the parser's
/// error text. Parsing depends on the text alone.
pub uninterp spec fn json_doc_of(text: Seq<char>) -> Result<DocV, Seq<char>>;

/// Relies on serde_json::from_str: parses JSON text into one value — a
/// function of the text alone — carried over by the conversion below; a
/// parse failure is the parser's own message.
#[verifier::external_body]
pub(crate) fn parse_json_doc(text: &str) -> (r: Result<Doc, String>)
    ensures
        (match r {
            Ok(d) => Ok::<DocV, Seq<char>>(d.dv()),
            Err(e) => Err::<DocV, Seq<char>>(e@),
        }) == json_doc_of(text@),
{
    match serde_json::from_str::<serde_json::Value>(text) {
        Ok(v) => Ok(json_to_doc(&v)),
        Err(e) => Err(e.to_string()),
    }
}

/// Relies on the serde_json::Value variants: each node is carried over to
/// the matching document node, one arm per variant; numbers outside the
/// signed 64-bit range and nulls collapse into the node kind the logic
/// never reads.
#[verifier::external_body]
pub(crate) fn json_to_doc(v: &serde_json::Value) -> Doc {
    match v {
        serde_json::Value::String(s) => Doc::Str(s.clone()),
        serde_json::Value::Bool(b) => Doc::Bool(*b),
        serde_json::Value::Number(n) => match n.as_i64() {
            Some(i) => Doc::Int(i),
            None => Doc::Other,
        },
        serde_json::Value::Array(a) => Doc::Array(a.iter().map(json_to_doc).collect()),
        serde_json::Value::Object(m) => Doc::Mapping(
            m.iter().map(|(k, v)| (Doc::Str(k.clone()), json_to_doc(v))).collect(),
        ),
        serde_json::Value::Null => Doc::Other,
    }
}

} // verus!
