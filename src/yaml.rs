//! Reading asset text with yaml-rust into [`Node`] trees.

use vstd::prelude::*;
use yaml_rust::{ScanError, Yaml, YamlLoader};
use crate::document::Node;
use crate::extract::{ExtractError, documents_spec, record_from_documents};
use crate::record::SalvageRewardData;

verus! {

#[verifier::external_type_specification]
#[verifier::external_body]
pub struct ExYaml(Yaml);

#[verifier::external_type_specification]
#[verifier::external_body]
pub struct ExScanError(ScanError);

/// The documents that yaml-rust reads from a text, each node turned into the
/// [`Node`] variant of the same name; `None` when it rejects the text.
pub uninterp spec fn yaml_load(text: Seq<char>) -> Option<Seq<Node>>;

/// Relies on yaml_rust::YamlLoader::load_from_str to parse a text into its
/// documents, or to report a scan error; the outcome depends on the text alone.
#[verifier::external_body]
fn load_yaml(text: &str) -> (r: Result<Vec<Node>, ScanError>)
    ensures
        match r {
            Ok(docs) => yaml_load(text@) == Some(docs@),
            Err(_) => yaml_load(text@) is None,
        },
{
    YamlLoader::load_from_str(text).map(|docs| docs.into_iter().map(node_of).collect())
}

/// Relies on the variants of yaml_rust::Yaml: each one becomes the node of the
/// same name, its fields moved out, at every level; a hash gives its entries in
/// order.
#[verifier::external_body]
fn node_of(y: Yaml) -> Node {
    match y {
        Yaml::Real(s) => Node::Real(s),
        Yaml::Integer(i) => Node::Integer(i),
        Yaml::String(s) => Node::Text(s),
        Yaml::Boolean(b) => Node::Boolean(b),
        Yaml::Array(items) => Node::Sequence(items.into_iter().map(node_of).collect()),
        Yaml::Hash(h) => Node::Mapping(h.into_iter().map(|(k, v)| (node_of(k), node_of(v))).collect()),
        Yaml::Alias(a) => Node::Alias(a),
        Yaml::Null => Node::Null,
        Yaml::BadValue => Node::Bad,
    }
}

/// Parses asset text into its documents.
pub fn parse_documents(text: &str) -> (r: Result<Vec<Node>, ExtractError>)
    ensures
        match r {
            Ok(docs) => yaml_load(text@) == Some(docs@),
            Err(e) => yaml_load(text@) is None && e == ExtractError::UnparseableDocument,
        },
{
    match load_yaml(text) {
        Ok(docs) => Ok(docs),
        Err(_) => Err(ExtractError::UnparseableDocument),
    }
}

/// Extracts the reward record of an asset file's text: the text fails to
/// parse, or its documents give what [`record_from_documents`] gives.
pub fn record_from_text(text: &str) -> (r: Result<SalvageRewardData, ExtractError>)
    ensures
        r == match yaml_load(text@) {
            Some(docs) => documents_spec(docs),
            None => Err(ExtractError::UnparseableDocument),
        },
{
    match parse_documents(text) {
        Ok(docs) => record_from_documents(&docs),
        Err(e) => Err(e),
    }
}

} // verus!
