use vstd::prelude::*;

use crate::codec::{decode_document, res_view, spec_decode_document, DecodeError, DecodeErrorV};
use crate::encode::encode_document;
use crate::model::Document;
use crate::tree::Tree;

verus! {

#[verifier::external_type_specification]
#[verifier::external_body]
pub struct ExJsonValue(serde_json::Value);

#[verifier::external_type_specification]
#[verifier::external_body]
pub struct ExYamlValue(serde_yaml::Value);

/// The two text syntaxes a document can be written in.
#[derive(Clone, Copy, Debug, PartialEq, Eq, Structural)]
pub enum Syntax {
    Json,
    Yaml,
}

/// What serde_json reads from a text, as a tree; `None` where the text is not JSON.
pub uninterp spec fn json_tree_of(s: Seq<char>) -> Option<Tree>;

/// What serde_yaml reads from a text, as a tree; `None` where the text is not YAML.
pub uninterp spec fn yaml_tree_of(s: Seq<char>) -> Option<Tree>;

/// The JSON text serde_json writes for a tree.
pub uninterp spec fn json_text_of(t: Tree) -> Seq<char>;

/// The YAML text serde_yaml writes for a tree.
pub uninterp spec fn yaml_text_of(t: Tree) -> Seq<char>;

/// Turns a serde_json value into a tree, variant for variant.
#[verifier::external_body]
fn tree_from_json(v: serde_json::Value) -> Tree {
    match v {
        serde_json::Value::Null => Tree::Null,
        serde_json::Value::Bool(b) => Tree::Bool(b),
        serde_json::Value::Number(n) => Tree::Num(n.to_string()),
        serde_json::Value::String(s) => Tree::Str(s),
        serde_json::Value::Array(a) => Tree::Array(a.into_iter().map(tree_from_json).collect()),
        serde_json::Value::Object(m) => Tree::Object(
            m.into_iter().map(|(k, x)| (Tree::Str(k), tree_from_json(x))).collect(),
        ),
    }
}

/// Turns a serde_yaml value into a tree, variant for variant.
#[verifier::external_body]
fn tree_from_yaml(v: serde_yaml::Value) -> Tree {
    match v {
        serde_yaml::Value::Null => Tree::Null,
        serde_yaml::Value::Bool(b) => Tree::Bool(b),
        serde_yaml::Value::Number(n) => Tree::Num(n.to_string()),
        serde_yaml::Value::String(s) => Tree::Str(s),
        serde_yaml::Value::Sequence(a) => Tree::Array(a.into_iter().map(tree_from_yaml).collect()),
        serde_yaml::Value::Mapping(m) => Tree::Object(
            m.into_iter().map(|(k, x)| (tree_from_yaml(k), tree_from_yaml(x))).collect(),
        ),
    }
}

/// Turns a tree into a serde_json value; a key that is not a string is
/// written as its own JSON text.
#[verifier::external_body]
fn json_from_tree(t: &Tree) -> serde_json::Value {
    match t {
        Tree::Null => serde_json::Value::Null,
        Tree::Bool(b) => serde_json::Value::Bool(*b),
        Tree::Num(n) => serde_json::from_str(n).unwrap_or(serde_json::Value::Null),
        Tree::Str(s) => serde_json::Value::String(s.clone()),
        Tree::Array(a) => serde_json::Value::Array(a.iter().map(json_from_tree).collect()),
        Tree::Object(m) => serde_json::Value::Object(
            m.iter()
                .map(|(k, x)| match k {
                    Tree::Str(s) => (s.clone(), json_from_tree(x)),
                    other => (json_from_tree(other).to_string(), json_from_tree(x)),
                })
                .collect(),
        ),
    }
}

/// Turns a tree into a serde_yaml value, variant for variant.
#[verifier::external_body]
fn yaml_from_tree(t: &Tree) -> serde_yaml::Value {
    match t {
        Tree::Null => serde_yaml::Value::Null,
        Tree::Bool(b) => serde_yaml::Value::Bool(*b),
        Tree::Num(n) => serde_yaml::from_str(n).unwrap_or(serde_yaml::Value::Null),
        Tree::Str(s) => serde_yaml::Value::String(s.clone()),
        Tree::Array(a) => serde_yaml::Value::Sequence(a.iter().map(yaml_from_tree).collect()),
        Tree::Object(m) => serde_yaml::Value::Mapping(
            m.iter().map(|(k, x)| (yaml_from_tree(k), yaml_from_tree(x))).collect(),
        ),
    }
}

/// Relies on serde_json::from_str into serde_json::Value: the parsed value,
/// or an error where the text is not JSON. The result depends on the text alone.
#[verifier::external_body]
fn parse_json(text: &str) -> (r: Option<Tree>)
    ensures
        r == json_tree_of(text@),
{
    match serde_json::from_str::<serde_json::Value>(text) {
        Ok(v) => Some(tree_from_json(v)),
        Err(_) => None,
    }
}

/// Relies on serde_yaml::from_str into serde_yaml::Value: the parsed value,
/// or an error where the text is not YAML. The result depends on the text alone.
#[verifier::external_body]
fn parse_yaml(text: &str) -> (r: Option<Tree>)
    ensures
        r == yaml_tree_of(text@),
{
    match serde_yaml::from_str::<serde_yaml::Value>(text) {
        Ok(v) => Some(tree_from_yaml(v)),
        Err(_) => None,
    }
}

/// Relies on serde_json::to_string of a serde_json::Value, which depends on
/// the value alone.
#[verifier::external_body]
fn emit_json(t: &Tree) -> (r: String)
    ensures
        r@ == json_text_of(*t),
{
    serde_json::to_string(&json_from_tree(t)).unwrap_or_default()
}

/// Relies on serde_yaml::to_string of a serde_yaml::Value, which depends on
/// the value alone.
#[verifier::external_body]
fn emit_yaml(t: &Tree) -> (r: String)
    ensures
        r@ == yaml_text_of(*t),
{
    serde_yaml::to_string(&yaml_from_tree(t)).unwrap_or_default()
}

/// The tree a text reads as in the given syntax.
pub open spec fn spec_parse(s: Seq<char>, syntax: Syntax) -> Option<Tree> {
    match syntax {
        Syntax::Json => json_tree_of(s),
        Syntax::Yaml => yaml_tree_of(s),
    }
}

/// The text a tree is written as in the given syntax.
pub open spec fn spec_emit(t: Tree, syntax: Syntax) -> Seq<char> {
    match syntax {
        Syntax::Json => json_text_of(t),
        Syntax::Yaml => yaml_text_of(t),
    }
}

/// How a text reads as a `Document`: a syntax error where the text does not
/// parse, else what its tree reads as.
pub open spec fn spec_decode_text(s: Seq<char>, syntax: Syntax) -> Result<crate::model::DocumentV, DecodeErrorV> {
    match spec_parse(s, syntax) {
        None => Err(DecodeErrorV::SyntaxError),
        Some(t) => spec_decode_document(t),
    }
}

/// Parses a text in the given syntax and reads a tree from it.
pub fn parse(text: &str, syntax: Syntax) -> (r: Option<Tree>)
    ensures
        r == spec_parse(text@, syntax),
{
    match syntax {
        Syntax::Json => parse_json(text),
        Syntax::Yaml => parse_yaml(text),
    }
}

/// Writes a tree as text in the given syntax.
pub fn emit(t: &Tree, syntax: Syntax) -> (r: String)
    ensures
        r@ == spec_emit(*t, syntax),
{
    match syntax {
        Syntax::Json => emit_json(t),
        Syntax::Yaml => emit_yaml(t),
    }
}

/// Reads a `Document` from a text in the given syntax.
pub fn decode(text: &str, syntax: Syntax) -> (r: Result<Document, DecodeError>)
    ensures
        res_view(r) == spec_decode_text(text@, syntax),
{
    match parse(text, syntax) {
        None => Err(DecodeError::SyntaxError),
        Some(t) => decode_document(&t),
    }
}

/// Writes a well-formed `Document` as text in the given syntax: the text of a tree that
/// reads back as `d`.
pub fn encode(d: &Document, syntax: Syntax) -> (r: String)
    requires
        d.wf(),
    ensures
        exists|t: Tree| spec_decode_document(t) == Ok::<_, DecodeErrorV>(d@) && r@ == spec_emit(t, syntax),
{
    let t = encode_document(d);
    emit(&t, syntax)
}

} // verus!
