//! YAML documents as plain values: what the control-script logic reads of
//! a parsed YAML document, and the call that parses the text.
use vstd::prelude::*;

verus! {

/// A node of a parsed YAML document, with its values held plainly.
/// A mapping keeps its entries in document order.
#[derive(Debug)]
pub enum YamlNode {
    Real(String),
    Integer(i64),
    Str(String),
    Boolean(bool),
    Array(Vec<YamlNode>),
    Hash(Vec<(YamlNode, YamlNode)>),
    Alias(usize),
    Null,
    BadValue,
}

#[verifier::external_type_specification]
#[verifier::external_body]
pub struct ExYaml(yaml_rust::Yaml);

/// The documents that `yaml_rust::YamlLoader::load_from_str` reads from a
/// text, each converted node for node; where the loader reports a scan
/// error, the error's text.
pub uninterp spec fn yaml_documents(text: Seq<char>) -> Result<Seq<YamlNode>, Seq<char>>;

/// Converts one node of the outside representation, variant for variant.
#[verifier::external_body]
fn node_of(y: yaml_rust::Yaml) -> YamlNode {
    match y {
        yaml_rust::Yaml::Real(s) => YamlNode::Real(s),
        yaml_rust::Yaml::Integer(i) => YamlNode::Integer(i),
        yaml_rust::Yaml::String(s) => YamlNode::Str(s),
        yaml_rust::Yaml::Boolean(b) => YamlNode::Boolean(b),
        yaml_rust::Yaml::Array(a) => YamlNode::Array(a.into_iter().map(node_of).collect()),
        yaml_rust::Yaml::Hash(h) => YamlNode::Hash(h.into_iter().map(|(k, v)| (node_of(k), node_of(v))).collect()),
        yaml_rust::Yaml::Alias(n) => YamlNode::Alias(n),
        yaml_rust::Yaml::Null => YamlNode::Null,
        yaml_rust::Yaml::BadValue => YamlNode::BadValue,
    }
}

/// `yaml_rust::YamlLoader::load_from_str`: parses a YAML text into its
/// documents, or gives the text of the scan error. The contract only names
/// the result (`yaml_documents`) as a function of the text; the YAML
/// grammar itself is not restated.
#[verifier::external_body]
pub fn load_yaml_documents(text: &str) -> (r: Result<Vec<YamlNode>, String>)
    ensures
        match r {
            Ok(v) => yaml_documents(text@) == Ok::<Seq<YamlNode>, Seq<char>>(v@),
            Err(e) => yaml_documents(text@) == Err::<Seq<YamlNode>, Seq<char>>(e@),
        },
{
    match yaml_rust::YamlLoader::load_from_str(text) {
        Ok(docs) => Ok(docs.into_iter().map(node_of).collect()),
        Err(e) => Err(e.to_string()),
    }
}

impl YamlNode {
    /// The text of a string node (`Yaml::as_str`).
    pub open spec fn str_value(self) -> Option<Seq<char>> {
        match self {
            YamlNode::Str(s) => Some(s@),
            _ => None,
        }
    }

    /// `Yaml::as_str`.
    pub fn as_str(&self) -> (r: Option<&str>)
        ensures
            match r {
                Some(s) => self.str_value() == Some(s@),
                None => self.str_value() is None,
            },
    {
        match self {
            YamlNode::Str(s) => Some(s.as_str()),
            _ => None,
        }
    }
}

/// Index of the first entry whose key is the string `key`, at or after `i`.
pub open spec fn hash_key_index(h: Seq<(YamlNode, YamlNode)>, key: Seq<char>, i: int) -> int
    decreases h.len() - i,
{
    if i < 0 || i >= h.len() {
        -1
    } else if h[i].0.str_value() == Some(key) {
        i
    } else {
        hash_key_index(h, key, i + 1)
    }
}

/// The value stored under the string key `key` (`Hash::get(&Yaml::String(..))`).
pub open spec fn hash_get(h: Seq<(YamlNode, YamlNode)>, key: Seq<char>) -> Option<YamlNode> {
    let k = hash_key_index(h, key, 0);
    if k < 0 {
        None
    } else {
        Some(h[k].1)
    }
}

pub proof fn lemma_hash_key_index(h: Seq<(YamlNode, YamlNode)>, key: Seq<char>, i: int)
    requires
        0 <= i,
    ensures
        hash_key_index(h, key, i) == -1 || (i <= hash_key_index(h, key, i) < h.len()
            && h[hash_key_index(h, key, i)].0.str_value() == Some(key)),
    decreases h.len() - i,
{
    if i < h.len() && h[i].0.str_value() != Some(key) {
        lemma_hash_key_index(h, key, i + 1);
    }
}

/// Looks up the entry stored under a string key.
pub fn hash_lookup<'a>(h: &'a Vec<(YamlNode, YamlNode)>, key: &str) -> (r: Option<&'a YamlNode>)
    ensures
        match r {
            Some(v) => hash_get(h@, key@) == Some(*v),
            None => hash_get(h@, key@) is None,
        },
{
    let mut i: usize = 0;
    while i < h.len()
        invariant
            i <= h.len(),
            hash_key_index(h@, key@, 0) == hash_key_index(h@, key@, i as int),
        decreases h.len() - i,
    {
        let is_key = match &h[i].0 {
            YamlNode::Str(s) => crate::text::str_eq(s.as_str(), key),
            _ => false,
        };
        if is_key {
            return Some(&h[i].1);
        }
        i = i + 1;
    }
    None
}

} // verus!
