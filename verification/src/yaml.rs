//! A YAML document as the activity parser reads it: scalars, mappings and
//! sequences, each node with the lines it spans.
use vstd::prelude::*;
use marked_yaml::{parse_yaml, LoadError, Node};

verus! {

/// The content of a YAML node.
pub enum YamlValue {
    Scalar(String),
    /// Entries in document order; keys are unique in a loaded document.
    Mapping(Vec<(String, YamlNode)>),
    Sequence(Vec<YamlNode>),
}

/// A YAML node and the first and last lines it spans, where the loader
/// knows them.
pub struct YamlNode {
    pub value: YamlValue,
    pub start_line: Option<usize>,
    pub end_line: Option<usize>,
}

/// The value of the first entry whose key is `key`.
pub open spec fn lookup(entries: Seq<(String, YamlNode)>, key: Seq<char>) -> Option<YamlNode>
    decreases entries.len(),
{
    if entries.len() == 0 {
        None
    } else if entries[0].0@ == key {
        Some(entries[0].1)
    } else {
        lookup(entries.drop_first(), key)
    }
}

/// The text of a scalar node.
pub open spec fn scalar_of(node: YamlNode) -> Option<String> {
    match node.value {
        YamlValue::Scalar(s) => Some(s),
        _ => None,
    }
}

/// The entries of a mapping node.
pub open spec fn mapping_of(node: YamlNode) -> Option<Seq<(String, YamlNode)>> {
    match node.value {
        YamlValue::Mapping(m) => Some(m@),
        _ => None,
    }
}

/// The items of a sequence node.
pub open spec fn sequence_of(node: YamlNode) -> Option<Seq<YamlNode>> {
    match node.value {
        YamlValue::Sequence(s) => Some(s@),
        _ => None,
    }
}

proof fn lemma_lookup_skip(entries: Seq<(String, YamlNode)>, key: Seq<char>, i: int)
    requires
        0 <= i <= entries.len(),
        forall|j: int| 0 <= j < i ==> entries[j].0@ != key,
    ensures
        lookup(entries, key) == lookup(entries.skip(i), key),
    decreases i,
{
    if i > 0 {
        assert(entries.skip(1) == entries.drop_first());
        lemma_lookup_skip(entries.drop_first(), key, i - 1);
        assert(entries.drop_first().skip(i - 1) == entries.skip(i));
    } else {
        assert(entries.skip(0) == entries);
    }
}

/// The value of the entry of `entries` whose key is `key`.
pub fn get<'a>(entries: &'a Vec<(String, YamlNode)>, key: &str) -> (r: Option<&'a YamlNode>)
    ensures
        match lookup(entries@, key@) {
            Some(n) => r matches Some(m) && *m == n,
            None => r is None,
        },
{
    let k = String::from_str(key);
    let n = entries.len();
    let mut i: usize = 0;
    while i < n
        invariant
            n == entries@.len(),
            i <= n,
            k@ == key@,
            forall|j: int| 0 <= j < i ==> entries@[j].0@ != key@,
        decreases n - i,
    {
        if entries[i].0 == k {
            proof {
                lemma_lookup_skip(entries@, key@, i as int);
            }
            return Some(&entries[i].1);
        }
        i = i + 1;
    }
    proof {
        lemma_lookup_skip(entries@, key@, n as int);
    }
    None
}

/// Whether `entries` has an entry whose key is `key`.
pub fn contains_key(entries: &Vec<(String, YamlNode)>, key: &str) -> (r: bool)
    ensures
        r == lookup(entries@, key@) is Some,
{
    get(entries, key).is_some()
}

impl YamlNode {
    /// The text of this node, if it is a scalar.
    pub fn as_scalar(&self) -> (r: Option<&String>)
        ensures
            match scalar_of(*self) {
                Some(s) => r matches Some(t) && *t == s,
                None => r is None,
            },
    {
        match &self.value {
            YamlValue::Scalar(s) => Some(s),
            _ => None,
        }
    }

    /// The entries of this node, if it is a mapping.
    pub fn as_mapping(&self) -> (r: Option<&Vec<(String, YamlNode)>>)
        ensures
            match mapping_of(*self) {
                Some(m) => r matches Some(t) && t@ == m,
                None => r is None,
            },
    {
        match &self.value {
            YamlValue::Mapping(m) => Some(m),
            _ => None,
        }
    }

    /// The items of this node, if it is a sequence.
    pub fn as_sequence(&self) -> (r: Option<&Vec<YamlNode>>)
        ensures
            match sequence_of(*self) {
                Some(s) => r matches Some(t) && t@ == s,
                None => r is None,
            },
    {
        match &self.value {
            YamlValue::Sequence(s) => Some(s),
            _ => None,
        }
    }
}

/// A node as `marked_yaml` loads it.
#[verifier::external_type_specification]
#[verifier::external_body]
pub struct ExLoadedNode(Node);

/// What `marked_yaml::parse_yaml` gives for this text, in the library's
/// node type: the loaded document, or the line of the error's marker (none
/// for an error without marker) and the error's message.
pub uninterp spec fn yaml_document(text: Seq<char>) -> Result<YamlNode, (Option<usize>, Seq<char>)>;

/// Converts a loaded node and its children, one for one: each scalar,
/// mapping (keys as text, in document order) and sequence becomes the same
/// variant of [`YamlValue`], with the lines of the node's span where it has
/// them.  Nothing is claimed of it beyond what [`parse_yaml_text`]
/// claims of its result.
#[verifier::external_body]
fn converted_node(node: &Node) -> YamlNode {
    let value = match node {
        Node::Scalar(s) => YamlValue::Scalar(s.as_str().to_string()),
        Node::Mapping(m) => YamlValue::Mapping(m.iter().map(|(k, v)| (k.as_str().to_string(), converted_node(v))).collect()),
        Node::Sequence(s) => YamlValue::Sequence(s.iter().map(converted_node).collect()),
    };
    let start_line = node.span().start().map(|m| m.line());
    let end_line = node.span().end().map(|m| m.line());
    YamlNode { value, start_line, end_line }
}

/// Calls `marked_yaml::parse_yaml` on the text; the result, converted to
/// the library's types, is named [`yaml_document`] of the text.  The line of
/// an error is that of its marker; a duplicate key has no marker.
#[verifier::external_body]
pub(crate) fn parse_yaml_text(text: &str) -> (r: Result<YamlNode, (Option<usize>, String)>)
    ensures
        match r {
            Ok(n) => yaml_document(text@) == Ok::<YamlNode, (Option<usize>, Seq<char>)>(n),
            Err((line, details)) => yaml_document(text@) == Err::<YamlNode, (Option<usize>, Seq<char>)>(
                (line, details@),
            ),
        },
{
    parse_yaml(0, text).map(|node| converted_node(&node)).map_err(|err| {
        let line = match &err {
            LoadError::TopLevelMustBeMapping(m) => Some(m.line()),
            LoadError::TopLevelMustBeSequence(m) => Some(m.line()),
            LoadError::UnexpectedAnchor(m) => Some(m.line()),
            LoadError::MappingKeyMustBeScalar(m) => Some(m.line()),
            LoadError::UnexpectedTag(m) => Some(m.line()),
            LoadError::ScanError(m, _) => Some(m.line()),
            LoadError::DuplicateKey(_) => None,
        };
        (line, err.to_string())
    })
}

} // verus!
