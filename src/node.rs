//! A document tree shared by the manifest formats, and its parsers.

use vstd::prelude::*;

verus! {

/// A value of a parsed manifest: JSON and TOML documents alike.
#[derive(Debug)]
pub enum Node {
    Null,
    Bool(bool),
    /// A number, as its decimal text.
    Number(String),
    Str(String),
    Array(Vec<Node>),
    /// The entries of an object or table, in the parser's order (sorted by key).
    Table(Vec<(String, Node)>),
}

#[verifier::external_type_specification]
#[verifier::external_body]
pub struct ExJsonValue(serde_json::Value);

/// The tree of a JSON text, `None` where the text is not valid JSON.
pub uninterp spec fn json_document(text: Seq<char>) -> Option<Node>;

/// The tree of a TOML text, `None` where the text is not valid TOML.
pub uninterp spec fn toml_document(text: Seq<char>) -> Option<Node>;

/// Copies a `serde_json::Value` into the library's tree, variant for variant.
#[verifier::external_body]
fn node_of(v: &serde_json::Value) -> Node {
    match v {
        serde_json::Value::Null => Node::Null,
        serde_json::Value::Bool(b) => Node::Bool(*b),
        serde_json::Value::Number(n) => Node::Number(n.to_string()),
        serde_json::Value::String(s) => Node::Str(s.clone()),
        serde_json::Value::Array(a) => Node::Array(a.iter().map(node_of).collect()),
        serde_json::Value::Object(m) => Node::Table(
            m.iter().map(|(k, x)| (k.clone(), node_of(x))).collect(),
        ),
    }
}

/// Relies on `serde_json::from_str`, which fails on text that is not JSON (or
/// nests deeper than its recursion limit) and otherwise gives a tree that
/// depends on the text alone.
#[verifier::external_body]
pub fn parse_json(text: &str) -> (r: Option<Node>)
    ensures
        r == json_document(text@),
{
    serde_json::from_str::<serde_json::Value>(text).ok().map(|v| node_of(&v))
}

/// Relies on `toml::from_str`, which fails on text that is not TOML and
/// otherwise gives a tree that depends on the text alone.
#[verifier::external_body]
pub fn parse_toml(text: &str) -> (r: Option<Node>)
    ensures
        r == toml_document(text@),
{
    toml::from_str::<serde_json::Value>(text).ok().map(|v| node_of(&v))
}

pub open spec fn opt_node(n: Option<&Node>) -> Option<Node> {
    match n {
        Some(x) => Some(*x),
        None => None,
    }
}

/// The value of the first entry named `key`.
pub open spec fn entry_value(entries: Seq<(String, Node)>, key: Seq<char>) -> Option<Node>
    decreases entries.len(),
{
    if entries.len() == 0 {
        None
    } else if entries[0].0@ == key {
        Some(entries[0].1)
    } else {
        entry_value(entries.drop_first(), key)
    }
}

/// The value under `key` where `n` is a table.
pub open spec fn member(n: Node, key: Seq<char>) -> Option<Node> {
    match n {
        Node::Table(entries) => entry_value(entries@, key),
        _ => None,
    }
}

/// The value under `key` of an optional table.
pub open spec fn member_of(n: Option<Node>, key: Seq<char>) -> Option<Node> {
    match n {
        Some(t) => member(t, key),
        None => None,
    }
}

/// The text of a string node, where it is not empty.
pub open spec fn text_of(n: Option<Node>) -> Option<Seq<char>> {
    match n {
        Some(Node::Str(s)) => if s@.len() > 0 {
            Some(s@)
        } else {
            None
        },
        _ => None,
    }
}

impl Node {
    /// The value under `key`, where `self` is a table that has one.
    pub fn get(&self, key: &str) -> (r: Option<&Node>)
        ensures
            match r {
                Some(x) => member(*self, key@) == Some(*x),
                None => member(*self, key@) is None,
            },
    {
        match self {
            Node::Table(entries) => {
                let k = String::from_str(key);
                let mut i: usize = 0;
                assert(entries@.subrange(0, entries@.len() as int) =~= entries@);
                while i < entries.len()
                    invariant
                        i <= entries@.len(),
                        k@ == key@,
                        member(*self, key@) == entry_value(entries@, key@),
                        entry_value(entries@, key@) == entry_value(
                            entries@.subrange(i as int, entries@.len() as int),
                            key@,
                        ),
                    decreases entries.len() - i,
                {
                    let ghost rest = entries@.subrange(i as int, entries@.len() as int);
                    assert(rest[0] == entries@[i as int]);
                    if entries[i].0 == k {
                        return Some(&entries[i].1);
                    }
                    assert(rest.drop_first() =~= entries@.subrange(i + 1, entries@.len() as int));
                    i = i + 1;
                }
                None
            },
            _ => None,
        }
    }

    /// The text under `key`, where it is a string that is not empty.
    pub fn text(&self, key: &str) -> (r: Option<String>)
        ensures
            crate::text::opt_view(r) == text_of(member(*self, key@)),
    {
        match self.get(key) {
            Some(Node::Str(s)) => if s.unicode_len() > 0 {
                Some(s.clone())
            } else {
                None
            },
            _ => None,
        }
    }
}

} // verus!
