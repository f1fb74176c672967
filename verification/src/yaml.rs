//! YAML documents as a tree of plain values.

use serde_yaml::Value;
use vstd::prelude::*;

verus! {

/// A parsed YAML node.
///
/// A number is held as its decimal text, a tag as the text of the tag, and a
/// mapping as its entries in document order.
#[derive(Debug)]
pub enum YamlValue {
    Null,
    Bool(bool),
    Number(String),
    String(String),
    Sequence(Vec<YamlValue>),
    Mapping(Vec<(YamlValue, YamlValue)>),
    Tagged(String, Box<YamlValue>),
}

/// The mathematical value of a [`YamlValue`].
pub ghost enum YamlTree {
    Null,
    Bool(bool),
    Number(Seq<char>),
    String(Seq<char>),
    Sequence(Seq<YamlTree>),
    Mapping(Seq<(YamlTree, YamlTree)>),
    Tagged(Seq<char>, Box<YamlTree>),
}

impl YamlValue {
    /// The mathematical value of this node.
    pub open spec fn tree(&self) -> YamlTree
        decreases self,
    {
        match self {
            YamlValue::Null => YamlTree::Null,
            YamlValue::Bool(b) => YamlTree::Bool(*b),
            YamlValue::Number(n) => YamlTree::Number(n@),
            YamlValue::String(s) => YamlTree::String(s@),
            YamlValue::Sequence(items) => YamlTree::Sequence(
                Seq::new(
                    items.len() as nat,
                    |i: int|
                        if 0 <= i < items.len() {
                            items[i].tree()
                        } else {
                            YamlTree::Null
                        },
                ),
            ),
            YamlValue::Mapping(entries) => YamlTree::Mapping(
                Seq::new(
                    entries.len() as nat,
                    |i: int|
                        if 0 <= i < entries.len() {
                            (entries[i].0.tree(), entries[i].1.tree())
                        } else {
                            (YamlTree::Null, YamlTree::Null)
                        },
                ),
            ),
            YamlValue::Tagged(tag, inner) => YamlTree::Tagged(tag@, Box::new(inner.tree())),
        }
    }
}

impl View for YamlValue {
    type V = YamlTree;

    open spec fn view(&self) -> YamlTree {
        self.tree()
    }
}

/// The node under the tags of `tree`, if it has any.
pub open spec fn untagged(tree: YamlTree) -> YamlTree
    decreases tree,
{
    match tree {
        YamlTree::Tagged(_, inner) => untagged(*inner),
        _ => tree,
    }
}

/// The value of the first entry of `entries` whose key is the string `key`.
pub open spec fn entry(entries: Seq<(YamlTree, YamlTree)>, key: Seq<char>) -> Option<YamlTree>
    decreases entries.len(),
{
    if entries.len() == 0 {
        None
    } else if entries[0].0 == YamlTree::String(key) {
        Some(entries[0].1)
    } else {
        entry(entries.skip(1), key)
    }
}

/// The views of the entries of a mapping, entry by entry.
pub open spec fn entry_trees(entries: Seq<(YamlValue, YamlValue)>) -> Seq<(YamlTree, YamlTree)> {
    Seq::new(entries.len(), |i: int| (entries[i].0@, entries[i].1@))
}

impl YamlTree {
    /// The entries of a mapping, tagged or not; `None` for anything else.
    pub open spec fn mapping(self) -> Option<Seq<(YamlTree, YamlTree)>> {
        match untagged(self) {
            YamlTree::Mapping(entries) => Some(entries),
            _ => None,
        }
    }

    /// The text of a string, tagged or not; `None` for anything else.
    pub open spec fn text(self) -> Option<Seq<char>> {
        match untagged(self) {
            YamlTree::String(s) => Some(s),
            _ => None,
        }
    }
}

impl YamlValue {
    /// The node under the tags of this node, if it has any.
    pub fn untag(&self) -> (inner: &YamlValue)
        ensures
            inner@ == untagged(self@),
            !(inner@ is Tagged),
        decreases self,
    {
        match self {
            YamlValue::Tagged(_, inner) => inner.untag(),
            _ => self,
        }
    }

    /// The entries of a mapping, tagged or not.
    pub fn as_mapping(&self) -> (r: Option<&Vec<(YamlValue, YamlValue)>>)
        ensures
            match r {
                Some(entries) => self@.mapping() == Some(entry_trees(entries@)),
                None => self@.mapping() is None,
            },
    {
        match self.untag() {
            YamlValue::Mapping(entries) => {
                assert(untagged(self@)->Mapping_0 =~= entry_trees(entries@));
                Some(entries)
            },
            _ => None,
        }
    }

    /// The text of a string, tagged or not.
    pub fn as_str(&self) -> (r: Option<&str>)
        ensures
            match r {
                Some(s) => self@.text() == Some(s@),
                None => self@.text() is None,
            },
    {
        match self.untag() {
            YamlValue::String(s) => Some(s.as_str()),
            _ => None,
        }
    }
}

/// The value of the first entry whose key is the string `key`.
pub fn find_entry<'a>(entries: &'a Vec<(YamlValue, YamlValue)>, key: &str) -> (r: Option<
    &'a YamlValue,
>)
    ensures
        match r {
            Some(v) => entry(entry_trees(entries@), key@) == Some(v@),
            None => entry(entry_trees(entries@), key@) is None,
        },
{
    let ghost all = entry_trees(entries@);
    let mut i: usize = 0;
    assert(all.skip(0) =~= all);
    while i < entries.len()
        invariant
            i <= entries.len(),
            all == entry_trees(entries@),
            entry(all, key@) == entry(all.skip(i as int), key@),
        decreases entries.len() - i,
    {
        proof {
            assert(all.skip(i as int)[0] == all[i as int]);
            assert(all.skip(i as int).skip(1) =~= all.skip(i + 1));
        }
        let is_key = match &entries[i].0 {
            YamlValue::String(k) => crate::text::str_eq(k.as_str(), key),
            _ => false,
        };
        if is_key {
            return Some(&entries[i].1);
        }
        i = i + 1;
    }
    None
}

/// The YAML node type of `serde_yaml`, carried through opaquely.
#[verifier::external_type_specification]
#[verifier::external_body]
pub struct ExYamlNode(Value);

/// What `serde_yaml::from_str` makes of a text: the tree of the document, or
/// the message of the parser's error.
pub uninterp spec fn yaml_document(text: Seq<char>) -> Result<YamlTree, Seq<char>>;

/// Moves a `serde_yaml::Value` into a [`YamlValue`], variant by variant: a
/// number becomes its `Display` text, a tag the `Display` text of the tag, a
/// mapping its entries in iteration order.
#[verifier::external_body]
fn yaml_node(v: Value) -> YamlValue {
    match v {
        Value::Null => YamlValue::Null,
        Value::Bool(b) => YamlValue::Bool(b),
        Value::Number(n) => YamlValue::Number(n.to_string()),
        Value::String(s) => YamlValue::String(s),
        Value::Sequence(s) => YamlValue::Sequence(s.into_iter().map(yaml_node).collect()),
        Value::Mapping(m) => YamlValue::Mapping(m.into_iter().map(|(k, v)| (yaml_node(k), yaml_node(v))).collect()),
        Value::Tagged(t) => YamlValue::Tagged(t.tag.to_string(), Box::new(yaml_node(t.value))),
    }
}

/// Parses a YAML text with `serde_yaml::from_str`. The contract names the
/// outcome [`yaml_document`]: the same text always gives the same tree or the
/// same error message. Nothing else is claimed of the parser.
#[verifier::external_body]
pub(crate) fn yaml_from_str(text: &str) -> (r: Result<YamlValue, String>)
    ensures
        match r {
            Ok(v) => yaml_document(text@) == Ok::<YamlTree, Seq<char>>(v@),
            Err(e) => yaml_document(text@) == Err::<YamlTree, Seq<char>>(e@),
        },
{
    match serde_yaml::from_str::<Value>(text) {
        Ok(v) => Ok(yaml_node(v)),
        Err(e) => Err(e.to_string()),
    }
}

/// Parses a YAML text into a tree, or gives the parser's error message.
pub fn parse_yaml(text: &str) -> (r: Result<YamlValue, String>)
    ensures
        match r {
            Ok(v) => yaml_document(text@) == Ok::<YamlTree, Seq<char>>(v@),
            Err(e) => yaml_document(text@) == Err::<YamlTree, Seq<char>>(e@),
        },
{
    yaml_from_str(text)
}

} // verus!
