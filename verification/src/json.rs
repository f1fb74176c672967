//! JSON documents as a tree of plain values.
//!
//! The tree is what the tools read their arguments from and what the catalog
//! of examples is held in. Reading and printing JSON text is left to
//! `serde_json`.

use serde_json::Value;
use vstd::prelude::*;

verus! {

/// A JSON number: a non-negative integer, a negative integer, or the decimal
/// text of a number that is neither.
#[derive(Debug)]
pub enum JsonNumber {
    PosInt(u64),
    NegInt(i64),
    Float(String),
}

/// The mathematical value of a [`JsonNumber`].
pub ghost enum JsonNum {
    PosInt(u64),
    NegInt(i64),
    Float(Seq<char>),
}

impl View for JsonNumber {
    type V = JsonNum;

    open spec fn view(&self) -> JsonNum {
        match self {
            JsonNumber::PosInt(u) => JsonNum::PosInt(*u),
            JsonNumber::NegInt(i) => JsonNum::NegInt(*i),
            JsonNumber::Float(t) => JsonNum::Float(t@),
        }
    }
}

/// A JSON value. An object is held as its members in order.
#[derive(Debug)]
pub enum JsonValue {
    Null,
    Bool(bool),
    Number(JsonNumber),
    String(String),
    Array(Vec<JsonValue>),
    Object(Vec<(String, JsonValue)>),
}

/// The mathematical value of a [`JsonValue`].
pub ghost enum JsonTree {
    Null,
    Bool(bool),
    Number(JsonNum),
    String(Seq<char>),
    Array(Seq<JsonTree>),
    Object(Seq<(Seq<char>, JsonTree)>),
}

/// The value of the first member of `members` named `key`.
pub open spec fn member(members: Seq<(Seq<char>, JsonTree)>, key: Seq<char>) -> Option<JsonTree>
    decreases members.len(),
{
    if members.len() == 0 {
        None
    } else if members[0].0 == key {
        Some(members[0].1)
    } else {
        member(members.skip(1), key)
    }
}

impl JsonTree {
    /// The member `key` of an object; `None` for anything else.
    pub open spec fn field(self, key: Seq<char>) -> Option<JsonTree> {
        match self {
            JsonTree::Object(members) => member(members, key),
            _ => None,
        }
    }

    /// The text of a string; `None` for anything else.
    pub open spec fn text(self) -> Option<Seq<char>> {
        match self {
            JsonTree::String(s) => Some(s),
            _ => None,
        }
    }

    /// The text of the string member `key`, if there is one.
    pub open spec fn text_field(self, key: Seq<char>) -> Option<Seq<char>> {
        match self.field(key) {
            Some(v) => v.text(),
            None => None,
        }
    }

    /// The truth value of a boolean; `None` for anything else.
    pub open spec fn truth(self) -> Option<bool> {
        match self {
            JsonTree::Bool(b) => Some(b),
            _ => None,
        }
    }

    /// The truth value of the boolean member `key`, if there is one.
    pub open spec fn truth_field(self, key: Seq<char>) -> Option<bool> {
        match self.field(key) {
            Some(v) => v.truth(),
            None => None,
        }
    }

    /// The value of a non-negative integer; `None` for anything else.
    pub open spec fn unsigned(self) -> Option<u64> {
        match self {
            JsonTree::Number(JsonNum::PosInt(u)) => Some(u),
            _ => None,
        }
    }

    /// The value of the non-negative integer member `key`, if there is one.
    pub open spec fn unsigned_field(self, key: Seq<char>) -> Option<u64> {
        match self.field(key) {
            Some(v) => v.unsigned(),
            None => None,
        }
    }

    /// The items of an array; `None` for anything else.
    pub open spec fn items(self) -> Option<Seq<JsonTree>> {
        match self {
            JsonTree::Array(items) => Some(items),
            _ => None,
        }
    }

    /// The items of the array member `key`, if there is one.
    pub open spec fn items_field(self, key: Seq<char>) -> Option<Seq<JsonTree>> {
        match self.field(key) {
            Some(v) => v.items(),
            None => None,
        }
    }

    /// The member `key`, or `Null` where there is none: what indexing a JSON
    /// value by a string gives.
    pub open spec fn index_or_null(self, key: Seq<char>) -> JsonTree {
        match self.field(key) {
            Some(v) => v,
            None => JsonTree::Null,
        }
    }
}

impl JsonValue {
    /// The mathematical value of this node.
    pub open spec fn tree(&self) -> JsonTree
        decreases self,
    {
        match self {
            JsonValue::Null => JsonTree::Null,
            JsonValue::Bool(b) => JsonTree::Bool(*b),
            JsonValue::Number(n) => JsonTree::Number(n@),
            JsonValue::String(s) => JsonTree::String(s@),
            JsonValue::Array(items) => JsonTree::Array(
                Seq::new(
                    items.len() as nat,
                    |i: int|
                        if 0 <= i < items.len() {
                            items[i].tree()
                        } else {
                            JsonTree::Null
                        },
                ),
            ),
            JsonValue::Object(members) => JsonTree::Object(
                Seq::new(
                    members.len() as nat,
                    |i: int|
                        if 0 <= i < members.len() {
                            (members[i].0@, members[i].1.tree())
                        } else {
                            (Seq::empty(), JsonTree::Null)
                        },
                ),
            ),
        }
    }
}

impl View for JsonValue {
    type V = JsonTree;

    open spec fn view(&self) -> JsonTree {
        self.tree()
    }
}

/// The views of a vector of values, item by item.
pub open spec fn trees(items: Seq<JsonValue>) -> Seq<JsonTree> {
    Seq::new(items.len(), |i: int| items[i]@)
}

impl Clone for JsonNumber {
    fn clone(&self) -> (copy: Self)
        ensures
            copy@ == self@,
    {
        match self {
            JsonNumber::PosInt(u) => JsonNumber::PosInt(*u),
            JsonNumber::NegInt(i) => JsonNumber::NegInt(*i),
            JsonNumber::Float(t) => JsonNumber::Float(t.clone()),
        }
    }
}

impl Clone for JsonValue {
    fn clone(&self) -> (copy: Self)
        ensures
            copy@ == self@,
    {
        self.duplicate()
    }
}

impl JsonValue {
    /// A copy of this value.
    pub fn duplicate(&self) -> (copy: JsonValue)
        ensures
            copy@ == self@,
        decreases self,
    {
        match self {
            JsonValue::Null => JsonValue::Null,
            JsonValue::Bool(b) => JsonValue::Bool(*b),
            JsonValue::Number(n) => JsonValue::Number(n.clone()),
            JsonValue::String(s) => JsonValue::String(s.clone()),
            JsonValue::Array(items) => {
                let mut copies: Vec<JsonValue> = Vec::new();
                let mut i: usize = 0;
                while i < items.len()
                    invariant
                        i <= items.len(),
                        copies.len() == i,
                        self == JsonValue::Array(*items),
                        forall|k: int| 0 <= k < i ==> (#[trigger] copies[k])@ == items[k]@,
                    decreases items.len() - i,
                {
                    proof {
                        vstd::std_specs::vec::axiom_vec_index_decreases(*items, i as int);
                        assert(decreases_to!(self => self->Array_0));
                    }
                    let copy = items[i].duplicate();
                    copies.push(copy);
                    i = i + 1;
                }
                assert(JsonValue::Array(copies)@->Array_0 =~= self@->Array_0);
                JsonValue::Array(copies)
            },
            JsonValue::Object(members) => {
                let mut copies: Vec<(String, JsonValue)> = Vec::new();
                let mut i: usize = 0;
                while i < members.len()
                    invariant
                        i <= members.len(),
                        copies.len() == i,
                        self == JsonValue::Object(*members),
                        forall|k: int|
                            0 <= k < i ==> (#[trigger] copies[k]).0@ == members[k].0@
                                && copies[k].1@ == members[k].1@,
                    decreases members.len() - i,
                {
                    proof {
                        vstd::std_specs::vec::axiom_vec_index_decreases(*members, i as int);
                        assert(decreases_to!(self => self->Object_0));
                    }
                    let copy = members[i].1.duplicate();
                    copies.push((members[i].0.clone(), copy));
                    i = i + 1;
                }
                assert(JsonValue::Object(copies)@->Object_0 =~= self@->Object_0);
                JsonValue::Object(copies)
            },
        }
    }

    /// A string value holding the characters of `s`.
    pub fn from_text(s: &str) -> (v: JsonValue)
        ensures
            v@ == JsonTree::String(s@),
    {
        JsonValue::String(s.to_owned())
    }

    /// A number value holding `n`.
    pub fn from_u64(n: u64) -> (v: JsonValue)
        ensures
            v@ == JsonTree::Number(JsonNum::PosInt(n)),
    {
        JsonValue::Number(JsonNumber::PosInt(n))
    }

    /// The member `key` of an object.
    pub fn get(&self, key: &str) -> (r: Option<&JsonValue>)
        ensures
            match r {
                Some(v) => self@.field(key@) == Some(v@),
                None => self@.field(key@) is None,
            },
    {
        match self {
            JsonValue::Object(members) => {
                let ghost all = self@->Object_0;
                let mut i: usize = 0;
                assert(all.skip(0) =~= all);
                while i < members.len()
                    invariant
                        i <= members.len(),
                        self@.field(key@) == member(all, key@),
                        all.len() == members.len(),
                        forall|k: int|
                            0 <= k < members.len() ==> all[k] == (
                                (#[trigger] members[k]).0@,
                                members[k].1@,
                            ),
                        member(all, key@) == member(all.skip(i as int), key@),
                    decreases members.len() - i,
                {
                    proof {
                        assert(all.skip(i as int)[0] == all[i as int]);
                        assert(all.skip(i as int).skip(1) =~= all.skip(i + 1));
                    }
                    if crate::text::str_eq(members[i].0.as_str(), key) {
                        return Some(&members[i].1);
                    }
                    i = i + 1;
                }
                None
            },
            _ => None,
        }
    }

    /// The text of a string value.
    pub fn as_str(&self) -> (r: Option<&str>)
        ensures
            match r {
                Some(s) => self@.text() == Some(s@),
                None => self@.text() is None,
            },
    {
        match self {
            JsonValue::String(s) => Some(s.as_str()),
            _ => None,
        }
    }

    /// The truth value of a boolean value.
    pub fn as_bool(&self) -> (r: Option<bool>)
        ensures
            r == self@.truth(),
    {
        match self {
            JsonValue::Bool(b) => Some(*b),
            _ => None,
        }
    }

    /// The value of a non-negative integer.
    pub fn as_u64(&self) -> (r: Option<u64>)
        ensures
            r == self@.unsigned(),
    {
        match self {
            JsonValue::Number(JsonNumber::PosInt(u)) => Some(*u),
            _ => None,
        }
    }

    /// The items of an array value.
    pub fn as_array(&self) -> (r: Option<&Vec<JsonValue>>)
        ensures
            match r {
                Some(items) => self@.items() == Some(trees(items@)),
                None => self@.items() is None,
            },
    {
        match self {
            JsonValue::Array(items) => {
                assert(self@->Array_0 =~= trees(items@));
                Some(items)
            },
            _ => None,
        }
    }

    /// The text of the string member `key`.
    pub fn get_str(&self, key: &str) -> (r: Option<&str>)
        ensures
            match r {
                Some(s) => self@.text_field(key@) == Some(s@),
                None => self@.text_field(key@) is None,
            },
    {
        match self.get(key) {
            Some(v) => v.as_str(),
            None => None,
        }
    }

    /// The truth value of the boolean member `key`.
    pub fn get_bool(&self, key: &str) -> (r: Option<bool>)
        ensures
            r == self@.truth_field(key@),
    {
        match self.get(key) {
            Some(v) => v.as_bool(),
            None => None,
        }
    }

    /// The value of the non-negative integer member `key`.
    pub fn get_u64(&self, key: &str) -> (r: Option<u64>)
        ensures
            r == self@.unsigned_field(key@),
    {
        match self.get(key) {
            Some(v) => v.as_u64(),
            None => None,
        }
    }

    /// The items of the array member `key`.
    pub fn get_array(&self, key: &str) -> (r: Option<&Vec<JsonValue>>)
        ensures
            match r {
                Some(items) => self@.items_field(key@) == Some(trees(items@)),
                None => self@.items_field(key@) is None,
            },
    {
        match self.get(key) {
            Some(v) => v.as_array(),
            None => None,
        }
    }
}

/// The JSON value type of `serde_json`, carried through opaquely.
#[verifier::external_type_specification]
#[verifier::external_body]
pub struct ExJsonNode(Value);

/// What `serde_json::from_str` makes of a text: the tree of the document, or
/// the message of the parser's error.
pub uninterp spec fn json_document(text: Seq<char>) -> Result<JsonTree, Seq<char>>;

/// What `serde_json::to_string_pretty` prints for a tree, or the message of
/// its error.
pub uninterp spec fn json_pretty_text(tree: JsonTree) -> Result<Seq<char>, Seq<char>>;

/// Moves a `serde_json::Value` into a [`JsonValue`], variant by variant: an
/// object becomes its members in iteration order, a number what `as_u64`,
/// then `as_i64` give, else its `Display` text.
#[verifier::external_body]
fn json_node(v: Value) -> JsonValue {
    match v {
        Value::Null => JsonValue::Null,
        Value::Bool(b) => JsonValue::Bool(b),
        Value::Number(n) => JsonValue::Number(match (n.as_u64(), n.as_i64()) {
            (Some(u), _) => JsonNumber::PosInt(u),
            (_, Some(i)) => JsonNumber::NegInt(i),
            _ => JsonNumber::Float(n.to_string()),
        }),
        Value::String(s) => JsonValue::String(s),
        Value::Array(a) => JsonValue::Array(a.into_iter().map(json_node).collect()),
        Value::Object(m) => JsonValue::Object(m.into_iter().map(|(k, v)| (k, json_node(v))).collect()),
    }
}

/// Moves a [`JsonValue`] into a `serde_json::Value`, variant by variant. The
/// text of a `Float` is read back as a JSON number, and stands as `null` where
/// it is none.
#[verifier::external_body]
fn json_outside(v: &JsonValue) -> Value {
    match v {
        JsonValue::Null => Value::Null,
        JsonValue::Bool(b) => Value::Bool(*b),
        JsonValue::Number(JsonNumber::PosInt(u)) => Value::from(*u),
        JsonValue::Number(JsonNumber::NegInt(i)) => Value::from(*i),
        JsonValue::Number(JsonNumber::Float(t)) => serde_json::from_str(t).unwrap_or_default(),
        JsonValue::String(s) => Value::String(s.clone()),
        JsonValue::Array(a) => Value::Array(a.iter().map(json_outside).collect()),
        JsonValue::Object(m) => Value::Object(m.iter().map(|(k, v)| (k.clone(), json_outside(v))).collect()),
    }
}

/// Parses a JSON text with `serde_json::from_str`. The contract names the
/// outcome [`json_document`]: the same text always gives the same tree or the
/// same error message. Nothing else is claimed of the parser.
#[verifier::external_body]
pub(crate) fn json_from_str(text: &str) -> (r: Result<JsonValue, String>)
    ensures
        match r {
            Ok(v) => json_document(text@) == Ok::<JsonTree, Seq<char>>(v@),
            Err(e) => json_document(text@) == Err::<JsonTree, Seq<char>>(e@),
        },
{
    match serde_json::from_str::<Value>(text) {
        Ok(v) => Ok(json_node(v)),
        Err(e) => Err(e.to_string()),
    }
}

/// Prints a value with `serde_json::to_string_pretty`. The contract names the
/// outcome [`json_pretty_text`]: the same tree always gives the same text.
#[verifier::external_body]
pub(crate) fn json_to_string_pretty(v: &JsonValue) -> (r: Result<String, String>)
    ensures
        match r {
            Ok(s) => json_pretty_text(v@) == Ok::<Seq<char>, Seq<char>>(s@),
            Err(e) => json_pretty_text(v@) == Err::<Seq<char>, Seq<char>>(e@),
        },
{
    match serde_json::to_string_pretty(&json_outside(v)) {
        Ok(s) => Ok(s),
        Err(e) => Err(e.to_string()),
    }
}

/// What the `Display` form of `serde_json::Value` prints for a tree: JSON
/// text without white space between its parts.
pub uninterp spec fn json_compact_text(tree: JsonTree) -> Seq<char>;

/// Prints a value as compact JSON text with the `Display` form of
/// `serde_json::Value`. The contract names the outcome
/// [`json_compact_text`]: the same tree always gives the same text.
#[verifier::external_body]
pub(crate) fn json_to_string(v: &JsonValue) -> (s: String)
    ensures
        s@ == json_compact_text(v@),
{
    json_outside(v).to_string()
}

/// Parses a JSON text into a tree, or gives the parser's error message.
pub fn parse_json(text: &str) -> (r: Result<JsonValue, String>)
    ensures
        match r {
            Ok(v) => json_document(text@) == Ok::<JsonTree, Seq<char>>(v@),
            Err(e) => json_document(text@) == Err::<JsonTree, Seq<char>>(e@),
        },
{
    json_from_str(text)
}

/// Prints a tree as indented JSON text.
pub fn to_string_pretty(v: &JsonValue) -> (r: Result<String, String>)
    ensures
        match r {
            Ok(s) => json_pretty_text(v@) == Ok::<Seq<char>, Seq<char>>(s@),
            Err(e) => json_pretty_text(v@) == Err::<Seq<char>, Seq<char>>(e@),
        },
{
    json_to_string_pretty(v)
}

} // verus!
