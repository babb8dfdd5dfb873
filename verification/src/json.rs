//! JSON documents as the library reads them.
//!
//! Parsing is `serde_json`'s work and is taken on trust. What is parsed is
//! copied into `Json`, a type of this library, and everything that reads a
//! document is verified code over that type.

use vstd::prelude::*;

verus! {

/// A JSON value. A number is kept as the text that its 64-bit float prints
/// as; `None` stands for a number that no such float can hold. An object is
/// the list of its members, each name once.
#[derive(Debug)]
pub enum Json {
    Null,
    Bool(bool),
    Number(Option<String>),
    Text(String),
    Array(Vec<Json>),
    Object(Vec<(String, Json)>),
}

/// Whether the member at `i` is the first that is called `name`.
pub open spec fn first_named(members: Seq<(String, Json)>, name: Seq<char>, i: int) -> bool {
    &&& 0 <= i < members.len()
    &&& members[i].0@ == name
    &&& forall|j: int| 0 <= j < i ==> (#[trigger] members[j]).0@ != name
}

/// The value of the first member called `name`, if there is one.
pub open spec fn named(members: Seq<(String, Json)>, name: Seq<char>) -> Option<Json> {
    if exists|i: int| first_named(members, name, i) {
        Some(members[choose|i: int| first_named(members, name, i)].1)
    } else {
        None
    }
}

/// Two members that are both the first of a name are one and the same.
proof fn lemma_first_named_unique(members: Seq<(String, Json)>, name: Seq<char>, i: int, k: int)
    requires
        first_named(members, name, i),
        first_named(members, name, k),
    ensures
        i == k,
{
    if i < k {
        assert(members[i].0@ != name);
    }
    if k < i {
        assert(members[k].0@ != name);
    }
}

/// Where the first member called `name` stands, if there is one.
fn position(members: &Vec<(String, Json)>, name: &String) -> (r: Option<usize>)
    ensures
        match r {
            Some(i) => first_named(members@, name@, i as int) && named(members@, name@) == Some(
                members@[i as int].1,
            ),
            None => named(members@, name@) is None,
        },
{
    let mut i: usize = 0;
    while i < members.len()
        invariant
            i <= members.len(),
            forall|j: int| 0 <= j < i ==> (#[trigger] members@[j]).0@ != name@,
        decreases members.len() - i,
    {
        if members[i].0 == *name {
            proof {
                assert(first_named(members@, name@, i as int));
                let k = choose|k: int| first_named(members@, name@, k);
                lemma_first_named_unique(members@, name@, i as int, k);
            }
            return Some(i);
        }
        i += 1;
    }
    None
}

impl Json {
    /// The member called `name`, where the value is an object that has one.
    pub open spec fn member_of(self, name: Seq<char>) -> Option<Json> {
        match self {
            Json::Object(members) => named(members@, name),
            _ => None,
        }
    }

    /// The element at `index`, where the value is an array that long.
    pub open spec fn element_of(self, index: int) -> Option<Json> {
        match self {
            Json::Array(items) => if 0 <= index < items@.len() {
                Some(items@[index])
            } else {
                None
            },
            _ => None,
        }
    }

    /// The number written out, where the value is a number that has a text.
    pub open spec fn number_text_of(self) -> Option<Seq<char>> {
        match self {
            Json::Number(Some(text)) => Some(text@),
            _ => None,
        }
    }

    /// The member called `name`, where the value is an object that has one.
    pub fn member(&self, name: &String) -> (r: Option<&Json>)
        ensures
            match r {
                Some(value) => self.member_of(name@) == Some(*value),
                None => self.member_of(name@) is None,
            },
    {
        match self {
            Json::Object(members) => match position(members, name) {
                Some(i) => Some(&members[i].1),
                None => None,
            },
            _ => None,
        }
    }

    /// The element at `index`, where the value is an array that long.
    pub fn element(&self, index: usize) -> (r: Option<&Json>)
        ensures
            match r {
                Some(value) => self.element_of(index as int) == Some(*value),
                None => self.element_of(index as int) is None,
            },
    {
        match self {
            Json::Array(items) => if index < items.len() {
                Some(&items[index])
            } else {
                None
            },
            _ => None,
        }
    }

    /// The number written out, where the value is a number that has a text.
    pub fn number_text(&self) -> (r: Option<String>)
        ensures
            match r {
                Some(text) => self.number_text_of() == Some(text@),
                None => self.number_text_of() is None,
            },
    {
        match self {
            Json::Number(Some(text)) => Some(text.clone()),
            _ => None,
        }
    }
}

#[verifier::external_type_specification]
#[verifier::external_body]
pub struct ExValue(serde_json::Value);

/// What parsing makes of a text: the document, or what the parser has to say
/// against the text.
pub uninterp spec fn parsed(text: Seq<char>) -> Result<Json, Seq<char>>;

/// What a value of `serde_json` holds, as a document of this library.
pub uninterp spec fn content_of(value: serde_json::Value) -> Json;

/// Calls `serde_json::from_str` for a `Value`; an error is handed back as its
/// `to_string` words it. What comes back depends on the text alone: the same
/// text gives a value of the same content, or the same words.
#[verifier::external_body]
fn parse_value(text: &str) -> (r: Result<serde_json::Value, String>)
    ensures
        match r {
            Ok(value) => parsed(text@) == Ok::<Json, Seq<char>>(content_of(value)),
            Err(message) => parsed(text@) == Err::<Json, Seq<char>>(message@),
        },
{
    match serde_json::from_str::<serde_json::Value>(text) {
        Ok(value) => Ok(value),
        Err(error) => Err(error.to_string()),
    }
}

/// Copies a value of `serde_json` into the library's type, variant by
/// variant. A number becomes what `Number::as_f64` gives, written out as
/// `to_string` writes it. An object's members come in the order in which
/// `serde_json` walks them, each name once. The copy is the content of the
/// value, and nothing else is claimed of it.
#[verifier::external_body]
fn from_value(value: &serde_json::Value) -> (r: Json)
    ensures
        r == content_of(*value),
{
    match value {
        serde_json::Value::Null => Json::Null,
        serde_json::Value::Bool(b) => Json::Bool(*b),
        serde_json::Value::Number(n) => Json::Number(n.as_f64().map(|x| x.to_string())),
        serde_json::Value::String(s) => Json::Text(s.clone()),
        serde_json::Value::Array(items) => Json::Array(items.iter().map(from_value).collect()),
        serde_json::Value::Object(members) => Json::Object(
            members.iter().map(|(name, member)| (name.clone(), from_value(member))).collect(),
        ),
    }
}

/// Parses a text: the document that it holds, or what the parser has to say
/// against it.
pub fn parse(text: &str) -> (r: Result<Json, String>)
    ensures
        match r {
            Ok(document) => parsed(text@) == Ok::<Json, Seq<char>>(document),
            Err(message) => parsed(text@) == Err::<Json, Seq<char>>(message@),
        },
{
    match parse_value(text) {
        Ok(value) => Ok(from_value(&value)),
        Err(message) => Err(message),
    }
}

} // verus!
