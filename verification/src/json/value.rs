//! JSON values as plain data.

use serde_json::Number;
use vstd::prelude::*;

verus! {

/// A number of `serde_json`.
#[verifier::external_type_specification]
#[verifier::external_body]
pub struct ExNumber(serde_json::Number);

/// What `serde_json::Number::as_u64` returns.
pub uninterp spec fn number_unsigned(number: Number) -> Option<u64>;

/// What a number says.
pub open spec fn number_tree(number: Number) -> JsonTree {
    match number_unsigned(number) {
        Some(unsigned) => JsonTree::Unsigned(unsigned),
        None => JsonTree::Number(number),
    }
}

/// Calls `serde_json::Number::as_u64`. The result is named by [`number_unsigned`].
#[verifier::external_body]
pub(crate) fn number_as_u64(number: &Number) -> (unsigned: Option<u64>)
    ensures
        unsigned == number_unsigned(*number),
{
    number.as_u64()
}

/// What a JSON value says: the mathematical model of a [`JsonValue`].
#[verifier::ext_equal]
pub enum JsonTree {
    Null,
    Bool(bool),
    /// A whole number from `0` to `u64::MAX`.
    Unsigned(u64),
    /// Any other number, as `serde_json` holds it.
    Number(Number),
    Text(Seq<char>),
    Array(Seq<JsonTree>),
    Object(Map<Seq<char>, JsonTree>),
}

/// A JSON value.
///
/// An object is a list of entries. Where a name occurs more than once, the last entry counts.
#[derive(Debug)]
pub enum JsonValue {
    Null,
    Bool(bool),
    Unsigned(u64),
    Number(Number),
    Text(String),
    Array(Vec<JsonValue>),
    Object(Vec<(String, JsonValue)>),
}

impl JsonTree {
    /// The member of an object under a name. Other values have no members.
    pub open spec fn member(self, name: Seq<char>) -> Option<JsonTree> {
        match self {
            JsonTree::Object(members) => if members.contains_key(name) {
                Some(members[name])
            } else {
                None
            },
            _ => None,
        }
    }

    /// The first item of an array that has one.
    pub open spec fn first_item(self) -> Option<JsonTree> {
        match self {
            JsonTree::Array(items) => if items.len() > 0 {
                Some(items[0])
            } else {
                None
            },
            _ => None,
        }
    }

    pub open spec fn text(self) -> Option<Seq<char>> {
        match self {
            JsonTree::Text(text) => Some(text),
            _ => None,
        }
    }

    pub open spec fn unsigned(self) -> Option<u64> {
        match self {
            JsonTree::Unsigned(number) => Some(number),
            _ => None,
        }
    }
}

/// The first item of an optional array.
pub open spec fn first_item_of(tree: Option<JsonTree>) -> Option<JsonTree> {
    match tree {
        Some(tree) => tree.first_item(),
        None => None,
    }
}

/// The member under a name of an optional object.
pub open spec fn member_of(tree: Option<JsonTree>, name: Seq<char>) -> Option<JsonTree> {
    match tree {
        Some(tree) => tree.member(name),
        None => None,
    }
}

/// The text of an optional string.
pub open spec fn text_in(tree: Option<JsonTree>) -> Option<Seq<char>> {
    match tree {
        Some(tree) => tree.text(),
        None => None,
    }
}

/// The number of an optional unsigned number.
pub open spec fn unsigned_in(tree: Option<JsonTree>) -> Option<u64> {
    match tree {
        Some(tree) => tree.unsigned(),
        None => None,
    }
}

/// The trees of a list of values.
pub open spec fn item_trees(items: Seq<JsonValue>) -> Seq<JsonTree>
    decreases items,
{
    Seq::new(
        items.len(),
        |i: int|
            if 0 <= i < items.len() {
                items[i].tree()
            } else {
                JsonTree::Null
            },
    )
}

/// The members that a list of entries makes up; the last entry of a name counts.
pub open spec fn entry_trees(entries: Seq<(String, JsonValue)>) -> Map<Seq<char>, JsonTree>
    decreases entries,
{
    if entries.len() == 0 {
        Map::empty()
    } else {
        entry_trees(entries.drop_last()).insert(entries.last().0@, entries.last().1.tree())
    }
}

impl JsonValue {
    /// What the value says.
    pub open spec fn tree(self) -> JsonTree
        decreases self,
    {
        match self {
            JsonValue::Null => JsonTree::Null,
            JsonValue::Bool(flag) => JsonTree::Bool(flag),
            JsonValue::Unsigned(number) => JsonTree::Unsigned(number),
            JsonValue::Number(number) => number_tree(number),
            JsonValue::Text(text) => JsonTree::Text(text@),
            JsonValue::Array(items) => JsonTree::Array(item_trees(items@)),
            JsonValue::Object(entries) => JsonTree::Object(entry_trees(entries@)),
        }
    }

    /// The member of an object under `name`.
    pub fn member(&self, name: &str) -> (member: Option<&JsonValue>)
        ensures
            match member {
                Some(member) => self.tree().member(name@) == Some(member.tree()),
                None => self.tree().member(name@) is None,
            },
    {
        match self {
            JsonValue::Object(entries) => find_entry(entries, name),
            _ => None,
        }
    }

    /// The first item of an array that has one.
    pub fn first_item(&self) -> (item: Option<&JsonValue>)
        ensures
            match item {
                Some(item) => self.tree().first_item() == Some(item.tree()),
                None => self.tree().first_item() is None,
            },
    {
        match self {
            JsonValue::Array(items) => {
                if items.len() > 0 {
                    Some(&items[0])
                } else {
                    None
                }
            },
            _ => None,
        }
    }

    /// The text of a string.
    pub fn as_text(&self) -> (text: Option<&str>)
        ensures
            match text {
                Some(text) => self.tree().text() == Some(text@),
                None => self.tree().text() is None,
            },
    {
        match self {
            JsonValue::Text(text) => Some(text.as_str()),
            _ => None,
        }
    }

    /// The number, where it is a whole number from `0` to `u64::MAX`.
    pub fn as_unsigned(&self) -> (number: Option<u64>)
        ensures
            number == self.tree().unsigned(),
    {
        match self {
            JsonValue::Unsigned(number) => Some(*number),
            JsonValue::Number(number) => number_as_u64(number),
            _ => None,
        }
    }
}

fn find_entry<'a>(entries: &'a Vec<(String, JsonValue)>, name: &str) -> (found: Option<&'a JsonValue>)
    ensures
        match found {
            Some(found) => entry_trees(entries@).contains_key(name@) && entry_trees(entries@)[name@]
                == found.tree(),
            None => !entry_trees(entries@).contains_key(name@),
        },
{
    let wanted = name.to_string();
    let mut found: Option<&'a JsonValue> = None;
    for i in 0..entries.len()
        invariant
            wanted@ == name@,
            match found {
                Some(found) => entry_trees(entries@.take(i as int)).contains_key(name@)
                    && entry_trees(entries@.take(i as int))[name@] == found.tree(),
                None => !entry_trees(entries@.take(i as int)).contains_key(name@),
            },
    {
        proof {
            assert(entries@.take(i + 1).drop_last() =~= entries@.take(i as int));
        }
        if entries[i].0 == wanted {
            found = Some(&entries[i].1);
        }
    }
    proof {
        assert(entries@.take(entries.len() as int) =~= entries@);
    }
    found
}

} // verus!
