//! JSON text, read and written by `serde_json`.

use super::value::{entry_trees, item_trees, number_as_u64, number_tree, number_unsigned, JsonTree, JsonValue};
use serde_json::{Number, Value};
use vstd::prelude::*;

verus! {

/// A value of `serde_json`.
#[verifier::external_type_specification]
#[verifier::external_body]
pub struct ExValue(serde_json::Value);

/// An error of `serde_json`.
#[verifier::external_type_specification]
#[verifier::external_body]
pub struct ExJsonError(serde_json::Error);

/// What a value of `serde_json` holds.
pub uninterp spec fn json_tree(value: Value) -> JsonTree;

/// What an error of `serde_json` says.
pub uninterp spec fn json_error_text(error: serde_json::Error) -> Seq<char>;

/// What `serde_json::from_str` reads from a text, or what its error says.
pub uninterp spec fn parsed_text(text: Seq<char>) -> Result<JsonTree, Seq<char>>;

/// What `serde_json::from_slice` reads from bytes, or what its error says.
pub uninterp spec fn parsed_bytes(bytes: Seq<u8>) -> Result<JsonTree, Seq<char>>;

/// What `serde_json::to_string` writes for a value, or what its error says.
pub uninterp spec fn rendered(tree: JsonTree) -> Result<Seq<char>, Seq<char>>;

/// The outermost layer of a value of `serde_json`.
pub enum JsonShape {
    Null,
    Bool(bool),
    Number(Number),
    Text(String),
    Array(Vec<Value>),
    Object(Vec<(String, Value)>),
}

/// The trees of a list of values of `serde_json`.
pub open spec fn shape_items(items: Seq<Value>) -> Seq<JsonTree> {
    items.map_values(|item: Value| json_tree(item))
}

/// The members that a list of entries makes up; the last entry of a name counts.
pub open spec fn shape_entries(entries: Seq<(String, Value)>) -> Map<Seq<char>, JsonTree>
    decreases entries.len(),
{
    if entries.len() == 0 {
        Map::empty()
    } else {
        shape_entries(entries.drop_last()).insert(entries.last().0@, json_tree(entries.last().1))
    }
}

/// What a layer says.
pub open spec fn shape_tree(shape: JsonShape) -> JsonTree {
    match shape {
        JsonShape::Null => JsonTree::Null,
        JsonShape::Bool(flag) => JsonTree::Bool(flag),
        JsonShape::Number(number) => number_tree(number),
        JsonShape::Text(text) => JsonTree::Text(text@),
        JsonShape::Array(items) => JsonTree::Array(shape_items(items@)),
        JsonShape::Object(entries) => JsonTree::Object(shape_entries(entries@)),
    }
}

/// No two entries share a name.
pub open spec fn names_differ(entries: Seq<(String, Value)>) -> bool {
    forall|i: int, j: int| 0 <= i < j < entries.len() ==> entries[i].0@ != entries[j].0@
}

/// Calls `serde_json::from_str`. The result is named by [`parsed_text`].
#[verifier::external_body]
fn value_from_text(text: &str) -> (result: Result<Value, serde_json::Error>)
    ensures
        match result {
            Ok(value) => parsed_text(text@) == Ok::<JsonTree, Seq<char>>(json_tree(value)),
            Err(error) => parsed_text(text@) == Err::<JsonTree, Seq<char>>(json_error_text(error)),
        },
{
    serde_json::from_str(text)
}

/// Calls `serde_json::from_slice`. The result is named by [`parsed_bytes`].
#[verifier::external_body]
fn value_from_bytes(bytes: &[u8]) -> (result: Result<Value, serde_json::Error>)
    ensures
        match result {
            Ok(value) => parsed_bytes(bytes@) == Ok::<JsonTree, Seq<char>>(json_tree(value)),
            Err(error) => parsed_bytes(bytes@) == Err::<JsonTree, Seq<char>>(json_error_text(error)),
        },
{
    serde_json::from_slice(bytes)
}

/// Calls `serde_json::to_string`. The result is named by [`rendered`].
#[verifier::external_body]
fn text_from_value(value: &Value) -> (result: Result<String, serde_json::Error>)
    ensures
        match result {
            Ok(text) => rendered(json_tree(*value)) == Ok::<Seq<char>, Seq<char>>(text@),
            Err(error) => rendered(json_tree(*value)) == Err::<Seq<char>, Seq<char>>(
                json_error_text(error),
            ),
        },
{
    serde_json::to_string(value)
}

/// Calls `serde_json::Error::to_string`. The text is named by [`json_error_text`]. It is called
/// only on errors that reading a text or bytes or writing a text gives, never on one of input or
/// output, whose text is the system's.
#[verifier::external_body]
fn shown_error(error: &serde_json::Error) -> (text: String)
    ensures
        text@ == json_error_text(*error),
{
    error.to_string()
}

/// Takes a `serde_json::Value` apart by its variant. An object's map holds each name once.
#[verifier::external_body]
fn into_shape(value: Value) -> (shape: JsonShape)
    ensures
        json_tree(value) == shape_tree(shape),
        shape matches JsonShape::Object(entries) ==> names_differ(entries@),
{
    match value {
        Value::Null => JsonShape::Null,
        Value::Bool(flag) => JsonShape::Bool(flag),
        Value::Number(number) => JsonShape::Number(number),
        Value::String(text) => JsonShape::Text(text),
        Value::Array(items) => JsonShape::Array(items),
        Value::Object(entries) => JsonShape::Object(entries.into_iter().collect()),
    }
}

/// Makes a `serde_json::Value` of the variant. Collecting entries into an object's map keeps the
/// last entry of each name.
#[verifier::external_body]
fn from_shape(shape: JsonShape) -> (value: Value)
    ensures
        json_tree(value) == shape_tree(shape),
{
    match shape {
        JsonShape::Null => Value::Null,
        JsonShape::Bool(flag) => Value::Bool(flag),
        JsonShape::Number(number) => Value::Number(number),
        JsonShape::Text(text) => Value::String(text),
        JsonShape::Array(items) => Value::Array(items),
        JsonShape::Object(entries) => Value::Object(entries.into_iter().collect()),
    }
}

/// Calls `serde_json::Number::from` on an unsigned number, which `as_u64` gives back.
#[verifier::external_body]
fn number_from_u64(unsigned: u64) -> (number: Number)
    ensures
        number_unsigned(number) == Some(unsigned),
{
    Number::from(unsigned)
}

/// `serde_json::Number::clone` makes an equal number.
pub assume_specification[ <serde_json::Number as Clone>::clone ](
    number: &serde_json::Number,
) -> (copy: serde_json::Number)
    ensures
        copy == *number,
;

proof fn lemma_shape_entry_is_smaller(entries: Seq<(String, Value)>, i: int)
    requires
        names_differ(entries),
        0 <= i < entries.len(),
    ensures
        shape_entries(entries).dom().finite(),
        shape_entries(entries).contains_key(entries[i].0@),
        shape_entries(entries)[entries[i].0@] == json_tree(entries[i].1),
    decreases entries.len(),
{
    lemma_shape_entries_finite(entries);
    if i < entries.len() - 1 {
        lemma_shape_entry_is_smaller(entries.drop_last(), i);
    }
}

proof fn lemma_shape_entries_finite(entries: Seq<(String, Value)>)
    ensures
        shape_entries(entries).dom().finite(),
    decreases entries.len(),
{
    if entries.len() > 0 {
        lemma_shape_entries_finite(entries.drop_last());
    }
}

/// The result of reading JSON as a tree or a message.
pub open spec fn tree_result(result: Result<JsonValue, String>) -> Result<JsonTree, Seq<char>> {
    match result {
        Ok(value) => Ok(value.tree()),
        Err(message) => Err(message@),
    }
}

/// The result of writing a text, or a message.
pub open spec fn text_result(result: Result<String, String>) -> Result<Seq<char>, Seq<char>> {
    match result {
        Ok(text) => Ok(text@),
        Err(message) => Err(message@),
    }
}

impl JsonValue {
    /// Reads a JSON text.
    pub fn parse_text(text: &str) -> (result: Result<JsonValue, String>)
        ensures
            tree_result(result) == parsed_text(text@),
    {
        match value_from_text(text) {
            Ok(value) => Ok(JsonValue::from_serde(value)),
            Err(error) => Err(shown_error(&error)),
        }
    }

    /// Reads JSON from bytes.
    pub fn parse_bytes(bytes: &[u8]) -> (result: Result<JsonValue, String>)
        ensures
            tree_result(result) == parsed_bytes(bytes@),
    {
        match value_from_bytes(bytes) {
            Ok(value) => Ok(JsonValue::from_serde(value)),
            Err(error) => Err(shown_error(&error)),
        }
    }

    /// Writes the value as JSON text.
    pub fn render(&self) -> (result: Result<String, String>)
        ensures
            text_result(result) == rendered(self.tree()),
    {
        let value = self.to_serde();
        match text_from_value(&value) {
            Ok(text) => Ok(text),
            Err(error) => Err(shown_error(&error)),
        }
    }

    /// The plain form of a value of `serde_json`.
    pub fn from_serde(value: Value) -> (plain: JsonValue)
        ensures
            plain.tree() == json_tree(value),
        decreases json_tree(value),
    {
        let ghost tree = json_tree(value);
        match into_shape(value) {
            JsonShape::Null => JsonValue::Null,
            JsonShape::Bool(flag) => JsonValue::Bool(flag),
            JsonShape::Number(number) => match number_as_u64(&number) {
                Some(unsigned) => JsonValue::Unsigned(unsigned),
                None => JsonValue::Number(number),
            },
            JsonShape::Text(text) => JsonValue::Text(text),
            JsonShape::Array(items) => {
                let mut plain: Vec<JsonValue> = Vec::new();
                let ghost all = items@;
                for item in iter: items
                    invariant
                        iter.seq() == all,
                        tree == JsonTree::Array(shape_items(all)),
                        tree == json_tree(value),
                        item_trees(plain@) == shape_items(all).take(iter.index() as int),
                {
                    proof {
                        let i = iter.index() as int;
                        assert(shape_items(all)[i] == json_tree(item));
                        assert(decreases_to!(tree => tree->Array_0));
                        assert(decreases_to!(shape_items(all) => shape_items(all)[i]));
                    }
                    let ghost before = plain@;
                    plain.push(JsonValue::from_serde(item));
                    proof {
                        assert(item_trees(plain@) =~= item_trees(before).push(json_tree(item)));
                    }
                }
                proof {
                    assert(shape_items(all).take(all.len() as int) =~= shape_items(all));
                }
                JsonValue::Array(plain)
            },
            JsonShape::Object(entries) => {
                let mut plain: Vec<(String, JsonValue)> = Vec::new();
                let ghost all = entries@;
                for entry in iter: entries
                    invariant
                        iter.seq() == all,
                        names_differ(all),
                        tree == JsonTree::Object(shape_entries(all)),
                        tree == json_tree(value),
                        entry_trees(plain@) == shape_entries(all.take(iter.index() as int)),
                {
                    proof {
                        let i = iter.index() as int;
                        lemma_shape_entry_is_smaller(all, i);
                        assert(decreases_to!(shape_entries(all) => shape_entries(all)[all[i].0@]));
                        assert(decreases_to!(tree => tree->Object_0));
                        assert(all.take(i + 1).drop_last() =~= all.take(i));
                    }
                    let ghost before = plain@;
                    plain.push((entry.0, JsonValue::from_serde(entry.1)));
                    proof {
                        assert(plain@.drop_last() =~= before);
                    }
                }
                proof {
                    assert(all.take(all.len() as int) =~= all);
                }
                JsonValue::Object(plain)
            },
        }
    }

    /// The value of `serde_json` that says the same.
    pub fn to_serde(&self) -> (value: Value)
        ensures
            json_tree(value) == self.tree(),
        decreases self,
    {
        let shape = match self {
            JsonValue::Null => JsonShape::Null,
            JsonValue::Bool(flag) => JsonShape::Bool(*flag),
            JsonValue::Unsigned(number) => JsonShape::Number(number_from_u64(*number)),
            JsonValue::Number(number) => JsonShape::Number(number.clone()),
            JsonValue::Text(text) => JsonShape::Text(text.clone()),
            JsonValue::Array(items) => {
                let mut values: Vec<Value> = Vec::new();
                for i in 0..items.len()
                    invariant
                        *self == JsonValue::Array(*items),
                        shape_items(values@) == item_trees(items@).take(i as int),
                {
                    let ghost before = values@;
                    proof {
                        assert(decreases_to!(*self => self->Array_0));
                        assert(decreases_to!(*items => items@));
                        assert(decreases_to!(items@ => items@[i as int]));
                    }
                    values.push(items[i].to_serde());
                    proof {
                        assert(shape_items(values@) =~= shape_items(before).push(
                            items@[i as int].tree(),
                        ));
                    }
                }
                proof {
                    assert(item_trees(items@).take(items.len() as int) =~= item_trees(items@));
                }
                JsonShape::Array(values)
            },
            JsonValue::Object(entries) => {
                let mut values: Vec<(String, Value)> = Vec::new();
                for i in 0..entries.len()
                    invariant
                        *self == JsonValue::Object(*entries),
                        shape_entries(values@) == entry_trees(entries@.take(i as int)),
                {
                    let ghost before = values@;
                    proof {
                        assert(decreases_to!(*self => self->Object_0));
                        assert(decreases_to!(*entries => entries@));
                        assert(decreases_to!(entries@ => entries@[i as int]));
                        assert(decreases_to!(entries@[i as int] => entries@[i as int].1));
                        assert(entries@.take(i + 1).drop_last() =~= entries@.take(i as int));
                    }
                    values.push((entries[i].0.clone(), entries[i].1.to_serde()));
                    proof {
                        assert(values@.drop_last() =~= before);
                    }
                }
                proof {
                    assert(entries@.take(entries.len() as int) =~= entries@);
                }
                JsonShape::Object(values)
            },
        };
        from_shape(shape)
    }
}

impl Clone for JsonValue {
    /// A value that says the same.
    fn clone(&self) -> (copy: JsonValue)
        ensures
            copy.tree() == self.tree(),
    {
        JsonValue::from_serde(self.to_serde())
    }
}

} // verus!
