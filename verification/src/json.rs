use crate::text::same_text;
use vstd::prelude::*;

verus! {

/// A JSON document as the extraction reads it. A number is held as its text.
#[derive(Debug, PartialEq, Eq)]
pub enum Json {
    Null,
    Bool(bool),
    Number(String),
    Text(String),
    Array(Vec<Json>),
    Object(Vec<(String, Json)>),
}

/// The mathematical value of a [`Json`].
pub enum JsonValue {
    Null,
    Bool(bool),
    Number(Seq<char>),
    Text(Seq<char>),
    Array(Seq<JsonValue>),
    Object(Seq<(Seq<char>, JsonValue)>),
}

impl View for Json {
    type V = JsonValue;

    open spec fn view(&self) -> JsonValue
        decreases self,
    {
        match self {
            Json::Null => JsonValue::Null,
            Json::Bool(b) => JsonValue::Bool(*b),
            Json::Number(text) => JsonValue::Number(text@),
            Json::Text(text) => JsonValue::Text(text@),
            Json::Array(items) => JsonValue::Array(
                Seq::new(
                    items.len() as nat,
                    |i: int|
                        if 0 <= i < items.len() {
                            items[i]@
                        } else {
                            JsonValue::Null
                        },
                ),
            ),
            Json::Object(fields) => JsonValue::Object(
                Seq::new(
                    fields.len() as nat,
                    |i: int|
                        (
                            fields[i].0@,
                            if 0 <= i < fields.len() {
                                fields[i].1@
                            } else {
                                JsonValue::Null
                            },
                        ),
                ),
            ),
        }
    }
}

/// The value of the first of `fields` named `key`.
pub open spec fn lookup(fields: Seq<(Seq<char>, JsonValue)>, key: Seq<char>) -> Option<JsonValue>
    decreases fields.len(),
{
    if fields.len() == 0 {
        None
    } else if fields[0].0 == key {
        Some(fields[0].1)
    } else {
        lookup(fields.drop_first(), key)
    }
}

impl JsonValue {
    /// The member of an object under `key`; nothing for any other value.
    pub open spec fn field(self, key: Seq<char>) -> Option<JsonValue> {
        match self {
            JsonValue::Object(fields) => lookup(fields, key),
            _ => None,
        }
    }

    /// The element of an array at `index`; nothing for any other value.
    pub open spec fn item(self, index: int) -> Option<JsonValue> {
        match self {
            JsonValue::Array(items) if 0 <= index < items.len() => Some(items[index]),
            _ => None,
        }
    }

    /// The characters of a string; nothing for any other value.
    pub open spec fn text(self) -> Option<Seq<char>> {
        match self {
            JsonValue::Text(text) => Some(text),
            _ => None,
        }
    }
}

impl Json {
    /// The member of an object under `key`.
    pub fn get(&self, key: &str) -> (found: Option<&Json>)
        ensures
            match found {
                Some(member) => self@.field(key@) == Some(member@),
                None => self@.field(key@) is None,
            },
    {
        match self {
            Json::Object(fields) => {
                let ghost all = self@->Object_0;
                let mut i: usize = 0;
                assert(all.skip(0) =~= all);
                while i < fields.len()
                    invariant
                        i <= fields.len(),
                        self@ == JsonValue::Object(all),
                        all.len() == fields.len(),
                        forall|k: int|
                            0 <= k < fields.len() ==> all[k] == (
                                #[trigger] fields[k].0@,
                                fields[k].1@,
                            ),
                        lookup(all, key@) == lookup(all.skip(i as int), key@),
                    decreases fields.len() - i,
                {
                    proof {
                        assert(all.skip(i as int).drop_first() =~= all.skip(i as int + 1));
                        assert(all.skip(i as int)[0] == all[i as int]);
                    }
                    if same_text(fields[i].0.as_str(), key) {
                        return Some(&fields[i].1);
                    }
                    i += 1;
                }
                None
            },
            _ => None,
        }
    }

    /// The element of an array at `index`.
    pub fn at(&self, index: usize) -> (found: Option<&Json>)
        ensures
            match found {
                Some(element) => self@.item(index as int) == Some(element@),
                None => self@.item(index as int) is None,
            },
    {
        match self {
            Json::Array(items) => {
                if index < items.len() {
                    Some(&items[index])
                } else {
                    None
                }
            },
            _ => None,
        }
    }

    /// The characters of a string.
    pub fn as_str(&self) -> (found: Option<&str>)
        ensures
            match found {
                Some(text) => self@.text() == Some(text@),
                None => self@.text() is None,
            },
    {
        match self {
            Json::Text(text) => Some(text.as_str()),
            _ => None,
        }
    }
}

/// The outside JSON document type; its contents are reached through
/// [`value_content`] only.
#[verifier::external_type_specification]
#[verifier::external_body]
pub struct ExValue(serde_json::Value);

/// The outside parser's error; carried, never read.
#[verifier::external_type_specification]
#[verifier::external_body]
pub struct ExParseError(serde_json::Error);

/// The document that `serde_json::from_str` reads from `text`, or nothing where
/// it rejects the text.
pub uninterp spec fn json_of_text(text: Seq<char>) -> Option<JsonValue>;

/// The document that a `serde_json::Value` holds: its numbers as the text their
/// `Display` gives, its object members in the order in which the map hands
/// them out.
pub uninterp spec fn value_content(value: serde_json::Value) -> JsonValue;

/// Calls `serde_json::from_str` for a `serde_json::Value`. The result is a
/// function of the text alone: the contract names it and claims no more.
#[verifier::external_body]
fn value_from_text(text: &str) -> (parsed: Result<serde_json::Value, serde_json::Error>)
    ensures
        match parsed {
            Ok(value) => json_of_text(text@) == Some(value_content(value)),
            Err(_) => json_of_text(text@) is None,
        },
{
    serde_json::from_str::<serde_json::Value>(text)
}

/// Copies a `serde_json::Value` into a [`Json`], variant by variant. The
/// contract says that the copy holds what the value holds.
#[verifier::external_body]
fn json_from_value(value: &serde_json::Value) -> (json: Json)
    ensures
        json@ == value_content(*value),
{
    match value {
        serde_json::Value::Null => Json::Null,
        serde_json::Value::Bool(flag) => Json::Bool(*flag),
        serde_json::Value::Number(number) => Json::Number(number.to_string()),
        serde_json::Value::String(text) => Json::Text(text.clone()),
        serde_json::Value::Array(items) => Json::Array(items.iter().map(json_from_value).collect()),
        serde_json::Value::Object(fields) => Json::Object(
            fields.iter().map(|(name, member)| (name.clone(), json_from_value(member))).collect(),
        ),
    }
}

/// Reads a JSON text. Nothing comes back exactly where the text is no JSON
/// document.
pub fn parse(text: &str) -> (parsed: Option<Json>)
    ensures
        match parsed {
            Some(json) => json_of_text(text@) == Some(json@),
            None => json_of_text(text@) is None,
        },
{
    match value_from_text(text) {
        Ok(value) => Some(json_from_value(&value)),
        Err(_) => None,
    }
}

} // verus!
