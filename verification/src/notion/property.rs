use crate::error::{outcome, CommErr, Failure};
use crate::json::{Json, JsonValue};
use crate::notion::filter::{ConditionView, Filter};
use crate::notion::{get_property_value, get_value_str, own_payload, string_at, tagged_payload};
use crate::text::same_text;
use vstd::prelude::*;
use vstd::string::StringExecFns;

verus! {

/// The twelve kinds of property that a page can carry.
#[derive(Clone, Copy, Debug, PartialEq, Eq, Structural)]
pub enum PropertyKind {
    Text,
    Number,
    Checkbox,
    Select,
    MultiSelect,
    Status,
    Date,
    People,
    Files,
    Relation,
    Rollup,
    Formula,
}

/// A kind of property together with the display name of one property of
/// that kind.
#[derive(Clone, Debug, PartialEq, Eq, Hash)]
pub enum PropertyType {
    Text(String),
    Number(String),
    Checkbox(String),
    Select(String),
    MultiSelect(String),
    Status(String),
    Date(String),
    People(String),
    Files(String),
    Relation(String),
    Rollup(String),
    Formula(String),
}

/// The mathematical value of a [`PropertyType`].
pub struct PropertyTypeView {
    pub kind: PropertyKind,
    pub name: Seq<char>,
}

/// The tag under which the remote API writes a kind.
pub open spec fn tag_of(kind: PropertyKind) -> Seq<char> {
    match kind {
        PropertyKind::Text => "rich_text"@,
        PropertyKind::Number => "number"@,
        PropertyKind::Checkbox => "checkbox"@,
        PropertyKind::Select => "select"@,
        PropertyKind::MultiSelect => "multi_select"@,
        PropertyKind::Status => "status"@,
        PropertyKind::Date => "date"@,
        PropertyKind::People => "people"@,
        PropertyKind::Files => "files"@,
        PropertyKind::Relation => "relation"@,
        PropertyKind::Rollup => "rollup"@,
        PropertyKind::Formula => "formula"@,
    }
}

/// The kind that a tag names, if it names one.
pub open spec fn kind_of(tag: Seq<char>) -> Option<PropertyKind> {
    if tag == "rich_text"@ {
        Some(PropertyKind::Text)
    } else if tag == "number"@ {
        Some(PropertyKind::Number)
    } else if tag == "checkbox"@ {
        Some(PropertyKind::Checkbox)
    } else if tag == "select"@ {
        Some(PropertyKind::Select)
    } else if tag == "multi_select"@ {
        Some(PropertyKind::MultiSelect)
    } else if tag == "status"@ {
        Some(PropertyKind::Status)
    } else if tag == "date"@ {
        Some(PropertyKind::Date)
    } else if tag == "people"@ {
        Some(PropertyKind::People)
    } else if tag == "files"@ {
        Some(PropertyKind::Files)
    } else if tag == "relation"@ {
        Some(PropertyKind::Relation)
    } else if tag == "rollup"@ {
        Some(PropertyKind::Rollup)
    } else if tag == "formula"@ {
        Some(PropertyKind::Formula)
    } else {
        None
    }
}

/// A tag that names a kind is the tag of that kind: resolving a tag and
/// writing the result out again gives the tag back.
pub proof fn lemma_tag_round_trip(tag: Seq<char>)
    requires
        kind_of(tag) is Some,
    ensures
        tag_of(kind_of(tag)->0) == tag,
{
}

/// The tag of a kind names that kind and no other: the twelve tags differ.
pub proof fn lemma_kind_round_trip(kind: PropertyKind)
    ensures
        kind_of(tag_of(kind)) == Some(kind),
{
    reveal_strlit("rich_text");
    reveal_strlit("number");
    reveal_strlit("checkbox");
    reveal_strlit("select");
    reveal_strlit("multi_select");
    reveal_strlit("status");
    reveal_strlit("date");
    reveal_strlit("people");
    reveal_strlit("files");
    reveal_strlit("relation");
    reveal_strlit("rollup");
    reveal_strlit("formula");
    // The tags differ in length or, where the length is the same, in their
    // first or second character.
    assert("rich_text"@.len() == 9);
    assert("number"@.len() == 6 && "number"@[0] == 'n');
    assert("checkbox"@.len() == 8 && "checkbox"@[0] == 'c');
    assert("select"@.len() == 6 && "select"@[0] == 's' && "select"@[1] == 'e');
    assert("multi_select"@.len() == 12);
    assert("status"@.len() == 6 && "status"@[0] == 's' && "status"@[1] == 't');
    assert("date"@.len() == 4);
    assert("people"@.len() == 6 && "people"@[0] == 'p');
    assert("files"@.len() == 5);
    assert("relation"@.len() == 8 && "relation"@[0] == 'r');
    assert("rollup"@.len() == 6 && "rollup"@[0] == 'r');
    assert("formula"@.len() == 7);
}

impl PropertyKind {
    /// The tag under which the remote API writes this kind.
    pub fn tag(&self) -> (tag: &'static str)
        ensures
            tag@ == tag_of(*self),
    {
        match self {
            PropertyKind::Text => "rich_text",
            PropertyKind::Number => "number",
            PropertyKind::Checkbox => "checkbox",
            PropertyKind::Select => "select",
            PropertyKind::MultiSelect => "multi_select",
            PropertyKind::Status => "status",
            PropertyKind::Date => "date",
            PropertyKind::People => "people",
            PropertyKind::Files => "files",
            PropertyKind::Relation => "relation",
            PropertyKind::Rollup => "rollup",
            PropertyKind::Formula => "formula",
        }
    }

    /// The kind that a tag names.
    pub fn from_tag(tag: &str) -> (kind: Option<PropertyKind>)
        ensures
            kind == kind_of(tag@),
    {
        if same_text(tag, "rich_text") {
            Some(PropertyKind::Text)
        } else if same_text(tag, "number") {
            Some(PropertyKind::Number)
        } else if same_text(tag, "checkbox") {
            Some(PropertyKind::Checkbox)
        } else if same_text(tag, "select") {
            Some(PropertyKind::Select)
        } else if same_text(tag, "multi_select") {
            Some(PropertyKind::MultiSelect)
        } else if same_text(tag, "status") {
            Some(PropertyKind::Status)
        } else if same_text(tag, "date") {
            Some(PropertyKind::Date)
        } else if same_text(tag, "people") {
            Some(PropertyKind::People)
        } else if same_text(tag, "files") {
            Some(PropertyKind::Files)
        } else if same_text(tag, "relation") {
            Some(PropertyKind::Relation)
        } else if same_text(tag, "rollup") {
            Some(PropertyKind::Rollup)
        } else if same_text(tag, "formula") {
            Some(PropertyKind::Formula)
        } else {
            None
        }
    }
}

impl View for PropertyType {
    type V = PropertyTypeView;

    open spec fn view(&self) -> PropertyTypeView {
        match self {
            PropertyType::Text(name) => PropertyTypeView { kind: PropertyKind::Text, name: name@ },
            PropertyType::Number(name) => PropertyTypeView {
                kind: PropertyKind::Number,
                name: name@,
            },
            PropertyType::Checkbox(name) => PropertyTypeView {
                kind: PropertyKind::Checkbox,
                name: name@,
            },
            PropertyType::Select(name) => PropertyTypeView {
                kind: PropertyKind::Select,
                name: name@,
            },
            PropertyType::MultiSelect(name) => PropertyTypeView {
                kind: PropertyKind::MultiSelect,
                name: name@,
            },
            PropertyType::Status(name) => PropertyTypeView {
                kind: PropertyKind::Status,
                name: name@,
            },
            PropertyType::Date(name) => PropertyTypeView { kind: PropertyKind::Date, name: name@ },
            PropertyType::People(name) => PropertyTypeView {
                kind: PropertyKind::People,
                name: name@,
            },
            PropertyType::Files(name) => PropertyTypeView {
                kind: PropertyKind::Files,
                name: name@,
            },
            PropertyType::Relation(name) => PropertyTypeView {
                kind: PropertyKind::Relation,
                name: name@,
            },
            PropertyType::Rollup(name) => PropertyTypeView {
                kind: PropertyKind::Rollup,
                name: name@,
            },
            PropertyType::Formula(name) => PropertyTypeView {
                kind: PropertyKind::Formula,
                name: name@,
            },
        }
    }
}

/// The filter of one condition that an operator makes of a property and an
/// operand.
pub open spec fn condition_of(
    property: PropertyTypeView,
    operator: Seq<char>,
    operand: Seq<char>,
) -> Seq<ConditionView> {
    seq![ConditionView { property, operator, operand }]
}

impl PropertyType {
    /// The filter that holds where the property equals `val`.
    pub fn equals(self, val: &str) -> (filter: Filter)
        ensures
            filter@ == condition_of(self@, "equals"@, val@),
    {
        Filter::new(self, (String::from_str("equals"), val.to_owned()))
    }

    /// The filter that holds where the property differs from `val`.
    pub fn does_not_equal(self, val: &str) -> (filter: Filter)
        ensures
            filter@ == condition_of(self@, "does_not_equal"@, val@),
    {
        Filter::new(self, (String::from_str("does_not_equal"), val.to_owned()))
    }

    /// The filter that holds where the property contains `val`.
    pub fn contains(self, val: &str) -> (filter: Filter)
        ensures
            filter@ == condition_of(self@, "contains"@, val@),
    {
        Filter::new(self, (String::from_str("contains"), val.to_owned()))
    }

    /// The filter that holds where the property does not contain `val`.
    pub fn does_not_contain(self, val: &str) -> (filter: Filter)
        ensures
            filter@ == condition_of(self@, "does_not_contain"@, val@),
    {
        Filter::new(self, (String::from_str("does_not_contain"), val.to_owned()))
    }

    /// A property type of the given kind and name.
    pub fn of_kind(kind: PropertyKind, name: String) -> (made: PropertyType)
        ensures
            made@ == (PropertyTypeView { kind, name: name@ }),
    {
        match kind {
            PropertyKind::Text => PropertyType::Text(name),
            PropertyKind::Number => PropertyType::Number(name),
            PropertyKind::Checkbox => PropertyType::Checkbox(name),
            PropertyKind::Select => PropertyType::Select(name),
            PropertyKind::MultiSelect => PropertyType::MultiSelect(name),
            PropertyKind::Status => PropertyType::Status(name),
            PropertyKind::Date => PropertyType::Date(name),
            PropertyKind::People => PropertyType::People(name),
            PropertyKind::Files => PropertyType::Files(name),
            PropertyKind::Relation => PropertyType::Relation(name),
            PropertyKind::Rollup => PropertyType::Rollup(name),
            PropertyKind::Formula => PropertyType::Formula(name),
        }
    }

    /// The kind, without the name.
    pub fn kind(&self) -> (kind: PropertyKind)
        ensures
            kind == self@.kind,
    {
        match self {
            PropertyType::Text(_) => PropertyKind::Text,
            PropertyType::Number(_) => PropertyKind::Number,
            PropertyType::Checkbox(_) => PropertyKind::Checkbox,
            PropertyType::Select(_) => PropertyKind::Select,
            PropertyType::MultiSelect(_) => PropertyKind::MultiSelect,
            PropertyType::Status(_) => PropertyKind::Status,
            PropertyType::Date(_) => PropertyKind::Date,
            PropertyType::People(_) => PropertyKind::People,
            PropertyType::Files(_) => PropertyKind::Files,
            PropertyType::Relation(_) => PropertyKind::Relation,
            PropertyType::Rollup(_) => PropertyKind::Rollup,
            PropertyType::Formula(_) => PropertyKind::Formula,
        }
    }

    /// Resolves a type tag to the property type of that kind, with an empty
    /// name. Fails with `UnknownPropertyType` of the tag exactly where the
    /// tag names no kind.
    pub fn from_str(tag: &str) -> (resolved: Result<PropertyType, CommErr>)
        ensures
            outcome(resolved) == match kind_of(tag@) {
                Some(kind) => Ok(PropertyTypeView { kind, name: Seq::empty() }),
                None => Err(Failure::UnknownPropertyType(tag@)),
            },
    {
        match PropertyKind::from_tag(tag) {
            Some(kind) => Ok(PropertyType::of_kind(kind, String::new())),
            None => Err(CommErr::UnknownPropertyType(tag.to_owned())),
        }
    }

    /// The type tag of this property type's kind.
    pub fn to_string(&self) -> (tag: String)
        ensures
            tag@ == tag_of(self@.kind),
    {
        String::from_str(self.kind().tag())
    }

    /// The carried name.
    pub fn get_val(&self) -> (name: String)
        ensures
            name@ == self@.name,
    {
        match self {
            PropertyType::Text(s)
            | PropertyType::Number(s)
            | PropertyType::Checkbox(s)
            | PropertyType::Select(s)
            | PropertyType::MultiSelect(s)
            | PropertyType::Status(s)
            | PropertyType::Date(s)
            | PropertyType::People(s)
            | PropertyType::Files(s)
            | PropertyType::Relation(s)
            | PropertyType::Rollup(s)
            | PropertyType::Formula(s) => s.clone(),
        }
    }

    /// The same kind under another name. The kind never changes.
    pub fn reset_val(&self, val: String) -> (renamed: PropertyType)
        ensures
            renamed@ == (PropertyTypeView { kind: self@.kind, name: val@ }),
    {
        match self {
            PropertyType::Text(_) => PropertyType::Text(val),
            PropertyType::Number(_) => PropertyType::Number(val),
            PropertyType::Checkbox(_) => PropertyType::Checkbox(val),
            PropertyType::Select(_) => PropertyType::Select(val),
            PropertyType::MultiSelect(_) => PropertyType::MultiSelect(val),
            PropertyType::Status(_) => PropertyType::Status(val),
            PropertyType::Date(_) => PropertyType::Date(val),
            PropertyType::People(_) => PropertyType::People(val),
            PropertyType::Files(_) => PropertyType::Files(val),
            PropertyType::Relation(_) => PropertyType::Relation(val),
            PropertyType::Rollup(_) => PropertyType::Rollup(val),
            PropertyType::Formula(_) => PropertyType::Formula(val),
        }
    }
}

/// One flat record of a property: a mapping of one field name to its value.
#[derive(Clone, Debug, PartialEq, Eq)]
pub struct Record {
    pub key: String,
    pub value: String,
}

impl View for Record {
    type V = Map<Seq<char>, Seq<char>>;

    open spec fn view(&self) -> Map<Seq<char>, Seq<char>> {
        map![self.key@ => self.value@]
    }
}

impl Record {
    /// The value that the record holds under `name`.
    pub fn get(&self, name: &str) -> (found: Option<&String>)
        ensures
            match found {
                Some(value) => self@.contains_key(name@) && self@[name@] == value@,
                None => !self@.contains_key(name@),
            },
    {
        if same_text(self.key.as_str(), name) {
            Some(&self.value)
        } else {
            None
        }
    }
}

/// The mathematical value of a list of records.
pub open spec fn records_view(records: Seq<Record>) -> Seq<Map<Seq<char>, Seq<char>>> {
    records.map_values(|record: Record| record@)
}

/// One named, typed property of a page, with its payload as flat records.
#[derive(Clone, Debug, PartialEq, Eq)]
pub struct Property {
    pub property: PropertyType,
    pub data: Vec<Record>,
}

/// The mathematical value of a [`Property`].
pub struct PropertyView {
    pub property: PropertyTypeView,
    pub data: Seq<Map<Seq<char>, Seq<char>>>,
}

impl View for Property {
    type V = PropertyView;

    open spec fn view(&self) -> PropertyView {
        PropertyView { property: self.property@, data: records_view(self.data@) }
    }
}

/// A value as the records hold it: a string as it is, a number as its text,
/// a boolean as `true` or `false`, and null, arrays and objects as the empty
/// string.
pub open spec fn rendered(value: JsonValue) -> Seq<char> {
    match value {
        JsonValue::Text(text) => text,
        JsonValue::Number(text) => text,
        JsonValue::Bool(flag) => if flag {
            "true"@
        } else {
            "false"@
        },
        _ => Seq::empty(),
    }
}

/// The records of one element of a payload: one for each member of an object,
/// in the object's order; for any other value one record that holds the
/// value under the type tag.
pub open spec fn element_records(tag: Seq<char>, element: JsonValue) -> Seq<
    Map<Seq<char>, Seq<char>>,
> {
    match element {
        JsonValue::Object(fields) => fields.map_values(
            |field: (Seq<char>, JsonValue)| map![field.0 => rendered(field.1)],
        ),
        _ => seq![map![tag => rendered(element)]],
    }
}

/// The elements of a payload: those of an array, or the payload alone.
pub open spec fn payload_elements(payload: JsonValue) -> Seq<JsonValue> {
    match payload {
        JsonValue::Array(items) => items,
        _ => seq![payload],
    }
}

/// The records of a payload: those of its elements, one after the other.
pub open spec fn payload_records(tag: Seq<char>, payload: JsonValue) -> Seq<
    Map<Seq<char>, Seq<char>>,
> {
    payload_elements(payload).flat_map(|element: JsonValue| element_records(tag, element))
}

/// The property that a tagged node denotes under the given name.
pub open spec fn property_of(name: Seq<char>, node: JsonValue) -> Result<PropertyView, Failure> {
    match own_payload(node) {
        Err(failure) => Err(failure),
        Ok(payload) => {
            let tag = string_at(node, "type"@)->Ok_0;
            match kind_of(tag) {
                None => Err(Failure::UnknownPropertyType(tag)),
                Some(kind) => Ok(
                    PropertyView {
                        property: PropertyTypeView { kind, name },
                        data: payload_records(tag, payload),
                    },
                ),
            }
        },
    }
}

/// Writes a value as the records hold it.
fn render(value: &Json) -> (text: String)
    ensures
        text@ == rendered(value@),
{
    match value {
        Json::Text(text) => text.clone(),
        Json::Number(text) => text.clone(),
        Json::Bool(flag) => if *flag {
            String::from_str("true")
        } else {
            String::from_str("false")
        },
        _ => String::new(),
    }
}

/// Appends the records of one element of a payload.
fn push_element_records(tag: &str, element: &Json, data: &mut Vec<Record>)
    ensures
        records_view(final(data)@) == records_view(old(data)@) + element_records(tag@, element@),
{
    match element {
        Json::Object(fields) => {
            let ghost members = element@->Object_0;
            let ghost record_of = |field: (Seq<char>, JsonValue)| map![field.0 => rendered(field.1)];
            let mut i: usize = 0;
            while i < fields.len()
                invariant
                    i <= fields.len(),
                    element@ == JsonValue::Object(members),
                    members.len() == fields.len(),
                    forall|k: int|
                        0 <= k < fields.len() ==> members[k] == (
                            #[trigger] fields[k].0@,
                            fields[k].1@,
                        ),
                    record_of == |field: (Seq<char>, JsonValue)| map![field.0 => rendered(field.1)],
                    records_view(data@) == records_view(old(data)@) + members.take(
                        i as int,
                    ).map_values(record_of),
                decreases fields.len() - i,
            {
                let ghost before = data@;
                let value = render(&fields[i].1);
                data.push(Record { key: fields[i].0.clone(), value });
                proof {
                    assert(data@.last()@ == record_of(members[i as int]));
                    assert(records_view(data@) =~= records_view(before).push(
                        record_of(members[i as int]),
                    ));
                    assert(members.take(i as int + 1).map_values(record_of) =~= members.take(
                        i as int,
                    ).map_values(record_of).push(record_of(members[i as int])));
                    assert(records_view(data@) =~= records_view(old(data)@) + members.take(
                        i as int + 1,
                    ).map_values(record_of));
                }
                i += 1;
            }
            proof {
                assert(members.take(i as int) =~= members);
            }
        },
        _ => {
            let value = render(element);
            data.push(Record { key: tag.to_owned(), value });
            proof {
                assert(records_view(data@) =~= records_view(old(data)@) + element_records(
                    tag@,
                    element@,
                ));
            }
        },
    }
}

impl Property {
    /// Extracts the property that the tagged node `value` holds under the
    /// display name `key`.
    ///
    /// Fails as [`get_property_value`] does where the node has no payload, and
    /// with `UnknownPropertyType` where its tag names none of the twelve kinds.
    pub fn new(key: &String, value: &Json) -> (made: Result<Property, CommErr>)
        ensures
            outcome(made) == property_of(key@, value@),
    {
        let payload = match get_property_value(value, None) {
            Ok(payload) => payload,
            Err(error) => {
                return Err(error);
            },
        };
        let tag = match get_value_str(value, "type") {
            Ok(tag) => tag,
            Err(error) => {
                return Err(error);
            },
        };
        let ghost records_of = |element: JsonValue| element_records(tag@, element);
        let mut data: Vec<Record> = Vec::new();
        match payload {
            Json::Array(items) => {
                let ghost elements = payload@->Array_0;
                let mut i: usize = 0;
                assert(records_view(data@) =~= elements.take(0).map_values(records_of).flatten());
                while i < items.len()
                    invariant
                        i <= items.len(),
                        elements.len() == items.len(),
                        forall|k: int| 0 <= k < items.len() ==> elements[k] == #[trigger] items[k]@,
                        records_of == |element: JsonValue| element_records(tag@, element),
                        records_view(data@) == elements.take(i as int).map_values(
                            records_of,
                        ).flatten(),
                    decreases items.len() - i,
                {
                    push_element_records(tag.as_str(), &items[i], &mut data);
                    proof {
                        let before = elements.take(i as int).map_values(records_of);
                        assert(elements.take(i as int + 1).map_values(records_of) =~= before.push(
                            records_of(elements[i as int]),
                        ));
                        before.lemma_flatten_push(records_of(elements[i as int]));
                    }
                    i += 1;
                }
                proof {
                    assert(elements.take(i as int) =~= elements);
                }
            },
            _ => {
                push_element_records(tag.as_str(), payload, &mut data);
                proof {
                    let only = seq![payload@].map_values(records_of);
                    assert(only =~= seq![records_of(payload@)]);
                    only.lemma_flatten_one_element();
                    assert(records_view(data@) =~= only.flatten());
                }
            },
        }
        match PropertyType::from_str(tag.as_str()) {
            Ok(property) => Ok(Property { property: property.reset_val(key.clone()), data }),
            Err(error) => Err(error),
        }
    }
}

/// A node whose type tag names a member that the node lacks has no payload,
/// and no property either: both fail with `MissingField` of the tag.
pub proof fn lemma_missing_payload(name: Seq<char>, node: JsonValue, tag: Seq<char>)
    requires
        string_at(node, "type"@) == Ok::<Seq<char>, Failure>(tag),
        node.field(tag) is None,
    ensures
        own_payload(node) == Err::<JsonValue, Failure>(Failure::MissingField(tag)),
        property_of(name, node) == Err::<PropertyView, Failure>(Failure::MissingField(tag)),
{
}

/// Who made a page.
#[derive(Clone, Debug, PartialEq, Eq)]
pub struct Author {
    pub id: String,
    pub name: String,
    pub avatar_url: String,
    pub email: String,
    pub user_type: String,
}

/// The mathematical value of an [`Author`].
pub struct AuthorView {
    pub id: Seq<char>,
    pub name: Seq<char>,
    pub avatar_url: Seq<char>,
    pub email: Seq<char>,
    pub user_type: Seq<char>,
}

impl View for Author {
    type V = AuthorView;

    open spec fn view(&self) -> AuthorView {
        AuthorView {
            id: self.id@,
            name: self.name@,
            avatar_url: self.avatar_url@,
            email: self.email@,
            user_type: self.user_type@,
        }
    }
}

/// The e-mail address of a user node: the `"email"` string of the node's own
/// payload.
pub open spec fn email_of(user: JsonValue) -> Result<Seq<char>, Failure> {
    match own_payload(user) {
        Err(failure) => Err(failure),
        Ok(person) => string_at(person, "email"@),
    }
}

/// The author that a page's properties name under `"Author"`. The first
/// failure among the payload, `"id"`, `"name"`, `"avatar_url"`, the e-mail
/// address and `"type"`, in this order, is the failure of the whole.
pub open spec fn author_of(properties: JsonValue) -> Result<AuthorView, Failure> {
    match tagged_payload(properties, Some("Author"@)) {
        Err(failure) => Err(failure),
        Ok(user) => {
            let id = string_at(user, "id"@);
            let name = string_at(user, "name"@);
            let avatar_url = string_at(user, "avatar_url"@);
            let email = email_of(user);
            let user_type = string_at(user, "type"@);
            if id is Err {
                Err(id->Err_0)
            } else if name is Err {
                Err(name->Err_0)
            } else if avatar_url is Err {
                Err(avatar_url->Err_0)
            } else if email is Err {
                Err(email->Err_0)
            } else if user_type is Err {
                Err(user_type->Err_0)
            } else {
                Ok(
                    AuthorView {
                        id: id->Ok_0,
                        name: name->Ok_0,
                        avatar_url: avatar_url->Ok_0,
                        email: email->Ok_0,
                        user_type: user_type->Ok_0,
                    },
                )
            }
        },
    }
}

impl Author {
    /// Extracts the author from a page's properties. Every field is required:
    /// the first that is missing, or no string, fails the extraction.
    pub fn new(property_list: &Json) -> (made: Result<Author, CommErr>)
        ensures
            outcome(made) == author_of(property_list@),
    {
        let user = match get_property_value(property_list, Some("Author")) {
            Ok(user) => user,
            Err(error) => {
                return Err(error);
            },
        };
        let id = match get_value_str(user, "id") {
            Ok(id) => id,
            Err(error) => {
                return Err(error);
            },
        };
        let name = match get_value_str(user, "name") {
            Ok(name) => name,
            Err(error) => {
                return Err(error);
            },
        };
        let avatar_url = match get_value_str(user, "avatar_url") {
            Ok(avatar_url) => avatar_url,
            Err(error) => {
                return Err(error);
            },
        };
        let person = match get_property_value(user, None) {
            Ok(person) => person,
            Err(error) => {
                return Err(error);
            },
        };
        let email = match get_value_str(person, "email") {
            Ok(email) => email,
            Err(error) => {
                return Err(error);
            },
        };
        let user_type = match get_value_str(user, "type") {
            Ok(user_type) => user_type,
            Err(error) => {
                return Err(error);
            },
        };
        Ok(Author { id, name, avatar_url, email, user_type })
    }
}

} // verus!
