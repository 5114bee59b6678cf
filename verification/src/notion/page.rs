use crate::error::{outcome, CommErr, Failure};
use crate::json::{Json, JsonValue};
use crate::notion::block::Block;
use crate::notion::property::{
    author_of, property_of, Author, AuthorView, Property, PropertyKind, PropertyView,
};
use crate::notion::{get_property_value, get_value_str, string_at, tagged_payload, NewImp, Notion};
use crate::text::same_text;
use vstd::prelude::*;
use vstd::string::StringExecFns;

verus! {

/// One page of the remote workspace.
#[derive(Clone, Debug, PartialEq, Eq)]
pub struct Page {
    pub id: String,
    pub created_time: String,
    pub edited_time: String,
    pub author: Author,
    pub editor_id: String,
    pub cover: String,
    pub icon: String,
    pub title: String,
    pub archived: bool,
    pub url: String,
    pub properties: Vec<Property>,
    pub content: Block,
}

/// The mathematical value of a [`Page`].
pub struct PageView {
    pub id: Seq<char>,
    pub created_time: Seq<char>,
    pub edited_time: Seq<char>,
    pub author: AuthorView,
    pub editor_id: Seq<char>,
    pub cover: Seq<char>,
    pub icon: Seq<char>,
    pub title: Seq<char>,
    pub archived: bool,
    pub url: Seq<char>,
    pub properties: Seq<PropertyView>,
    pub content: Seq<char>,
}

impl View for Page {
    type V = PageView;

    open spec fn view(&self) -> PageView {
        PageView {
            id: self.id@,
            created_time: self.created_time@,
            edited_time: self.edited_time@,
            author: self.author@,
            editor_id: self.editor_id@,
            cover: self.cover@,
            icon: self.icon@,
            title: self.title@,
            archived: self.archived,
            url: self.url@,
            properties: properties_view(self.properties@),
            content: self.content@,
        }
    }
}

/// The mathematical value of a list of properties.
pub open spec fn properties_view(properties: Seq<Property>) -> Seq<PropertyView> {
    properties.map_values(|property: Property| property@)
}

/// Whether a property of this name is promoted to an attribute of the page
/// and so kept out of its property list.
pub open spec fn is_promoted(name: Seq<char>) -> bool {
    name == "Author"@ || name == "Created time"@ || name == "Edited time"@ || name == "Name"@
}

/// The properties that the members of a `"properties"` object denote: every
/// member but the promoted ones, in the object's order. The first member that
/// denotes no property fails the whole.
pub open spec fn listed(fields: Seq<(Seq<char>, JsonValue)>) -> Result<Seq<PropertyView>, Failure>
    decreases fields.len(),
{
    if fields.len() == 0 {
        Ok(Seq::empty())
    } else {
        match listed(fields.drop_last()) {
            Err(failure) => Err(failure),
            Ok(before) => if is_promoted(fields.last().0) {
                Ok(before)
            } else {
                match property_of(fields.last().0, fields.last().1) {
                    Err(failure) => Err(failure),
                    Ok(property) => Ok(before.push(property)),
                }
            },
        }
    }
}

/// The property list of a page whose `"properties"` member is `properties`.
pub open spec fn properties_of(properties: JsonValue) -> Result<Seq<PropertyView>, Failure> {
    match properties {
        JsonValue::Object(fields) => listed(fields),
        _ => Err(Failure::MissingField("properties"@)),
    }
}

/// The title of a page: the `"plain_text"` of the first element of the
/// payload of `"Name"`.
pub open spec fn title_of(properties: JsonValue) -> Result<Seq<char>, Failure> {
    match tagged_payload(properties, Some("Name"@)) {
        Err(failure) => Err(failure),
        Ok(segments) => match segments.item(0) {
            None => Err(Failure::MissingField("properties"@)),
            Some(first) => string_at(first, "plain_text"@),
        },
    }
}

/// The string under `key`, or the empty string where there is none.
pub open spec fn string_or_empty(node: JsonValue, key: Seq<char>) -> Seq<char> {
    match string_at(node, key) {
        Ok(text) => text,
        Err(_) => Seq::empty(),
    }
}

/// The `"id"` of the page's `"last_edited_by"`, or the empty string.
pub open spec fn editor_of(page: JsonValue) -> Seq<char> {
    match page.field("last_edited_by"@) {
        Some(editor) => string_or_empty(editor, "id"@),
        None => Seq::empty(),
    }
}

/// Whether the page is archived: its `"archived"` member, read as `false`
/// where it is no boolean.
pub open spec fn archived_of(page: JsonValue) -> Result<bool, Failure> {
    match page.field("archived"@) {
        None => Err(Failure::MissingField("archived"@)),
        Some(JsonValue::Bool(flag)) => Ok(flag),
        Some(_) => Ok(false),
    }
}

/// The page that a JSON page object denotes, with an empty body. The first
/// failure among the `"properties"` member, the author, the property list,
/// `"id"`, `"created_time"`, `"last_edited_time"`, the title and
/// `"archived"`, in this order, is the failure of the whole.
pub open spec fn page_of(page: JsonValue) -> Result<PageView, Failure> {
    match page.field("properties"@) {
        None => Err(Failure::MissingField("properties"@)),
        Some(properties) => {
            let author = author_of(properties);
            let list = properties_of(properties);
            let id = string_at(page, "id"@);
            let created_time = string_at(page, "created_time"@);
            let edited_time = string_at(page, "last_edited_time"@);
            let title = title_of(properties);
            let archived = archived_of(page);
            if author is Err {
                Err(author->Err_0)
            } else if list is Err {
                Err(list->Err_0)
            } else if id is Err {
                Err(id->Err_0)
            } else if created_time is Err {
                Err(created_time->Err_0)
            } else if edited_time is Err {
                Err(edited_time->Err_0)
            } else if title is Err {
                Err(title->Err_0)
            } else if archived is Err {
                Err(archived->Err_0)
            } else {
                Ok(
                    PageView {
                        id: id->Ok_0,
                        created_time: created_time->Ok_0,
                        edited_time: edited_time->Ok_0,
                        author: author->Ok_0,
                        editor_id: editor_of(page),
                        cover: string_or_empty(page, "cover"@),
                        icon: string_or_empty(page, "icon"@),
                        title: title->Ok_0,
                        archived: archived->Ok_0,
                        url: string_or_empty(page, "url"@),
                        properties: list->Ok_0,
                        content: Seq::empty(),
                    },
                )
            }
        },
    }
}

/// Whether a property of this name is promoted to an attribute of the page.
fn promoted(name: &str) -> (yes: bool)
    ensures
        yes == is_promoted(name@),
{
    same_text(name, "Author") || same_text(name, "Created time") || same_text(name, "Edited time")
        || same_text(name, "Name")
}

/// Reads the string under `key`, or the empty string where there is none.
fn text_or_empty(node: &Json, key: &str) -> (text: String)
    ensures
        text@ == string_or_empty(node@, key@),
{
    match get_value_str(node, key) {
        Ok(text) => text,
        Err(_) => String::new(),
    }
}

/// Extracts the property list of a page from its `"properties"` member.
fn list_properties(property_list: &Json) -> (list: Result<Vec<Property>, CommErr>)
    ensures
        match list {
            Ok(properties) => properties_of(property_list@) == Ok::<Seq<PropertyView>, Failure>(
                properties_view(properties@),
            ),
            Err(error) => properties_of(property_list@) == Err::<Seq<PropertyView>, Failure>(
                error@,
            ),
        },
{
    match property_list {
        Json::Object(fields) => {
            let ghost members = property_list@->Object_0;
            let mut properties: Vec<Property> = Vec::new();
            let mut i: usize = 0;
            assert(properties_view(properties@) =~= Seq::empty());
            assert(members.take(0) =~= Seq::empty());
            while i < fields.len()
                invariant
                    i <= fields.len(),
                    property_list@ == JsonValue::Object(members),
                    members.len() == fields.len(),
                    forall|k: int|
                        0 <= k < fields.len() ==> members[k] == (
                            #[trigger] fields[k].0@,
                            fields[k].1@,
                        ),
                    listed(members.take(i as int)) == Ok::<Seq<PropertyView>, Failure>(
                        properties_view(properties@),
                    ),
                decreases fields.len() - i,
            {
                let ghost next = members.take(i as int + 1);
                proof {
                    assert(next.drop_last() =~= members.take(i as int));
                    assert(next.last() == members[i as int]);
                }
                if !promoted(fields[i].0.as_str()) {
                    let ghost before = properties@;
                    match Property::new(&fields[i].0, &fields[i].1) {
                        Ok(property) => {
                            properties.push(property);
                            proof {
                                assert(properties_view(properties@) =~= properties_view(
                                    before,
                                ).push(property@));
                            }
                        },
                        Err(error) => {
                            proof {
                                lemma_listed_fails(members, i as int + 1);
                            }
                            return Err(error);
                        },
                    }
                }
                i += 1;
            }
            proof {
                assert(members.take(i as int) =~= members);
            }
            Ok(properties)
        },
        _ => Err(CommErr::MissingField(String::from_str("properties"))),
    }
}

/// Once a prefix of the members fails, the whole list fails in the same way.
proof fn lemma_listed_fails(fields: Seq<(Seq<char>, JsonValue)>, n: int)
    requires
        0 <= n <= fields.len(),
        listed(fields.take(n)) is Err,
    ensures
        listed(fields) == listed(fields.take(n)),
    decreases fields.len() - n,
{
    if n == fields.len() {
        assert(fields.take(n) =~= fields);
    } else {
        assert(fields.take(n + 1).drop_last() =~= fields.take(n));
        lemma_listed_fails(fields, n + 1);
    }
}

/// A page object without a `"properties"` member denotes no page: it fails
/// with `MissingField("properties")`.
pub proof fn lemma_page_without_properties(page: JsonValue)
    requires
        page.field("properties"@) is None,
    ensures
        page_of(page) == Err::<PageView, Failure>(Failure::MissingField("properties"@)),
{
}

/// A page object whose properties hold no `"Name"` denotes no page. Where
/// all that is read before the title is in order, the failure is
/// `MissingField("Name")`.
pub proof fn lemma_page_without_name(page: JsonValue)
    requires
        page.field("properties"@) is Some,
        page.field("properties"@)->0.field("Name"@) is None,
    ensures
        page_of(page) is Err,
        author_of(page.field("properties"@)->0) is Ok && properties_of(
            page.field("properties"@)->0,
        ) is Ok && string_at(page, "id"@) is Ok && string_at(page, "created_time"@) is Ok
            && string_at(page, "last_edited_time"@) is Ok ==> page_of(page) == Err::<
            PageView,
            Failure,
        >(Failure::MissingField("Name"@)),
{
}

impl NewImp for Page {
    open spec fn denoted(val: JsonValue) -> Result<PageView, Failure> {
        page_of(val)
    }

    /// Extracts a page from a JSON page object, with an empty body. No page
    /// is made in part: the first required field that is missing, or no
    /// string, and the first property that cannot be extracted fail the whole.
    fn new(page: &Json) -> (made: Result<Page, CommErr>) {
        let property_list = match page.get("properties") {
            Some(property_list) => property_list,
            None => {
                return Err(CommErr::MissingField(String::from_str("properties")));
            },
        };
        let author = match Author::new(property_list) {
            Ok(author) => author,
            Err(error) => {
                return Err(error);
            },
        };
        let properties = match list_properties(property_list) {
            Ok(properties) => properties,
            Err(error) => {
                return Err(error);
            },
        };
        let id = match get_value_str(page, "id") {
            Ok(id) => id,
            Err(error) => {
                return Err(error);
            },
        };
        let created_time = match get_value_str(page, "created_time") {
            Ok(created_time) => created_time,
            Err(error) => {
                return Err(error);
            },
        };
        let edited_time = match get_value_str(page, "last_edited_time") {
            Ok(edited_time) => edited_time,
            Err(error) => {
                return Err(error);
            },
        };
        let editor_id = match page.get("last_edited_by") {
            Some(editor) => text_or_empty(editor, "id"),
            None => String::new(),
        };
        let cover = text_or_empty(page, "cover");
        let icon = text_or_empty(page, "icon");
        let segments = match get_property_value(property_list, Some("Name")) {
            Ok(segments) => segments,
            Err(error) => {
                return Err(error);
            },
        };
        let first = match segments.at(0) {
            Some(first) => first,
            None => {
                return Err(CommErr::MissingField(String::from_str("properties")));
            },
        };
        let title = match get_value_str(first, "plain_text") {
            Ok(title) => title,
            Err(error) => {
                return Err(error);
            },
        };
        let archived = match page.get("archived") {
            None => {
                return Err(CommErr::MissingField(String::from_str("archived")));
            },
            Some(Json::Bool(flag)) => *flag,
            Some(_) => false,
        };
        let url = text_or_empty(page, "url");
        Ok(
            Page {
                id,
                created_time,
                edited_time,
                author,
                editor_id,
                cover,
                icon,
                title,
                archived,
                url,
                properties,
                content: Block::default(),
            },
        )
    }
}

/// The field of a record that holds the value of a property of this kind.
pub open spec fn value_key(kind: PropertyKind) -> Seq<char> {
    match kind {
        PropertyKind::MultiSelect => "name"@,
        PropertyKind::Date => "date"@,
        PropertyKind::Text => "plain_text"@,
        _ => "name"@,
    }
}

/// What a search takes from one record: the value under `key`, and the
/// record's `"id"` or the empty string.
pub open spec fn record_pair(record: Map<Seq<char>, Seq<char>>, key: Seq<char>) -> (
    Seq<char>,
    Seq<char>,
) {
    (
        record[key],
        if record.contains_key("id"@) {
            record["id"@]
        } else {
            Seq::empty()
        },
    )
}

/// What a search for `name` takes from the property of that name: a pair for
/// each of its records, in their order. A record without the kind's value
/// field fails the search with `MissingField` of `MultiSelect` and the name.
pub open spec fn pairs_of(property: PropertyView, name: Seq<char>) -> Result<
    Seq<(Seq<char>, Seq<char>)>,
    Failure,
> {
    let key = value_key(property.property.kind);
    if forall|i: int| 0 <= i < property.data.len() ==> #[trigger] property.data[i].contains_key(key) {
        Ok(property.data.map_values(|record: Map<Seq<char>, Seq<char>>| record_pair(record, key)))
    } else {
        Err(Failure::MissingField("MultiSelect"@ + name))
    }
}

/// What a search for `name` gives on a property list: the pairs of the first
/// property of that name, and nothing where there is none.
pub open spec fn found(properties: Seq<PropertyView>, name: Seq<char>) -> Result<
    Seq<(Seq<char>, Seq<char>)>,
    Failure,
>
    decreases properties.len(),
{
    if properties.len() == 0 {
        Ok(Seq::empty())
    } else if properties[0].property.name == name {
        pairs_of(properties[0], name)
    } else {
        found(properties.drop_first(), name)
    }
}

/// A search for a name that no property carries gives the empty list.
pub proof fn lemma_absent_found_empty(properties: Seq<PropertyView>, name: Seq<char>)
    requires
        forall|i: int| 0 <= i < properties.len() ==> (#[trigger] properties[i]).property.name != name,
    ensures
        found(properties, name) == Ok::<Seq<(Seq<char>, Seq<char>)>, Failure>(Seq::empty()),
    decreases properties.len(),
{
    if properties.len() > 0 {
        assert(properties[0].property.name != name);
        assert forall|i: int| 0 <= i < properties.drop_first().len() implies (
        #[trigger] properties.drop_first()[i]).property.name != name by {
            assert(properties.drop_first()[i] == properties[i + 1]);
        }
        lemma_absent_found_empty(properties.drop_first(), name);
    }
}

/// The mathematical value of a list of pairs of strings.
pub open spec fn pairs_view(pairs: Seq<(String, String)>) -> Seq<(Seq<char>, Seq<char>)> {
    pairs.map_values(|pair: (String, String)| (pair.0@, pair.1@))
}

/// Takes the pairs of a search from one property.
fn collect_pairs(property: &Property, name: &str) -> (pairs: Result<Vec<(String, String)>, CommErr>)
    ensures
        match pairs {
            Ok(list) => pairs_of(property@, name@) == Ok::<Seq<(Seq<char>, Seq<char>)>, Failure>(
                pairs_view(list@),
            ),
            Err(error) => pairs_of(property@, name@) == Err::<Seq<(Seq<char>, Seq<char>)>, Failure>(
                error@,
            ),
        },
{
    let data_key = match property.property.kind() {
        PropertyKind::MultiSelect => "name",
        PropertyKind::Date => "date",
        PropertyKind::Text => "plain_text",
        _ => "name",
    };
    let ghost key = value_key(property@.property.kind);
    let ghost take = |record: Map<Seq<char>, Seq<char>>| record_pair(record, key);
    let mut res: Vec<(String, String)> = Vec::new();
    let mut i: usize = 0;
    assert(pairs_view(res@) =~= property@.data.take(0).map_values(take));
    while i < property.data.len()
        invariant
            i <= property.data.len(),
            data_key@ == key,
            key == value_key(property@.property.kind),
            take == |record: Map<Seq<char>, Seq<char>>| record_pair(record, key),
            property@.data.len() == property.data.len(),
            forall|k: int| 0 <= k < i ==> #[trigger] property@.data[k].contains_key(key),
            pairs_view(res@) == property@.data.take(i as int).map_values(take),
        decreases property.data.len() - i,
    {
        let record = &property.data[i];
        assert(property@.data[i as int] == record@);
        let value = match record.get(data_key) {
            Some(value) => value.clone(),
            None => {
                let mut message = String::from_str("MultiSelect");
                message.append(name);
                return Err(CommErr::MissingField(message));
            },
        };
        let id = match record.get("id") {
            Some(id) => id.clone(),
            None => String::new(),
        };
        let ghost before = res@;
        res.push((value, id));
        proof {
            assert(pairs_view(res@) =~= pairs_view(before).push(take(record@)));
            assert(property@.data.take(i as int + 1).map_values(take) =~= property@.data.take(
                i as int,
            ).map_values(take).push(take(property@.data[i as int])));
        }
        i += 1;
    }
    proof {
        assert(property@.data.take(i as int) =~= property@.data);
    }
    Ok(res)
}

impl Page {
    /// Searches the property list for the first property named `key` and
    /// takes from each of its records the value and the record's id.
    ///
    /// Gives the empty list where no property carries the name. Fails with
    /// `MissingField` where a record of the property lacks the field that
    /// holds values of the property's kind.
    pub fn search_property(&self, key: &str) -> (pairs: Result<Vec<(String, String)>, CommErr>)
        ensures
            match pairs {
                Ok(list) => found(self@.properties, key@) == Ok::<
                    Seq<(Seq<char>, Seq<char>)>,
                    Failure,
                >(pairs_view(list@)),
                Err(error) => found(self@.properties, key@) == Err::<
                    Seq<(Seq<char>, Seq<char>)>,
                    Failure,
                >(error@),
            },
            (forall|i: int|
                0 <= i < self@.properties.len() ==> (
                #[trigger] self@.properties[i]).property.name != key@) ==> pairs is Ok
                && pairs->Ok_0@.len() == 0,
    {
        let ghost all = self@.properties;
        proof {
            if forall|i: int| 0 <= i < all.len() ==> (#[trigger] all[i]).property.name != key@ {
                lemma_absent_found_empty(all, key@);
            }
        }
        let mut i: usize = 0;
        assert(all.skip(0) =~= all);
        while i < self.properties.len()
            invariant
                i <= self.properties.len(),
                all == self@.properties,
                all.len() == self.properties.len(),
                found(all, key@) == found(all.skip(i as int), key@),
            decreases self.properties.len() - i,
        {
            let property = &self.properties[i];
            proof {
                assert(all.skip(i as int).drop_first() =~= all.skip(i as int + 1));
                assert(all.skip(i as int)[0] == property@);
            }
            let name = property.property.get_val();
            if same_text(name.as_str(), key) {
                return collect_pairs(property, key);
            }
            i += 1;
        }
        let empty: Vec<(String, String)> = Vec::new();
        assert(pairs_view(empty@) =~= Seq::empty());
        Ok(empty)
    }

    /// The resource that holds the page's body.
    pub fn content_source(&self) -> (source: Notion)
        ensures
            source@ == crate::notion::NotionView::Blocks(self@.id),
    {
        Notion::Blocks(self.id.clone())
    }

    /// Takes in the outcome of fetching the page's body. A fetched body
    /// replaces the one that the page holds, and its text is returned; a
    /// failure is handed on and leaves the page as it was.
    pub fn content(&mut self, fetched: Result<Block, CommErr>) -> (text: Result<String, CommErr>)
        ensures
            match fetched {
                Ok(block) => final(self)@ == (PageView { content: block@, ..old(self)@ })
                    && outcome(text) == Ok::<Seq<char>, Failure>(block@),
                Err(error) => final(self)@ == old(self)@ && outcome(text) == Err::<
                    Seq<char>,
                    Failure,
                >(error@),
            },
    {
        match fetched {
            Ok(block) => {
                self.content = block;
                Ok(self.content.to_string())
            },
            Err(error) => Err(error),
        }
    }
}

} // verus!
