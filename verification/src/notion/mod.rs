pub mod block;
pub mod database;
pub mod filter;
pub mod page;
pub mod property;
pub mod request;
pub mod sort;

use crate::error::{outcome, CommErr, Failure};
use crate::json::{json_of_text, parse, Json, JsonValue};
use crate::notion::filter::{filter_text, is_set, unset, ConditionView, Filter};
use crate::notion::property::{PropertyType, PropertyTypeView};
use crate::notion::request::RequestMethod;
use crate::notion::sort::{sort_text, Direction, Sort};
use crate::text::{decimal, decimal_string, join, joined};
use vstd::prelude::*;
use vstd::string::StringExecFns;

verus! {

/// The string that `node` holds under `key`.
pub open spec fn string_at(node: JsonValue, key: Seq<char>) -> Result<Seq<char>, Failure> {
    match node.field(key) {
        None => Err(Failure::MissingField(key)),
        Some(member) => match member.text() {
            None => Err(Failure::NotAString(key)),
            Some(text) => Ok(text),
        },
    }
}

/// The payload of a tagged node: the member that the node's own `"type"`
/// string names.
pub open spec fn own_payload(node: JsonValue) -> Result<JsonValue, Failure> {
    match string_at(node, "type"@) {
        Err(failure) => Err(failure),
        Ok(tag) => match node.field(tag) {
            None => Err(Failure::MissingField(tag)),
            Some(payload) => Ok(payload),
        },
    }
}

/// The payload of the tagged node under `key`, or of `node` itself where no
/// key is given.
pub open spec fn tagged_payload(node: JsonValue, key: Option<Seq<char>>) -> Result<
    JsonValue,
    Failure,
> {
    match key {
        None => own_payload(node),
        Some(name) => match node.field(name) {
            None => Err(Failure::MissingField(name)),
            Some(inner) => own_payload(inner),
        },
    }
}

/// Reads the payload of a tagged node. With an `index` the node is first
/// left for its member of that name.
///
/// Fails with `MissingField` of the index where that member is absent, of
/// `"type"` where the node has no type tag, and of the tag where the node has
/// no member of that name; with `NotAString("type")` where the tag is no string.
pub fn get_property_value<'a>(property: &'a Json, index: Option<&str>) -> (payload: Result<
    &'a Json,
    CommErr,
>)
    ensures
        outcome(payload) == tagged_payload(
            property@,
            match index {
                Some(name) => Some(name@),
                None => None,
            },
        ),
{
    let node = match index {
        Some(name) => match property.get(name) {
            Some(inner) => inner,
            None => {
                return Err(CommErr::MissingField(name.to_owned()));
            },
        },
        None => property,
    };
    let tag = match get_value_str(node, "type") {
        Ok(tag) => tag,
        Err(error) => {
            return Err(error);
        },
    };
    match node.get(tag.as_str()) {
        Some(payload) => Ok(payload),
        None => Err(CommErr::MissingField(tag)),
    }
}

/// Reads the string that a node holds under `index`.
///
/// Fails with `MissingField` where the member is absent and with `NotAString`
/// where it holds anything but a string.
pub fn get_value_str(value: &Json, index: &str) -> (text: Result<String, CommErr>)
    ensures
        outcome(text) == string_at(value@, index@),
{
    match value.get(index) {
        None => Err(CommErr::MissingField(index.to_owned())),
        Some(member) => match member.as_str() {
            None => Err(CommErr::NotAString(index.to_owned())),
            Some(text) => Ok(text.to_owned()),
        },
    }
}

/// What can be made of a JSON value of the remote API.
pub trait NewImp: Sized + View {
    /// What a JSON value denotes as a value of this type, or why it denotes
    /// none.
    spec fn denoted(val: JsonValue) -> Result<Self::V, Failure>;

    /// Makes the value that `val` denotes.
    fn new(val: &Json) -> (made: Result<Self, CommErr>)
        ensures
            outcome(made) == Self::denoted(val@),
    ;

    /// The value that follows this one in the remote listing. By default
    /// there is none.
    fn next(&self) -> (following: Result<Self, CommErr>)
        default_ensures
            outcome(following) == Err::<Self::V, Failure>(Failure::PageNotFound),
    {
        Err(CommErr::PageNotFound)
    }
}

/// A resource of the remote API, with the identifier of the one meant.
#[derive(Clone, Debug, PartialEq, Eq)]
pub enum Notion {
    Databases(String),
    Pages(String),
    Blocks(String),
    Users(String),
}

/// The mathematical value of a [`Notion`].
pub enum NotionView {
    Databases(Seq<char>),
    Pages(Seq<char>),
    Blocks(Seq<char>),
    Users(Seq<char>),
}

impl NotionView {
    /// The identifier.
    pub open spec fn id(self) -> Seq<char> {
        match self {
            NotionView::Databases(id) => id,
            NotionView::Pages(id) => id,
            NotionView::Blocks(id) => id,
            NotionView::Users(id) => id,
        }
    }

    /// The path of the resource below the API's root.
    pub open spec fn path(self) -> Seq<char> {
        match self {
            NotionView::Databases(id) => "databases/"@ + id + "/query"@,
            NotionView::Pages(id) => "pages/"@ + id,
            NotionView::Blocks(id) => "blocks/"@ + id + "/children"@,
            NotionView::Users(id) => "users/"@ + id,
        }
    }

    /// The method by which the resource is asked for.
    pub open spec fn method(self) -> RequestMethod {
        match self {
            NotionView::Databases(_) => RequestMethod::POST,
            _ => RequestMethod::GET,
        }
    }
}

impl View for Notion {
    type V = NotionView;

    open spec fn view(&self) -> NotionView {
        match self {
            Notion::Databases(id) => NotionView::Databases(id@),
            Notion::Pages(id) => NotionView::Pages(id@),
            Notion::Blocks(id) => NotionView::Blocks(id@),
            Notion::Users(id) => NotionView::Users(id@),
        }
    }
}

/// What a response of the transport denotes: the transport's failure, or what
/// the JSON value denotes as a `T`.
pub open spec fn response_of<T: NewImp>(response: Result<Json, CommErr>) -> Result<T::V, Failure> {
    match response {
        Ok(val) => T::denoted(val@),
        Err(error) => Err(error@),
    }
}

impl Notion {
    /// The path of the resource below the API's root.
    pub fn path(&self) -> (path: String)
        ensures
            path@ == self@.path(),
    {
        match self {
            Notion::Databases(id) => {
                let mut path = String::from_str("databases/");
                path.append(id.as_str());
                path.append("/query");
                path
            },
            Notion::Pages(id) => {
                let mut path = String::from_str("pages/");
                path.append(id.as_str());
                path
            },
            Notion::Blocks(id) => {
                let mut path = String::from_str("blocks/");
                path.append(id.as_str());
                path.append("/children");
                path
            },
            Notion::Users(id) => {
                let mut path = String::from_str("users/");
                path.append(id.as_str());
                path
            },
        }
    }

    /// The method by which the resource is asked for.
    pub fn method(&self) -> (method: RequestMethod)
        ensures
            method == self@.method(),
    {
        match self {
            Notion::Databases(_) => RequestMethod::POST,
            Notion::Pages(_) => RequestMethod::GET,
            Notion::Blocks(_) => RequestMethod::GET,
            Notion::Users(_) => RequestMethod::GET,
        }
    }

    /// The identifier.
    pub fn get_val(&self) -> (id: String)
        ensures
            id@ == self@.id(),
    {
        match self {
            Notion::Databases(s) | Notion::Pages(s) | Notion::Blocks(s) | Notion::Users(s) => {
                s.clone()
            },
        }
    }

    /// A query of this resource under one filter.
    pub fn filter(self, filter: Filter) -> (builder: NotionBuilder)
        ensures
            builder@ == NotionBuilderView::fresh(self@).with_filter(filter@),
    {
        NotionBuilder::new(self).filter(filter)
    }

    /// A query of this resource under one sort key.
    pub fn sort(self, field: PropertyType, order: Direction) -> (builder: NotionBuilder)
        ensures
            builder@ == NotionBuilderView::fresh(self@).with_sort(field@, order),
    {
        NotionBuilder::new(self).sort(field, order)
    }

    /// A query of this resource for pages of the given size.
    pub fn limit(self, page_num: i32) -> (builder: NotionBuilder)
        ensures
            builder@ == NotionBuilderView::fresh(self@).with_limit(page_num as int),
    {
        NotionBuilder::new(self).limit(page_num)
    }

    /// Makes a `T` of the transport's response to the plain query of this
    /// resource: the transport's failure is handed on, a JSON value is read as
    /// a `T`.
    pub fn search<T: NewImp>(self, response: Result<Json, CommErr>) -> (found: Result<T, CommErr>)
        ensures
            outcome(found) == response_of::<T>(response),
    {
        NotionBuilder::new(self).search(response)
    }
}

/// The page size of a query for which none was chosen.
pub const DEFAULT_PAGE_SIZE: i32 = 100;

/// A query under construction: the resource, and what was chosen so far of
/// filter, sort keys, cursor and page size.
#[derive(Debug, PartialEq, Eq)]
pub struct NotionBuilder {
    pub module: Notion,
    pub filter: Filter,
    pub sort: Sort,
    pub start_cursor: String,
    pub page_size: i32,
}

/// The mathematical value of a [`NotionBuilder`].
pub struct NotionBuilderView {
    pub module: NotionView,
    pub filter: Seq<ConditionView>,
    pub sort: Seq<(PropertyTypeView, Direction)>,
    pub start_cursor: Seq<char>,
    pub page_size: int,
}

impl View for NotionBuilder {
    type V = NotionBuilderView;

    open spec fn view(&self) -> NotionBuilderView {
        NotionBuilderView {
            module: self.module@,
            filter: self.filter@,
            sort: self.sort@,
            start_cursor: self.start_cursor@,
            page_size: self.page_size as int,
        }
    }
}

impl NotionBuilderView {
    /// The query of a resource with nothing chosen: no filter in force, no
    /// sort key, no cursor, the default page size.
    pub open spec fn fresh(module: NotionView) -> NotionBuilderView {
        NotionBuilderView {
            module,
            filter: unset(),
            sort: Seq::empty(),
            start_cursor: Seq::empty(),
            page_size: DEFAULT_PAGE_SIZE as int,
        }
    }

    /// The query under one more filter: the first filter is taken as it is,
    /// a later one is joined to what is there by a logical AND.
    pub open spec fn with_filter(self, filter: Seq<ConditionView>) -> NotionBuilderView {
        NotionBuilderView {
            filter: if is_set(self.filter) {
                self.filter + filter
            } else {
                filter
            },
            ..self
        }
    }

    /// The query with one more sort key, behind those that are there.
    pub open spec fn with_sort(self, field: PropertyTypeView, order: Direction) -> NotionBuilderView {
        NotionBuilderView { sort: self.sort.push((field, order)), ..self }
    }

    /// The query with another page size.
    pub open spec fn with_limit(self, size: int) -> NotionBuilderView {
        NotionBuilderView { page_size: size, ..self }
    }

    /// The members of the request body, in their fixed order: the cursor, the
    /// filter and the sort keys where there are any, and always the page size.
    pub open spec fn members(self) -> Seq<Seq<char>> {
        let cursor = if self.start_cursor.len() > 0 {
            seq!["\"start_cursor\":\""@ + self.start_cursor + "\""@]
        } else {
            Seq::empty()
        };
        let filter = if filter_text(self.filter).len() > 0 {
            seq!["\"filter\":"@ + filter_text(self.filter)]
        } else {
            Seq::empty()
        };
        let sorts = if sort_text(self.sort).len() > 0 {
            seq!["\"sorts\":"@ + sort_text(self.sort)]
        } else {
            Seq::empty()
        };
        cursor + filter + sorts + seq!["\"page_size\":"@ + decimal(self.page_size)]
    }

    /// The request body as text: one JSON object of the members.
    pub open spec fn text(self) -> Seq<char> {
        "{"@ + joined(self.members(), ","@) + "}"@
    }
}

impl NotionBuilder {
    /// The query of a resource with nothing chosen.
    pub fn new(module: Notion) -> (builder: NotionBuilder)
        ensures
            builder@ == NotionBuilderView::fresh(module@),
    {
        NotionBuilder {
            module,
            filter: Filter::default(),
            sort: Sort::default(),
            start_cursor: String::new(),
            page_size: DEFAULT_PAGE_SIZE,
        }
    }

    /// Adds a filter: the first is taken as it is, a later one is joined to
    /// what is there by a logical AND.
    pub fn filter(self, filter: Filter) -> (builder: NotionBuilder)
        ensures
            builder@ == self@.with_filter(filter@),
    {
        let NotionBuilder { module, filter: current, sort, start_cursor, page_size } = self;
        let name = current.property.get_val();
        let chosen = if name.as_str().is_empty() {
            filter
        } else {
            current.and(filter)
        };
        NotionBuilder { module, filter: chosen, sort, start_cursor, page_size }
    }

    /// Adds a sort key behind those that are there.
    pub fn sort(self, field: PropertyType, order: Direction) -> (builder: NotionBuilder)
        ensures
            builder@ == self@.with_sort(field@, order),
    {
        let mut builder = self;
        let mut keys: Vec<(PropertyType, Direction)> = Vec::new();
        keys.push((field, order));
        builder.sort.add(keys);
        assert(builder@.sort =~= self@.sort.push((field@, order)));
        builder
    }

    /// Sets the page size.
    pub fn limit(self, size: i32) -> (builder: NotionBuilder)
        ensures
            builder@ == self@.with_limit(size as int),
    {
        let mut builder = self;
        builder.page_size = size;
        builder
    }

    /// Sets the cursor from which the next page of results starts.
    pub fn start_cursor(self, cursor: String) -> (builder: NotionBuilder)
        ensures
            builder@ == (NotionBuilderView { start_cursor: cursor@, ..self@ }),
    {
        let mut builder = self;
        builder.start_cursor = cursor;
        builder
    }

    /// Writes the request body.
    pub fn to_string(&self) -> (text: String)
        ensures
            text@ == self@.text(),
    {
        let mut body: Vec<String> = Vec::new();
        if !self.start_cursor.as_str().is_empty() {
            let mut member = String::from_str("\"start_cursor\":\"");
            member.append(self.start_cursor.as_str());
            member.append("\"");
            body.push(member);
        }
        let filter = self.filter.to_string();
        if !filter.as_str().is_empty() {
            let mut member = String::from_str("\"filter\":");
            member.append(filter.as_str());
            body.push(member);
        }
        let sort = self.sort.to_string();
        if !sort.as_str().is_empty() {
            let mut member = String::from_str("\"sorts\":");
            member.append(sort.as_str());
            body.push(member);
        }
        let mut member = String::from_str("\"page_size\":");
        let size = decimal_string(self.page_size);
        member.append(size.as_str());
        body.push(member);
        assert(crate::text::texts(body@) =~= self@.members());
        let mut text = String::from_str("{");
        let inner = join(&body, ",");
        text.append(inner.as_str());
        text.append("}");
        text
    }

    /// The request body as a JSON value: what the JSON parser reads from the
    /// body's text. Nothing comes back exactly where the parser rejects the
    /// text, as it does where a name or an operand breaks the quoting.
    pub fn format_body(&self) -> (body: Option<Json>)
        ensures
            match body {
                Some(json) => json_of_text(self@.text()) == Some(json@),
                None => json_of_text(self@.text()) is None,
            },
    {
        let text = self.to_string();
        parse(text.as_str())
    }

    /// Makes a `T` of the transport's response to this query: the transport's
    /// failure is handed on, a JSON value is read as a `T`.
    pub fn search<T: NewImp>(&self, response: Result<Json, CommErr>) -> (found: Result<T, CommErr>)
        ensures
            outcome(found) == response_of::<T>(response),
    {
        match response {
            Ok(val) => T::new(&val),
            Err(error) => Err(error),
        }
    }
}

} // verus!
