pub mod contents;
pub mod metas;
pub mod relationships;

use crate::entity::contents::ContentRow;
use crate::entity::metas::MetaRow;
use crate::error::{outcome, CommErr, Failure};
use crate::notion::page::{found, Page, PageView};
use vstd::prelude::*;
use vstd::string::StringExecFns;

verus! {

/// The outside parser's error; carried, never read.
#[verifier::external_type_specification]
#[verifier::external_body]
pub struct ExTimeParseError(chrono::ParseError);

/// The UNIX timestamp of the instant that an RFC 3339 date-time denotes, as
/// `chrono` reads it, or nothing where `chrono` rejects the text.
pub uninterp spec fn rfc3339_seconds(text: Seq<char>) -> Option<int>;

/// Calls `chrono::DateTime::parse_from_rfc3339` and, on the instant that it
/// gives, `timestamp`: the seconds since 1970-01-01T00:00:00Z, leap seconds
/// not counted. The result is a function of the text alone: the contract
/// names it and claims no more.
#[verifier::external_body]
fn parse_seconds(text: &str) -> (seconds: Result<i64, chrono::ParseError>)
    ensures
        match seconds {
            Ok(count) => rfc3339_seconds(text@) == Some(count as int),
            Err(_) => rfc3339_seconds(text@) is None,
        },
{
    match chrono::DateTime::parse_from_rfc3339(text) {
        Ok(instant) => Ok(instant.timestamp()),
        Err(error) => Err(error),
    }
}

/// A count of seconds as a time column holds it: cut to the 32 bits of the
/// column.
pub open spec fn column(seconds: int) -> u32 {
    (seconds % 0x1_0000_0000) as u32
}

/// The timestamp that a row holds for a date-time: the seconds of UNIX time
/// as the column holds them, or nothing where the text is no RFC 3339
/// date-time.
pub open spec fn row_time(text: Seq<char>) -> Option<u32> {
    match rfc3339_seconds(text) {
        Some(count) => Some(column(count)),
        None => None,
    }
}

/// Cuts a count of seconds to the 32 bits of a time column.
pub fn column_seconds(seconds: i64) -> (time: u32)
    ensures
        time == column(seconds as int),
{
    let rest = seconds % 0x1_0000_0000i64;
    if rest < 0 {
        (rest + 0x1_0000_0000i64) as u32
    } else {
        rest as u32
    }
}

/// Reads an RFC 3339 date-time as the timestamp that a row holds for it.
/// Fails with `DateParseError` exactly where the text is no such date-time.
pub fn timestamp(text: &str) -> (time: Result<u32, CommErr>)
    ensures
        match time {
            Ok(seconds) => row_time(text@) == Some(seconds),
            Err(error) => row_time(text@) is None && error@ == Failure::DateParseError,
        },
{
    match parse_seconds(text) {
        Ok(count) => Ok(column_seconds(count)),
        Err(_) => Err(CommErr::DateParseError),
    }
}

/// Whether a meta row is a tag or a category.
#[derive(Clone, Copy, Debug, PartialEq, Eq, Structural)]
pub enum MetaKind {
    Tag,
    Category,
}

impl MetaKind {
    /// The word that the meta table holds for the kind.
    pub open spec fn word(self) -> Seq<char> {
        match self {
            MetaKind::Tag => "tag"@,
            MetaKind::Category => "category"@,
        }
    }

    /// Writes the kind as the meta table holds it.
    pub fn to_string(&self) -> (text: String)
        ensures
            text@ == self.word(),
    {
        match self {
            MetaKind::Tag => String::from_str("tag"),
            MetaKind::Category => String::from_str("category"),
        }
    }
}

/// A tag or category of a page, as the page names it.
#[derive(Clone, Debug, PartialEq, Eq)]
pub struct MetaDraft {
    pub name: String,
    pub slug: String,
    pub kind: MetaKind,
}

/// The mathematical value of a [`MetaDraft`].
pub struct MetaDraftView {
    pub name: Seq<char>,
    pub slug: Seq<char>,
    pub kind: MetaKind,
}

impl View for MetaDraft {
    type V = MetaDraftView;

    open spec fn view(&self) -> MetaDraftView {
        MetaDraftView { name: self.name@, slug: self.slug@, kind: self.kind }
    }
}

/// The mathematical value of a list of drafts.
pub open spec fn drafts_view(drafts: Seq<MetaDraft>) -> Seq<MetaDraftView> {
    drafts.map_values(|draft: MetaDraft| draft@)
}

/// What the driver of a transaction is to do next.
#[derive(Clone, Debug, PartialEq, Eq)]
pub enum Command {
    /// Find the content row of this slug; answered by [`Reply::Content`].
    FindContent(String),
    /// Insert this content row under a key of the store's choice; answered by
    /// [`Reply::Inserted`] with that key.
    InsertContent(contents::Model),
    /// Write this content row over the one of its key; answered by
    /// [`Reply::Done`].
    UpdateContent(contents::Model),
    /// Find a meta row of this name; answered by [`Reply::Meta`].
    FindMeta(String),
    /// Insert this meta row under a key of the store's choice; answered by
    /// [`Reply::Inserted`] with that key.
    InsertMeta(metas::Model),
    /// Write this meta row over the one of its key; answered by
    /// [`Reply::Done`].
    UpdateMeta(metas::Model),
    /// Insert this relationship row; answered by [`Reply::Done`].
    InsertRelationship(relationships::Model),
    /// Make all that was written lasting. The transaction is over.
    Commit,
    /// Undo all that was written and report the error. The transaction is
    /// over.
    Rollback(CommErr),
}

/// The mathematical value of a [`Command`].
pub enum CommandView {
    FindContent(Seq<char>),
    InsertContent(ContentRow),
    UpdateContent(ContentRow),
    FindMeta(Seq<char>),
    InsertMeta(MetaRow),
    UpdateMeta(MetaRow),
    InsertRelationship(relationships::Model),
    Commit,
    Rollback(Failure),
}

impl View for Command {
    type V = CommandView;

    open spec fn view(&self) -> CommandView {
        match self {
            Command::FindContent(slug) => CommandView::FindContent(slug@),
            Command::InsertContent(row) => CommandView::InsertContent(row@),
            Command::UpdateContent(row) => CommandView::UpdateContent(row@),
            Command::FindMeta(name) => CommandView::FindMeta(name@),
            Command::InsertMeta(row) => CommandView::InsertMeta(row@),
            Command::UpdateMeta(row) => CommandView::UpdateMeta(row@),
            Command::InsertRelationship(row) => CommandView::InsertRelationship(*row),
            Command::Commit => CommandView::Commit,
            Command::Rollback(error) => CommandView::Rollback(error@),
        }
    }
}

impl CommandView {
    /// Whether the command changes the store.
    pub open spec fn writes(self) -> bool {
        self is InsertContent || self is UpdateContent || self is InsertMeta || self is UpdateMeta
            || self is InsertRelationship
    }

    /// Whether the command ends the transaction.
    pub open spec fn ends(self) -> bool {
        self is Commit || self is Rollback
    }
}

/// What the store answered to a command.
#[derive(Clone, Debug, PartialEq, Eq)]
pub enum Reply {
    /// The content row that was looked for, if there is one.
    Content(Option<contents::Model>),
    /// The meta row that was looked for, if there is one.
    Meta(Option<metas::Model>),
    /// The key under which a row was inserted.
    Inserted(u32),
    /// The write was made.
    Done,
    /// The store failed; the message is its own.
    Failed(String),
}

/// The mathematical value of a [`Reply`].
pub enum ReplyView {
    Content(Option<ContentRow>),
    Meta(Option<MetaRow>),
    Inserted(u32),
    Done,
    Failed(Seq<char>),
}

impl View for Reply {
    type V = ReplyView;

    open spec fn view(&self) -> ReplyView {
        match self {
            Reply::Content(None) => ReplyView::Content(None),
            Reply::Content(Some(row)) => ReplyView::Content(Some(row@)),
            Reply::Meta(None) => ReplyView::Meta(None),
            Reply::Meta(Some(row)) => ReplyView::Meta(Some(row@)),
            Reply::Inserted(key) => ReplyView::Inserted(*key),
            Reply::Done => ReplyView::Done,
            Reply::Failed(message) => ReplyView::Failed(message@),
        }
    }
}

/// Where a transaction stands: which answer it waits for.
#[derive(Clone, Copy, Debug, PartialEq, Eq, Structural)]
pub enum Stage {
    /// The content row is being inserted.
    Content,
    /// The meta row of the tag or category at this place is being looked for.
    Lookup(usize),
    /// The counter of the meta row at this place is being raised.
    Count(usize),
    /// The meta row of the missing tag or category at this place is being
    /// inserted.
    Meta(usize),
    /// The relationship row of the meta row at this place is being inserted.
    Relationship(usize),
    /// The content row to update is being looked for.
    Find,
    /// The content row is being updated.
    Write,
    /// The transaction is over.
    Finished,
}

/// One run of the synchronisation of a page, between two commands.
#[derive(Clone, Debug, PartialEq, Eq)]
pub struct Transaction {
    pub page: Page,
    pub stage: Stage,
    /// The time of the page's last edit as a row holds it, for an update;
    /// nothing where the page's own text of it is no date-time.
    pub modified: Option<u32>,
    /// The key of the content row, once it is inserted.
    pub cid: u32,
    /// The tags of the page and, once they are all looked up, its category.
    pub items: Vec<MetaDraft>,
    /// Whether the category stands at the end of `items`.
    pub categorised: bool,
    /// The items for which no meta row was found.
    pub missing: Vec<MetaDraft>,
}

/// The mathematical value of a [`Transaction`].
pub struct TransactionView {
    pub page: PageView,
    pub stage: Stage,
    pub modified: Option<u32>,
    pub cid: u32,
    pub items: Seq<MetaDraftView>,
    pub categorised: bool,
    pub missing: Seq<MetaDraftView>,
}

impl View for Transaction {
    type V = TransactionView;

    open spec fn view(&self) -> TransactionView {
        TransactionView {
            page: self.page@,
            stage: self.stage,
            modified: self.modified,
            cid: self.cid,
            items: drafts_view(self.items@),
            categorised: self.categorised,
            missing: drafts_view(self.missing@),
        }
    }
}

/// The marker that the blog wants before a body of markdown.
pub open spec fn marked(body: Seq<char>) -> Seq<char> {
    "<!--markdown-->"@ + body
}

/// The first pair that a search for `name` gives. A page without a property
/// of that name, or with an empty one, fails with `MissingField` of the name.
pub open spec fn first_found(page: PageView, name: Seq<char>) -> Result<
    (Seq<char>, Seq<char>),
    Failure,
> {
    match found(page.properties, name) {
        Err(failure) => Err(failure),
        Ok(pairs) => if pairs.len() == 0 {
            Err(Failure::MissingField(name))
        } else {
            Ok(pairs[0])
        },
    }
}

/// The content row of a new article of a page that was created and last
/// edited at the given times: the page's title, the slug that its `"Slug"`
/// property gives first, the two times and the page's marked body, as a
/// published post of the first author that is open to comments and feeds.
///
/// The search for the slug may fail; then a time that is missing fails the
/// row with `DateParseError`.
pub open spec fn content_made(page: PageView, created: Option<u32>, modified: Option<u32>) -> Result<
    ContentRow,
    Failure,
> {
    let slug = first_found(page, "Slug"@);
    if slug is Err {
        Err(slug->Err_0)
    } else if created is None || modified is None {
        Err(Failure::DateParseError)
    } else {
        Ok(
            ContentRow {
                cid: 0,
                title: Some(page.title),
                slug: Some(slug->Ok_0.0),
                created: created->0,
                modified: modified->0,
                text: marked(page.content),
                author_id: 1,
                ctype: "post"@,
                status: "publish"@,
                allow_comment: "1"@,
                allow_ping: "0"@,
                allow_feed: "1"@,
            },
        )
    }
}

/// The content row of a new article of a page, with the page's own two
/// timestamps.
pub open spec fn content_of(page: PageView) -> Result<ContentRow, Failure> {
    content_made(page, row_time(page.created_time), row_time(page.edited_time))
}

/// The content row that an update writes over `row`: the row with the page's
/// title, the time of its last edit and its marked body.
pub open spec fn revised(row: ContentRow, page: PageView, modified: u32) -> ContentRow {
    ContentRow { title: Some(page.title), modified, text: marked(page.content), ..row }
}

/// The meta row that is inserted for a missing tag or category: used once,
/// unordered, without a parent.
pub open spec fn meta_of(draft: MetaDraftView) -> MetaRow {
    MetaRow {
        mid: 0,
        name: Some(draft.name),
        slug: Some(draft.slug),
        mtype: Some(draft.kind.word()),
        count: 1,
        order: 0,
        parent: 0,
    }
}

/// The tags that a page names, as drafts.
pub open spec fn tags_of(pairs: Seq<(Seq<char>, Seq<char>)>) -> Seq<MetaDraftView> {
    pairs.map_values(
        |pair: (Seq<char>, Seq<char>)|
            MetaDraftView { name: pair.0, slug: pair.1, kind: MetaKind::Tag },
    )
}

/// The message of the error that ends a transaction on an answer that does
/// not fit the command.
pub open spec fn unexpected() -> Seq<char> {
    "unexpected reply"@
}

/// The message of the error that ends a transaction on a counter that cannot
/// be raised.
pub open spec fn exhausted() -> Seq<char> {
    "counter overflow"@
}

impl TransactionView {
    /// The transaction of a page before its first command.
    pub open spec fn fresh(page: PageView, stage: Stage, modified: Option<u32>) -> TransactionView {
        TransactionView {
            page,
            stage,
            modified,
            cid: 0,
            items: Seq::empty(),
            categorised: false,
            missing: Seq::empty(),
        }
    }

    /// The transaction ended by a rollback.
    pub open spec fn abort(self, failure: Failure) -> (TransactionView, CommandView) {
        (TransactionView { stage: Stage::Finished, ..self }, CommandView::Rollback(failure))
    }

    /// The transaction at the item at place `i`: the item is looked up; past
    /// the tags the category is taken in and looked up; past the category the
    /// missing items are inserted.
    pub open spec fn seek(self, i: usize) -> (TransactionView, CommandView) {
        if i < self.items.len() {
            (
                TransactionView { stage: Stage::Lookup(i), ..self },
                CommandView::FindMeta(self.items[i as int].name),
            )
        } else if !self.categorised {
            match first_found(self.page, "Category"@) {
                Err(failure) => self.abort(failure),
                Ok(pair) => (
                    TransactionView {
                        stage: Stage::Lookup(i),
                        items: self.items.push(
                            MetaDraftView { name: pair.0, slug: pair.1, kind: MetaKind::Category },
                        ),
                        categorised: true,
                        ..self
                    },
                    CommandView::FindMeta(pair.0),
                ),
            }
        } else {
            self.create(0)
        }
    }

    /// The transaction at the missing item at place `j`: its meta row is
    /// inserted; past the last the transaction is committed.
    pub open spec fn create(self, j: usize) -> (TransactionView, CommandView) {
        if j < self.missing.len() {
            (
                TransactionView { stage: Stage::Meta(j), ..self },
                CommandView::InsertMeta(meta_of(self.missing[j as int])),
            )
        } else {
            (TransactionView { stage: Stage::Finished, ..self }, CommandView::Commit)
        }
    }

    /// The transaction that creates the article of a page, with its first
    /// command: the insertion of the content row, or the rollback where there
    /// is no such row.
    pub open spec fn create_article(page: PageView, row: Result<ContentRow, Failure>) -> (
        TransactionView,
        CommandView,
    ) {
        match row {
            Err(failure) => Self::fresh(page, Stage::Content, None).abort(failure),
            Ok(row) => (Self::fresh(page, Stage::Content, None), CommandView::InsertContent(row)),
        }
    }

    /// The transaction that updates the article of a page last edited at the
    /// given time, with its first command: the search for the content row of
    /// the slug that the page's `"slug"` property gives first.
    pub open spec fn revise_article(page: PageView, modified: Option<u32>) -> (
        TransactionView,
        CommandView,
    ) {
        match first_found(page, "slug"@) {
            Err(failure) => Self::fresh(page, Stage::Find, modified).abort(failure),
            Ok(pair) => (
                Self::fresh(page, Stage::Find, modified),
                CommandView::FindContent(pair.0),
            ),
        }
    }

    /// The transaction after the store's answer to its last command, with the
    /// next command.
    ///
    /// A failure of the store, an answer that does not fit the command, and a
    /// failure of the page's own data end the transaction by a rollback.
    pub open spec fn next(self, reply: ReplyView) -> (TransactionView, CommandView) {
        match (self.stage, reply) {
            (Stage::Finished, _) => self.abort(Failure::StorageError(unexpected())),
            (_, ReplyView::Failed(message)) => self.abort(Failure::StorageError(message)),
            (Stage::Content, ReplyView::Inserted(cid)) => match found(
                self.page.properties,
                "Tag"@,
            ) {
                Err(failure) => self.abort(failure),
                Ok(pairs) => (TransactionView { cid, items: tags_of(pairs), ..self }).seek(0),
            },
            (Stage::Lookup(i), ReplyView::Meta(Some(row))) => if i < self.items.len() && row.count
                < u32::MAX {
                (
                    TransactionView { stage: Stage::Count(i), ..self },
                    CommandView::UpdateMeta(MetaRow { count: (row.count + 1) as u32, ..row }),
                )
            } else if i < self.items.len() {
                self.abort(Failure::StorageError(exhausted()))
            } else {
                self.abort(Failure::StorageError(unexpected()))
            },
            (Stage::Lookup(i), ReplyView::Meta(None)) => if i < self.items.len() {
                (TransactionView { missing: self.missing.push(self.items[i as int]), ..self }).seek(
                    (i + 1) as usize,
                )
            } else {
                self.abort(Failure::StorageError(unexpected()))
            },
            (Stage::Count(i), ReplyView::Done) => if i < self.items.len() {
                self.seek((i + 1) as usize)
            } else {
                self.abort(Failure::StorageError(unexpected()))
            },
            (Stage::Meta(j), ReplyView::Inserted(mid)) => (
                TransactionView { stage: Stage::Relationship(j), ..self },
                CommandView::InsertRelationship(relationships::Model { cid: self.cid, mid }),
            ),
            (Stage::Relationship(j), ReplyView::Done) => if j < self.missing.len() {
                self.create((j + 1) as usize)
            } else {
                self.abort(Failure::StorageError(unexpected()))
            },
            (Stage::Find, ReplyView::Content(None)) => self.abort(Failure::PageNotFound),
            (Stage::Find, ReplyView::Content(Some(row))) => match self.modified {
                None => self.abort(Failure::DateParseError),
                Some(modified) => (
                    TransactionView { stage: Stage::Write, ..self },
                    CommandView::UpdateContent(revised(row, self.page, modified)),
                ),
            },
            (Stage::Write, ReplyView::Done) => (
                TransactionView { stage: Stage::Finished, ..self },
                CommandView::Commit,
            ),
            _ => self.abort(Failure::StorageError(unexpected())),
        }
    }
}

impl MetaDraft {
    /// A draft of the same name, slug and kind.
    pub fn duplicate(&self) -> (copy: MetaDraft)
        ensures
            copy@ == self@,
    {
        MetaDraft { name: self.name.clone(), slug: self.slug.clone(), kind: self.kind }
    }

    /// The meta row that is inserted for the draft.
    pub fn row(&self) -> (row: metas::Model)
        ensures
            row@ == meta_of(self@),
    {
        metas::Model {
            mid: 0,
            name: Some(self.name.clone()),
            slug: Some(self.slug.clone()),
            mtype: Some(self.kind.to_string()),
            count: 1,
            order: 0,
            parent: 0,
        }
    }
}

/// Searches a page for `name` and takes the first pair.
fn first_pair(page: &Page, name: &str) -> (pair: Result<(String, String), CommErr>)
    ensures
        match pair {
            Ok(pair) => first_found(page@, name@) == Ok::<(Seq<char>, Seq<char>), Failure>(
                (pair.0@, pair.1@),
            ),
            Err(error) => first_found(page@, name@) == Err::<(Seq<char>, Seq<char>), Failure>(
                error@,
            ),
        },
{
    match page.search_property(name) {
        Err(error) => Err(error),
        Ok(pairs) => {
            let mut pairs = pairs;
            if pairs.len() == 0 {
                Err(CommErr::MissingField(name.to_owned()))
            } else {
                let ghost all = pairs@;
                let first = pairs.swap_remove(0);
                assert(first == all[0]);
                Ok(first)
            }
        },
    }
}

/// Makes drafts of the tags that a search gave.
fn tag_drafts(pairs: Vec<(String, String)>) -> (drafts: Vec<MetaDraft>)
    ensures
        drafts_view(drafts@) == tags_of(crate::notion::page::pairs_view(pairs@)),
{
    let ghost wanted = tags_of(crate::notion::page::pairs_view(pairs@));
    let mut drafts: Vec<MetaDraft> = Vec::new();
    let mut i: usize = 0;
    while i < pairs.len()
        invariant
            i <= pairs.len(),
            wanted == tags_of(crate::notion::page::pairs_view(pairs@)),
            drafts_view(drafts@) == wanted.take(i as int),
        decreases pairs.len() - i,
    {
        let ghost before = drafts@;
        drafts.push(
            MetaDraft { name: pairs[i].0.clone(), slug: pairs[i].1.clone(), kind: MetaKind::Tag },
        );
        proof {
            assert(drafts_view(drafts@) =~= drafts_view(before).push(wanted[i as int]));
            assert(wanted.take(i as int + 1) =~= wanted.take(i as int).push(wanted[i as int]));
        }
        i += 1;
    }
    proof {
        assert(wanted.take(i as int) =~= wanted);
    }
    drafts
}

/// Puts the blog's marker before a body of markdown.
fn mark(body: &str) -> (text: String)
    ensures
        text@ == marked(body@),
{
    let mut text = String::from_str("<!--markdown-->");
    text.append(body);
    text
}

/// Reads an RFC 3339 date-time as the timestamp that a row holds for it, if
/// it is one.
fn row_timestamp(text: &str) -> (time: Option<u32>)
    ensures
        time == row_time(text@),
{
    match timestamp(text) {
        Ok(seconds) => Some(seconds),
        Err(_) => None,
    }
}

/// The content row of a new article of the page, with the page's own two
/// timestamps.
///
/// Fails with `MissingField("Slug")` where the page names no slug, as the
/// search does where it fails, and with `DateParseError` where one of the
/// page's two timestamps is no RFC 3339 date-time.
pub fn content_row(page: &Page) -> (row: Result<contents::Model, CommErr>)
    ensures
        outcome(row) == content_of(page@),
{
    let created = row_timestamp(page.created_time.as_str());
    let modified = row_timestamp(page.edited_time.as_str());
    content_at(page, created, modified)
}

/// The content row of a new article of a page that was created and last
/// edited at the given times.
///
/// Fails with `MissingField("Slug")` where the page names no slug, as the
/// search does where it fails, and then with `DateParseError` where one of the
/// times is missing.
pub fn content_at(page: &Page, created: Option<u32>, modified: Option<u32>) -> (row: Result<
    contents::Model,
    CommErr,
>)
    ensures
        outcome(row) == content_made(page@, created, modified),
{
    let slug = match first_pair(page, "Slug") {
        Ok(pair) => pair.0,
        Err(error) => {
            return Err(error);
        },
    };
    let created = match created {
        Some(created) => created,
        None => {
            return Err(CommErr::DateParseError);
        },
    };
    let modified = match modified {
        Some(modified) => modified,
        None => {
            return Err(CommErr::DateParseError);
        },
    };
    Ok(
        contents::Model {
            cid: 0,
            title: Some(page.title.clone()),
            slug: Some(slug),
            created,
            modified,
            text: mark(page.content.text.as_str()),
            author_id: 1,
            ctype: String::from_str("post"),
            status: String::from_str("publish"),
            allow_comment: String::from_str("1"),
            allow_ping: String::from_str("0"),
            allow_feed: String::from_str("1"),
        },
    )
}

/// Whether a content row exists, as the store's answer to the search for it
/// says. A failure of the store is handed on as `StorageError`, as is an
/// answer to another command.
pub fn is_exist(reply: &Reply) -> (exists: Result<bool, CommErr>)
    ensures
        outcome(exists) == match reply@ {
            ReplyView::Content(row) => Ok::<bool, Failure>(row is Some),
            ReplyView::Failed(message) => Err(Failure::StorageError(message)),
            _ => Err(Failure::StorageError(unexpected())),
        },
{
    match reply {
        Reply::Content(Some(_)) => Ok(true),
        Reply::Content(None) => Ok(false),
        Reply::Failed(message) => Err(CommErr::StorageError(message.clone())),
        _ => Err(CommErr::StorageError(String::from_str("unexpected reply"))),
    }
}

/// Begins the transaction that creates the article of a page: one content
/// row, a raised counter for each tag and for the category that the meta
/// table knows, and a meta row with a relationship row for each that it does
/// not know.
///
/// Nothing looks for an article of the same slug: called twice for one page,
/// it makes two content rows and raises each counter twice. Whoever calls it
/// asks [`is_exist`] first.
pub fn new_article(page: Page) -> (begun: (Transaction, Command))
    ensures
        (begun.0@, begun.1@) == TransactionView::create_article(page@, content_of(page@)),
{
    let row = content_row(&page);
    Transaction::creation(page, row)
}

/// Begins the transaction that updates the article of a page: title, time of
/// the last edit and body of the content row of the page's slug. Tags and
/// category stay as they are.
///
/// The slug is read from the property `"slug"`, in lower case, where
/// [`new_article`] reads `"Slug"`.
pub fn update_article(page: Page) -> (begun: (Transaction, Command))
    ensures
        (begun.0@, begun.1@) == TransactionView::revise_article(
            page@,
            row_time(page@.edited_time),
        ),
{
    let modified = row_timestamp(page.edited_time.as_str());
    Transaction::revision(page, modified)
}

impl Transaction {
    /// Begins the creation of the article of a page whose content row is
    /// given: the row is inserted first. Where there is no row, the
    /// transaction ends at once with the failure that stands for it.
    pub fn creation(page: Page, row: Result<contents::Model, CommErr>) -> (begun: (
        Transaction,
        Command,
    ))
        ensures
            (begun.0@, begun.1@) == TransactionView::create_article(page@, outcome(row)),
    {
        let transaction = Transaction {
            page,
            stage: Stage::Content,
            modified: None,
            cid: 0,
            items: Vec::new(),
            categorised: false,
            missing: Vec::new(),
        };
        assert(transaction@.items =~= Seq::empty());
        assert(transaction@.missing =~= Seq::empty());
        match row {
            Ok(row) => (transaction, Command::InsertContent(row)),
            Err(error) => transaction.abort(error),
        }
    }

    /// Begins the update of the article of a page that was last edited at
    /// the given time: the content row of the page's slug is looked for
    /// first. A time that is missing fails the update once the row is found.
    pub fn revision(page: Page, modified: Option<u32>) -> (begun: (Transaction, Command))
        ensures
            (begun.0@, begun.1@) == TransactionView::revise_article(page@, modified),
    {
        let slug = first_pair(&page, "slug");
        let transaction = Transaction {
            page,
            stage: Stage::Find,
            modified,
            cid: 0,
            items: Vec::new(),
            categorised: false,
            missing: Vec::new(),
        };
        assert(transaction@.items =~= Seq::empty());
        assert(transaction@.missing =~= Seq::empty());
        match slug {
            Ok(pair) => (transaction, Command::FindContent(pair.0)),
            Err(error) => transaction.abort(error),
        }
    }

    /// The value of a transaction is bounded as the laws of its steps ask.
    pub proof fn lemma_bounded(self)
        ensures
            self@.bounded(),
    {
        assert(self@.items.len() == self.items.len());
        assert(self@.missing.len() == self.missing.len());
    }

    /// Whether the transaction is over.
    pub fn finished(&self) -> (over: bool)
        ensures
            over == (self@.stage is Finished),
    {
        match self.stage {
            Stage::Finished => true,
            _ => false,
        }
    }

    /// Ends the transaction by a rollback.
    fn abort(self, error: CommErr) -> (ended: (Transaction, Command))
        ensures
            (ended.0@, ended.1@) == self@.abort(error@),
    {
        let mut ended = self;
        ended.stage = Stage::Finished;
        (ended, Command::Rollback(error))
    }

    /// Ends the transaction by a rollback on an answer that does not fit.
    fn refuse(self) -> (ended: (Transaction, Command))
        ensures
            (ended.0@, ended.1@) == self@.abort(Failure::StorageError(unexpected())),
    {
        self.abort(CommErr::StorageError(String::from_str("unexpected reply")))
    }

    /// Goes on with the item at place `i`.
    fn seek(self, i: usize) -> (next: (Transaction, Command))
        ensures
            (next.0@, next.1@) == self@.seek(i),
    {
        let mut next = self;
        if i < next.items.len() {
            next.stage = Stage::Lookup(i);
            let name = next.items[i].name.clone();
            (next, Command::FindMeta(name))
        } else if !next.categorised {
            match first_pair(&next.page, "Category") {
                Err(error) => next.abort(error),
                Ok(pair) => {
                    let name = pair.0.clone();
                    let ghost before = next.items@;
                    next.items.push(
                        MetaDraft { name: pair.0, slug: pair.1, kind: MetaKind::Category },
                    );
                    assert(drafts_view(next.items@) =~= drafts_view(before).push(
                        MetaDraftView { name: pair.0@, slug: pair.1@, kind: MetaKind::Category },
                    ));
                    next.categorised = true;
                    next.stage = Stage::Lookup(i);
                    (next, Command::FindMeta(name))
                },
            }
        } else {
            next.create(0)
        }
    }

    /// Goes on with the missing item at place `j`.
    fn create(self, j: usize) -> (next: (Transaction, Command))
        ensures
            (next.0@, next.1@) == self@.create(j),
    {
        let mut next = self;
        if j < next.missing.len() {
            next.stage = Stage::Meta(j);
            let row = next.missing[j].row();
            (next, Command::InsertMeta(row))
        } else {
            next.stage = Stage::Finished;
            (next, Command::Commit)
        }
    }

    /// Takes in the store's answer to the last command and says what to do
    /// next. The driver performs each command and hands back its answer, until
    /// the command is `Commit` or `Rollback`.
    pub fn step(self, reply: Reply) -> (next: (Transaction, Command))
        ensures
            (next.0@, next.1@) == self@.next(reply@),
    {
        let mut state = self;
        match state.stage {
            Stage::Finished => state.refuse(),
            stage => match reply {
                Reply::Failed(message) => state.abort(CommErr::StorageError(message)),
                Reply::Inserted(key) => match stage {
                    Stage::Content => match state.page.search_property("Tag") {
                        Err(error) => state.abort(error),
                        Ok(pairs) => {
                            state.cid = key;
                            state.items = tag_drafts(pairs);
                            state.seek(0)
                        },
                    },
                    Stage::Meta(j) => {
                        state.stage = Stage::Relationship(j);
                        let row = relationships::Model { cid: state.cid, mid: key };
                        (state, Command::InsertRelationship(row))
                    },
                    _ => state.refuse(),
                },
                Reply::Meta(found) => match stage {
                    Stage::Lookup(i) => {
                        if i < state.items.len() {
                            match found {
                                Some(row) => {
                                    if row.count < u32::MAX {
                                        let mut row = row;
                                        row.count = row.count + 1;
                                        state.stage = Stage::Count(i);
                                        (state, Command::UpdateMeta(row))
                                    } else {
                                        state.abort(
                                            CommErr::StorageError(
                                                String::from_str("counter overflow"),
                                            ),
                                        )
                                    }
                                },
                                None => {
                                    let draft = state.items[i].duplicate();
                                    let ghost before = state.missing@;
                                    state.missing.push(draft);
                                    assert(drafts_view(state.missing@) =~= drafts_view(
                                        before,
                                    ).push(draft@));
                                    state.seek(i + 1)
                                },
                            }
                        } else {
                            state.refuse()
                        }
                    },
                    _ => state.refuse(),
                },
                Reply::Done => match stage {
                    Stage::Count(i) => {
                        if i < state.items.len() {
                            state.seek(i + 1)
                        } else {
                            state.refuse()
                        }
                    },
                    Stage::Relationship(j) => {
                        if j < state.missing.len() {
                            state.create(j + 1)
                        } else {
                            state.refuse()
                        }
                    },
                    Stage::Write => {
                        state.stage = Stage::Finished;
                        (state, Command::Commit)
                    },
                    _ => state.refuse(),
                },
                Reply::Content(found) => match stage {
                    Stage::Find => match found {
                        None => state.abort(CommErr::PageNotFound),
                        Some(row) => match state.modified {
                            None => state.abort(CommErr::DateParseError),
                            Some(modified) => {
                                let mut row = row;
                                row.title = Some(state.page.title.clone());
                                row.modified = modified;
                                row.text = mark(state.page.content.text.as_str());
                                state.stage = Stage::Write;
                                (state, Command::UpdateContent(row))
                            },
                        },
                    },
                    _ => state.refuse(),
                },
            },
        }
    }
}

impl TransactionView {
    /// The lookups that are still to be answered from place `i` on, the
    /// category counted where it is not yet among the items.
    pub open spec fn lookups_from(self, i: usize) -> nat {
        let all = self.items.len() + if self.categorised {
            0nat
        } else {
            1nat
        };
        if i < all {
            (all - i) as nat
        } else {
            0
        }
    }

    /// The insertions that are still to be answered from place `j` on.
    pub open spec fn inserts_from(self, j: usize) -> nat {
        if j < self.missing.len() {
            (self.missing.len() - j) as nat
        } else {
            0
        }
    }

    /// What holds of the value of every [`Transaction`]: its lists are no
    /// longer than a list in memory can be.
    pub open spec fn bounded(self) -> bool {
        self.items.len() <= usize::MAX && self.missing.len() <= usize::MAX
    }

    /// A bound on the commands that the transaction will still give.
    pub open spec fn remaining(self) -> nat {
        match self.stage {
            Stage::Finished => 0,
            Stage::Write => 1,
            Stage::Find => 2,
            Stage::Relationship(j) => 2 * self.inserts_from(j) + 1,
            Stage::Meta(j) => 2 * self.inserts_from(j) + 2,
            Stage::Count(i) => 4 * self.lookups_from(i) + 2 * self.missing.len() + 3,
            Stage::Lookup(i) => 4 * self.lookups_from(i) + 2 * self.missing.len() + 4,
            Stage::Content => match found(self.page.properties, "Tag"@) {
                Ok(pairs) => 4 * (pairs.len() + 1) + 2 * self.missing.len() + 5,
                Err(_) => 1,
            },
        }
    }
}

/// Every transaction ends: a step either gives the command that ends the
/// transaction, and leaves it finished, or lowers the bound on the commands
/// that are still to come.
pub proof fn lemma_step_progress(state: TransactionView, reply: ReplyView)
    requires
        state.bounded(),
    ensures
        state.next(reply).1.ends() <==> state.next(reply).0.stage is Finished,
        !state.next(reply).1.ends() ==> state.next(reply).0.remaining() < state.remaining(),
{
    let after = state.next(reply).0;
    match (state.stage, reply) {
        (Stage::Content, ReplyView::Inserted(cid)) => {
            match found(state.page.properties, "Tag"@) {
                Ok(pairs) => {
                    let taken = TransactionView { cid, items: tags_of(pairs), ..state };
                    assert(taken.items.len() == pairs.len());
                    lemma_seek_bound(taken, 0);
                },
                Err(_) => {},
            }
        },
        (Stage::Lookup(i), ReplyView::Meta(None)) => {
            if i < state.items.len() {
                let noted = TransactionView {
                    missing: state.missing.push(state.items[i as int]),
                    ..state
                };
                lemma_seek_bound(noted, (i + 1) as usize);
            }
        },
        (Stage::Count(i), ReplyView::Done) => {
            if i < state.items.len() {
                lemma_seek_bound(state, (i + 1) as usize);
            }
        },
        _ => {},
    }
}

/// What is still to come after a move to the item at place `i` is bounded by
/// the lookups from there on and the insertions that can follow them.
proof fn lemma_seek_bound(state: TransactionView, i: usize)
    requires
        i <= state.items.len(),
    ensures
        state.seek(i).1.ends() <==> state.seek(i).0.stage is Finished,
        state.seek(i).0.remaining() <= 4 * state.lookups_from(i) + 2 * state.missing.len() + 4,
        i == state.items.len() && state.categorised ==> state.seek(i).0.remaining() <= 2
            * state.missing.len() + 2,
{
}

impl Stage {
    /// Whether a transaction at this stage creates an article.
    pub open spec fn creates(self) -> bool {
        self is Content || self is Lookup || self is Count || self is Meta || self is Relationship
    }

    /// Whether a transaction at this stage updates an article.
    pub open spec fn revises(self) -> bool {
        self is Find || self is Write
    }
}

impl TransactionView {
    /// Whether the place that the stage names lies in its list, and the
    /// category is among the items once the insertions have begun.
    pub open spec fn consistent(self) -> bool {
        match self.stage {
            Stage::Lookup(i) => i < self.items.len(),
            Stage::Count(i) => i < self.items.len(),
            Stage::Meta(j) => j < self.missing.len() && self.categorised,
            Stage::Relationship(j) => j < self.missing.len() && self.categorised,
            _ => true,
        }
    }
}

/// A transaction is consistent from its first command on, and every step
/// keeps it so.
pub proof fn lemma_steps_keep_consistent(
    page: PageView,
    row: Result<ContentRow, Failure>,
    modified: Option<u32>,
    state: TransactionView,
    reply: ReplyView,
)
    requires
        state.bounded(),
        state.consistent(),
    ensures
        TransactionView::create_article(page, row).0.consistent(),
        TransactionView::revise_article(page, modified).0.consistent(),
        state.next(reply).0.consistent(),
{
}

/// The creation of an article never looks at the content table: it inserts
/// one content row as its first command, whatever the table holds, and gives
/// no other command on content rows.
pub proof fn lemma_creation_never_reads_content(
    page: PageView,
    row: Result<ContentRow, Failure>,
    state: TransactionView,
    reply: ReplyView,
)
    requires
        state.stage.creates(),
    ensures
        ({
            let (begun, first) = TransactionView::create_article(page, row);
            &&& first is InsertContent || first is Rollback
            &&& begun.stage.creates() || begun.stage is Finished
        }),
        ({
            let (after, command) = state.next(reply);
            &&& after.stage.creates() || after.stage is Finished
            &&& !(command is FindContent) && !(command is InsertContent) && !(command
                is UpdateContent)
        }),
{
}

/// The update of an article leaves tags and categories as they are: it gives
/// no command on meta rows or relationship rows, and inserts no content row.
pub proof fn lemma_update_leaves_metas(
    page: PageView,
    modified: Option<u32>,
    state: TransactionView,
    reply: ReplyView,
)
    requires
        state.stage.revises(),
    ensures
        ({
            let (begun, first) = TransactionView::revise_article(page, modified);
            &&& first is FindContent || first is Rollback
            &&& begun.stage.revises() || begun.stage is Finished
        }),
        ({
            let (after, command) = state.next(reply);
            &&& after.stage.revises() || after.stage is Finished
            &&& command is UpdateContent || command.ends()
        }),
{
}

/// The lookups of a transaction come before its insertions: once the first
/// missing tag or category is being inserted, no meta row is looked for or
/// raised any more.
pub proof fn lemma_lookups_before_inserts(state: TransactionView, reply: ReplyView)
    requires
        state.stage is Meta || state.stage is Relationship,
    ensures
        ({
            let (after, command) = state.next(reply);
            &&& after.stage is Meta || after.stage is Relationship || after.stage is Finished
            &&& command is InsertMeta || command is InsertRelationship || command.ends()
        }),
{
}

/// An update of a page whose slug no content row carries writes nothing: the
/// search for the row is the only command before the rollback, which reports
/// `PageNotFound`.
pub proof fn lemma_update_of_absent_page(page: PageView, modified: Option<u32>)
    ensures
        ({
            let (begun, command) = TransactionView::revise_article(page, modified);
            &&& !command.writes()
            &&& command is FindContent ==> begun.next(ReplyView::Content(None)) == begun.abort(
                Failure::PageNotFound,
            )
            &&& !begun.abort(Failure::PageNotFound).1.writes()
        }),
{
}

} // verus!
