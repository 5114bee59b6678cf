use vstd::prelude::*;

verus! {

/// A row of the content table.
#[derive(Clone, Debug, PartialEq, Eq)]
pub struct Model {
    /// The key, which the store generates.
    pub cid: u32,
    pub title: Option<String>,
    pub slug: Option<String>,
    /// When the content was created, in seconds of UNIX time.
    pub created: u32,
    /// When the content was last modified, in seconds of UNIX time.
    pub modified: u32,
    pub text: String,
    pub author_id: u32,
    pub ctype: String,
    pub status: String,
    pub allow_comment: String,
    pub allow_ping: String,
    pub allow_feed: String,
}

/// The mathematical value of a content row.
pub struct ContentRow {
    pub cid: u32,
    pub title: Option<Seq<char>>,
    pub slug: Option<Seq<char>>,
    pub created: u32,
    pub modified: u32,
    pub text: Seq<char>,
    pub author_id: u32,
    pub ctype: Seq<char>,
    pub status: Seq<char>,
    pub allow_comment: Seq<char>,
    pub allow_ping: Seq<char>,
    pub allow_feed: Seq<char>,
}

/// The mathematical value of a string that may be absent.
pub open spec fn optional_text(text: Option<String>) -> Option<Seq<char>> {
    match text {
        Some(text) => Some(text@),
        None => None,
    }
}

impl View for Model {
    type V = ContentRow;

    open spec fn view(&self) -> ContentRow {
        ContentRow {
            cid: self.cid,
            title: optional_text(self.title),
            slug: optional_text(self.slug),
            created: self.created,
            modified: self.modified,
            text: self.text@,
            author_id: self.author_id,
            ctype: self.ctype@,
            status: self.status@,
            allow_comment: self.allow_comment@,
            allow_ping: self.allow_ping@,
            allow_feed: self.allow_feed@,
        }
    }
}

} // verus!
