use crate::entity::contents::optional_text;
use vstd::prelude::*;

verus! {

/// A row of the meta table: a tag or a category, with the number of contents
/// that use it.
#[derive(Clone, Debug, PartialEq, Eq)]
pub struct Model {
    /// The key, which the store generates.
    pub mid: u32,
    pub name: Option<String>,
    pub slug: Option<String>,
    /// `tag` or `category`.
    pub mtype: Option<String>,
    pub count: u32,
    pub order: u32,
    pub parent: u32,
}

/// The mathematical value of a meta row.
pub struct MetaRow {
    pub mid: u32,
    pub name: Option<Seq<char>>,
    pub slug: Option<Seq<char>>,
    pub mtype: Option<Seq<char>>,
    pub count: u32,
    pub order: u32,
    pub parent: u32,
}

impl View for Model {
    type V = MetaRow;

    open spec fn view(&self) -> MetaRow {
        MetaRow {
            mid: self.mid,
            name: optional_text(self.name),
            slug: optional_text(self.slug),
            mtype: optional_text(self.mtype),
            count: self.count,
            order: self.order,
            parent: self.parent,
        }
    }
}

} // verus!
