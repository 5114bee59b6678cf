use vstd::prelude::*;

verus! {

/// The body of a page, rendered to text.
#[derive(Clone, Debug, PartialEq, Eq)]
pub struct Block {
    pub text: String,
}

impl View for Block {
    type V = Seq<char>;

    open spec fn view(&self) -> Seq<char> {
        self.text@
    }
}

impl Default for Block {
    /// The body of a page that was never fetched: empty.
    fn default() -> (empty: Block)
        ensures
            empty@ == Seq::<char>::empty(),
    {
        Block { text: String::new() }
    }
}

impl Block {
    /// A body with the given rendered text.
    pub fn new(text: String) -> (made: Block)
        ensures
            made@ == text@,
    {
        Block { text }
    }

    /// The rendered text.
    pub fn to_string(&self) -> (text: String)
        ensures
            text@ == self@,
    {
        self.text.clone()
    }
}

} // verus!
