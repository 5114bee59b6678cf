use vstd::prelude::*;

verus! {

/// A row of the relationship table: the content `cid` carries the meta `mid`.
#[derive(Clone, Copy, Debug, PartialEq, Eq, Structural)]
pub struct Model {
    pub cid: u32,
    pub mid: u32,
}

impl Default for Model {
    /// The row of two zero keys.
    fn default() -> (row: Model)
        ensures
            row == (Model { cid: 0, mid: 0 }),
    {
        Model { cid: 0, mid: 0 }
    }
}

} // verus!
