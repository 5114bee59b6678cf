use vstd::prelude::*;

verus! {

/// The HTTP method of a request to the remote API.
#[derive(Clone, Copy, Debug, PartialEq, Eq, Structural)]
pub enum RequestMethod {
    GET,
    POST,
}

} // verus!
