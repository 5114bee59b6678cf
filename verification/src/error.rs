use vstd::prelude::*;
use vstd::string::StringExecFns;

verus! {

/// What can go wrong while a page is extracted or synchronised.
#[derive(Clone, Debug, PartialEq, Eq)]
pub enum CommErr {
    /// A JSON node lacks the named field.
    MissingField(String),
    /// The named field is present but holds no string.
    NotAString(String),
    /// A type tag names none of the known property kinds.
    UnknownPropertyType(String),
    /// No content row carries the page's slug, or no further page exists.
    PageNotFound,
    /// A timestamp is not an RFC 3339 date-time.
    DateParseError,
    /// The transport failed; the message is the transport's own.
    TransportError(String),
    /// The relational store failed; the message says how.
    StorageError(String),
}

/// The mathematical value of a [`CommErr`]: the same cases over character sequences.
pub enum Failure {
    MissingField(Seq<char>),
    NotAString(Seq<char>),
    UnknownPropertyType(Seq<char>),
    PageNotFound,
    DateParseError,
    TransportError(Seq<char>),
    StorageError(Seq<char>),
}

impl View for CommErr {
    type V = Failure;

    open spec fn view(&self) -> Failure {
        match self {
            CommErr::MissingField(name) => Failure::MissingField(name@),
            CommErr::NotAString(name) => Failure::NotAString(name@),
            CommErr::UnknownPropertyType(tag) => Failure::UnknownPropertyType(tag@),
            CommErr::PageNotFound => Failure::PageNotFound,
            CommErr::DateParseError => Failure::DateParseError,
            CommErr::TransportError(message) => Failure::TransportError(message@),
            CommErr::StorageError(message) => Failure::StorageError(message@),
        }
    }
}

impl Failure {
    /// The failure in words.
    pub open spec fn message(self) -> Seq<char> {
        match self {
            Failure::MissingField(name) => "missing field: "@ + name,
            Failure::NotAString(name) => "not a string: "@ + name,
            Failure::UnknownPropertyType(tag) => "unknown property type: "@ + tag,
            Failure::PageNotFound => "page do not exist"@,
            Failure::DateParseError => "date parse error"@,
            Failure::TransportError(message) => "transport error: "@ + message,
            Failure::StorageError(message) => "storage error: "@ + message,
        }
    }
}

impl CommErr {
    /// Writes the error in words.
    pub fn to_string(&self) -> (text: String)
        ensures
            text@ == self@.message(),
    {
        match self {
            CommErr::MissingField(name) => String::from_str("missing field: ").concat(
                name.as_str(),
            ),
            CommErr::NotAString(name) => String::from_str("not a string: ").concat(name.as_str()),
            CommErr::UnknownPropertyType(tag) => String::from_str(
                "unknown property type: ",
            ).concat(tag.as_str()),
            CommErr::PageNotFound => String::from_str("page do not exist"),
            CommErr::DateParseError => String::from_str("date parse error"),
            CommErr::TransportError(message) => String::from_str("transport error: ").concat(
                message.as_str(),
            ),
            CommErr::StorageError(message) => String::from_str("storage error: ").concat(
                message.as_str(),
            ),
        }
    }
}

/// The mathematical value of a result: that of what it holds, on either side.
pub open spec fn outcome<T: View>(result: Result<T, CommErr>) -> Result<T::V, Failure> {
    match result {
        Ok(value) => Ok(value@),
        Err(error) => Err(error@),
    }
}

} // verus!
