use vstd::prelude::*;

verus! {

/// Why a clipboard call failed, uniform across backends. Backend-native
/// error types never cross this boundary: each is rendered as its message
/// and wrapped in the variant that names the stage that failed.
#[derive(Debug, PartialEq, Eq)]
pub enum Error {
    /// The display handle did not yield a usable discriminant.
    HandleExtraction(String),
    /// The chosen backend could not establish a session.
    Connection(String),
    /// A read or write failed after the session was established.
    Operation(String),
}

impl Error {
    /// The message the failing backend reported.
    pub open spec fn spec_message(&self) -> Seq<char> {
        match self {
            Error::HandleExtraction(m) => m@,
            Error::Connection(m) => m@,
            Error::Operation(m) => m@,
        }
    }

    pub fn is_handle_extraction(&self) -> (b: bool)
        ensures
            b == (self is HandleExtraction),
    {
        match self {
            Error::HandleExtraction(_) => true,
            _ => false,
        }
    }

    pub fn is_connection(&self) -> (b: bool)
        ensures
            b == (self is Connection),
    {
        match self {
            Error::Connection(_) => true,
            _ => false,
        }
    }

    pub fn is_operation(&self) -> (b: bool)
        ensures
            b == (self is Operation),
    {
        match self {
            Error::Operation(_) => true,
            _ => false,
        }
    }

    /// The message the failing backend reported.
    pub fn message(&self) -> (m: &String)
        ensures
            m@ == self.spec_message(),
    {
        match self {
            Error::HandleExtraction(m) => m,
            Error::Connection(m) => m,
            Error::Operation(m) => m,
        }
    }
}

} // verus!
