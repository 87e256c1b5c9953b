//! What can go wrong while serving a search, and how it is reported.
use vstd::prelude::*;
use vstd::string::*;

verus! {

/// A failure of the search service.
#[derive(Debug)]
pub enum Error {
    /// The storage engine failed; the text is its own account.
    Database(String),
    /// Reading or writing failed; the text is the system's account.
    Io(String),
    /// The request asks for more messages than one search returns.
    TooManyMessages,
}

/// The text of [`Error::TooManyMessages`].
pub open spec fn too_many_text() -> Seq<char> {
    "too many messages requested; 1000000 is the maximum. try making your request more specific"@
}

impl Error {
    /// The HTTP status that reports this failure: 400 for a request that is
    /// refused, 500 for a failure of storage or I/O.
    pub open spec fn status(&self) -> u16 {
        match self {
            Error::Database(_) => 500,
            Error::Io(_) => 500,
            Error::TooManyMessages => 400,
        }
    }

    /// The message sent to the client.
    pub open spec fn client_text(&self) -> Seq<char> {
        match self {
            Error::Database(e) => e@,
            Error::Io(e) => e@,
            Error::TooManyMessages => too_many_text(),
        }
    }

    /// The failure in words, with its kind in front.
    pub open spec fn description(&self) -> Seq<char> {
        match self {
            Error::Database(e) => "database error: "@ + e@,
            Error::Io(e) => "io error: "@ + e@,
            Error::TooManyMessages => too_many_text(),
        }
    }

    /// The HTTP status that reports this failure.
    pub fn status_code(&self) -> (r: u16)
        ensures
            r == self.status(),
    {
        match self {
            Error::Database(_) => 500,
            Error::Io(_) => 500,
            Error::TooManyMessages => 400,
        }
    }

    /// The message sent to the client.
    pub fn client_message(&self) -> (r: String)
        ensures
            r@ == self.client_text(),
    {
        match self {
            Error::Database(e) => e.clone(),
            Error::Io(e) => e.clone(),
            Error::TooManyMessages =>
                "too many messages requested; 1000000 is the maximum. try making your request more specific".to_owned(),
        }
    }

    /// The failure in words, with its kind in front.
    pub fn describe(&self) -> (r: String)
        ensures
            r@ == self.description(),
    {
        match self {
            Error::Database(e) => {
                let mut text = "database error: ".to_owned();
                text.append(e.as_str());
                text
            },
            Error::Io(e) => {
                let mut text = "io error: ".to_owned();
                text.append(e.as_str());
                text
            },
            Error::TooManyMessages =>
                "too many messages requested; 1000000 is the maximum. try making your request more specific".to_owned(),
        }
    }

    /// The status and the message of the response that reports this failure.
    pub fn into_response(self) -> (r: (u16, String))
        ensures
            r.0 == self.status(),
            r.1@ == self.client_text(),
    {
        let status = self.status_code();
        let text = self.client_message();
        (status, text)
    }
}

} // verus!
