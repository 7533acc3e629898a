//! What can go wrong, and how it is told.
use vstd::prelude::*;

pub mod fallback;
pub mod xcb_errors;

verus! {

/// Something that the X server lacks.
#[derive(Debug)]
pub struct Unsupported(pub String);

impl Unsupported {
    /// The error in words.
    pub fn message(&self) -> (r: String)
        ensures
            r@ == "Unsupported: "@ + self.0@,
    {
        String::from_str("Unsupported: ").concat(self.0.as_str())
    }
}

/// Why a request to the server failed, each with the words of the layer below.
#[derive(Debug)]
pub enum ReplyError {
    /// The connection is broken.
    ConnectionError(String),
    /// The server refused the request.
    X11Error(String),
    /// There are no numbers for resources left.
    IdsExhausted(String),
}

/// Everything that ends the program, each with the words of the layer below.
#[derive(Debug)]
pub enum Error {
    X11(String),
    Connection(String),
    ReplyOrId(ReplyError),
    Reply(ReplyError),
    Unsupported(Unsupported),
    Error(String),
}

/// How the words of a broken connection are told.
pub open spec fn connection_text(words: Seq<char>) -> Seq<char> {
    "X11 connection "@ + words
}

impl Error {
    /// The error in words.
    pub open spec fn text(self) -> Seq<char> {
        match self {
            Error::Error(words) => words@,
            Error::Connection(words) => connection_text(words@),
            Error::Reply(ReplyError::ConnectionError(words)) => connection_text(words@),
            Error::ReplyOrId(ReplyError::ConnectionError(words)) => connection_text(words@),
            Error::Reply(ReplyError::X11Error(words)) => words@,
            Error::ReplyOrId(ReplyError::X11Error(words)) => words@,
            Error::Reply(ReplyError::IdsExhausted(words)) => words@,
            Error::ReplyOrId(ReplyError::IdsExhausted(words)) => words@,
            Error::X11(words) => words@,
            Error::Unsupported(what) => "Unsupported: "@ + what.0@,
        }
    }

    /// The error in words.
    pub fn message(&self) -> (r: String)
        ensures
            r@ == self.text(),
    {
        match self {
            Error::Error(words) => words.clone(),
            Error::Connection(words)
            | Error::Reply(ReplyError::ConnectionError(words))
            | Error::ReplyOrId(ReplyError::ConnectionError(words)) => String::from_str(
                "X11 connection ",
            ).concat(words.as_str()),
            Error::Reply(ReplyError::X11Error(words))
            | Error::ReplyOrId(ReplyError::X11Error(words))
            | Error::Reply(ReplyError::IdsExhausted(words))
            | Error::ReplyOrId(ReplyError::IdsExhausted(words)) => words.clone(),
            Error::X11(words) => words.clone(),
            Error::Unsupported(what) => what.message(),
        }
    }
}

/// Tells in which context a request failed. That there are no numbers left cannot be told.
pub fn map_xerr(err: ReplyError) -> (r: String)
    requires
        err !is IdsExhausted,
    ensures
        r@ == (match err {
            ReplyError::ConnectionError(words) => "X11 connection: "@ + words@,
            ReplyError::X11Error(words) => "X11: "@ + words@,
            ReplyError::IdsExhausted(_) => Seq::<char>::empty(),
        }),
{
    match err {
        ReplyError::ConnectionError(words) => String::from_str("X11 connection: ").concat(
            words.as_str(),
        ),
        ReplyError::X11Error(words) => String::from_str("X11: ").concat(words.as_str()),
        ReplyError::IdsExhausted(_) => String::new(),
    }
}

/// What the layer below says is told as it is, whatever request it came from; that the
/// connection is broken, or that something is not supported, is said before it.
pub proof fn lemma_errors_in_words(words: String)
    ensures
        Error::Error(words).text() == words@,
        Error::X11(words).text() == words@,
        Error::Reply(ReplyError::X11Error(words)).text() == words@,
        Error::ReplyOrId(ReplyError::X11Error(words)).text() == words@,
        Error::Reply(ReplyError::IdsExhausted(words)).text() == words@,
        Error::ReplyOrId(ReplyError::IdsExhausted(words)).text() == words@,
        Error::Connection(words).text() == "X11 connection "@ + words@,
        Error::Reply(ReplyError::ConnectionError(words)).text() == Error::Connection(words).text(),
        Error::ReplyOrId(ReplyError::ConnectionError(words)).text() == Error::Connection(
            words,
        ).text(),
        Error::Unsupported(Unsupported(words)).text() == "Unsupported: "@ + words@,
{
}

} // verus!
