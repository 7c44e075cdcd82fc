//! What can go wrong, and the sentence that reports it.

use vstd::prelude::*;
use vstd::string::StringExecFns;

verus! {

/// A failure of the notifier. Each payload is text: the input that was
/// refused, or what the failing component said.
#[derive(Debug, Clone)]
pub enum Error {
    /// The homeserver URL of the configuration is no URL.
    UrlError(String),
    /// The text given for the user to notify is no Matrix user id.
    UsernameErr(String),
    /// The attachment path names no file.
    MissingFilename,
    /// The attachment could not be opened or read.
    IoError(String),
    /// The configuration, or an event of a room, could not be deserialized.
    SerdeError(String),
    /// A request to the homeserver failed.
    RumaClient(String),
    /// A text is no Matrix identifier.
    IdParse(String),
    /// Logging in failed.
    HyperError(String),
}

/// Which failure it is, without its text.
#[derive(Clone, Copy, Debug, PartialEq, Eq, Structural)]
pub enum ErrorKind {
    UrlError,
    UsernameErr,
    MissingFilename,
    IoError,
    SerdeError,
    RumaClient,
    IdParse,
    HyperError,
}

/// The mathematical value of an [`Error`].
pub enum ErrorView {
    UrlError(Seq<char>),
    UsernameErr(Seq<char>),
    MissingFilename,
    IoError(Seq<char>),
    SerdeError(Seq<char>),
    RumaClient(Seq<char>),
    IdParse(Seq<char>),
    HyperError(Seq<char>),
}

impl View for Error {
    type V = ErrorView;

    open spec fn view(&self) -> ErrorView {
        match self {
            Error::UrlError(s) => ErrorView::UrlError(s@),
            Error::UsernameErr(s) => ErrorView::UsernameErr(s@),
            Error::MissingFilename => ErrorView::MissingFilename,
            Error::IoError(s) => ErrorView::IoError(s@),
            Error::SerdeError(s) => ErrorView::SerdeError(s@),
            Error::RumaClient(s) => ErrorView::RumaClient(s@),
            Error::IdParse(s) => ErrorView::IdParse(s@),
            Error::HyperError(s) => ErrorView::HyperError(s@),
        }
    }
}

impl ErrorView {
    /// Which failure it is.
    pub open spec fn kind(self) -> ErrorKind {
        match self {
            ErrorView::UrlError(_) => ErrorKind::UrlError,
            ErrorView::UsernameErr(_) => ErrorKind::UsernameErr,
            ErrorView::MissingFilename => ErrorKind::MissingFilename,
            ErrorView::IoError(_) => ErrorKind::IoError,
            ErrorView::SerdeError(_) => ErrorKind::SerdeError,
            ErrorView::RumaClient(_) => ErrorKind::RumaClient,
            ErrorView::IdParse(_) => ErrorKind::IdParse,
            ErrorView::HyperError(_) => ErrorKind::HyperError,
        }
    }

    /// The sentence that reports the failure: a fixed text, with the payload
    /// between backquotes where there is one to show.
    pub open spec fn text(self) -> Seq<char> {
        match self {
            ErrorView::UrlError(_) =>
                "Failed to parse a url from the provided homeserver url in the .config.json"@,
            ErrorView::UsernameErr(s) =>
                "Failed to parse a matrix user id from `"@ + s
                    + "`. Example user id: @username:matrix-org"@,
            ErrorView::MissingFilename =>
                "The provided attachment path was a directory, not a file"@,
            ErrorView::IoError(s) =>
                "Error opening the provided attachment path: `"@ + s + "`"@,
            ErrorView::SerdeError(s) => "Could not deserialize config file: `"@ + s + "`"@,
            ErrorView::RumaClient(s) => "Error with the client: `"@ + s + "`"@,
            ErrorView::IdParse(s) => "Could not parse the identifier: `"@ + s + "`"@,
            ErrorView::HyperError(s) => "There was a hyper error: `"@ + s + "`"@,
        }
    }
}

/// `before`, then `shown`, then `after`.
fn framed(before: &str, shown: &String, after: &str) -> (text: String)
    ensures
        text@ == before@ + shown@ + after@,
{
    String::from_str(before).concat(shown.as_str()).concat(after)
}

impl Error {
    /// Which failure this is.
    pub fn kind(&self) -> (kind: ErrorKind)
        ensures
            kind == self@.kind(),
    {
        match self {
            Error::UrlError(_) => ErrorKind::UrlError,
            Error::UsernameErr(_) => ErrorKind::UsernameErr,
            Error::MissingFilename => ErrorKind::MissingFilename,
            Error::IoError(_) => ErrorKind::IoError,
            Error::SerdeError(_) => ErrorKind::SerdeError,
            Error::RumaClient(_) => ErrorKind::RumaClient,
            Error::IdParse(_) => ErrorKind::IdParse,
            Error::HyperError(_) => ErrorKind::HyperError,
        }
    }

    /// The sentence that reports this failure.
    pub fn message(&self) -> (text: String)
        ensures
            text@ == self@.text(),
    {
        match self {
            Error::UrlError(_) => String::from_str(
                "Failed to parse a url from the provided homeserver url in the .config.json",
            ),
            Error::UsernameErr(s) => framed(
                "Failed to parse a matrix user id from `",
                s,
                "`. Example user id: @username:matrix-org",
            ),
            Error::MissingFilename => String::from_str(
                "The provided attachment path was a directory, not a file",
            ),
            Error::IoError(s) => framed("Error opening the provided attachment path: `", s, "`"),
            Error::SerdeError(s) => framed("Could not deserialize config file: `", s, "`"),
            Error::RumaClient(s) => framed("Error with the client: `", s, "`"),
            Error::IdParse(s) => framed("Could not parse the identifier: `", s, "`"),
            Error::HyperError(s) => framed("There was a hyper error: `", s, "`"),
        }
    }
}

} // verus!
