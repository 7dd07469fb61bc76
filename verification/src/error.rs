//! The errors of a protection request.
use vstd::prelude::*;
use vstd::string::*;

use crate::text::{debug_quote, debug_quoted, decimal, decimal_string};

verus! {

/// Why a protection request failed. No variant carries the API key or the
/// API password.
#[derive(Debug)]
pub enum Error {
    /// Neither the request nor the environment supplied both credentials.
    MissingCredentials,
    /// The request named no file.
    EmptyFiles,
    /// The request named a preset that does not exist (as given).
    UnknownPreset(String),
    /// The service answered with an error status; `snippet` holds at most
    /// the first 200 characters of the answer's body.
    Http { status: u16, snippet: String },
    /// The service could not be reached.
    Transport(String),
    /// The answer's body was not JSON.
    MalformedResponse(String),
    /// The service refused the request, or returned no protected file.
    Api { message: String, kind: Option<String>, code: Option<String> },
}

/// The mathematical model of an [`Error`].
pub enum ErrorView {
    MissingCredentials,
    EmptyFiles,
    UnknownPreset(Seq<char>),
    Http { status: u16, snippet: Seq<char> },
    Transport(Seq<char>),
    MalformedResponse(Seq<char>),
    Api { message: Seq<char>, kind: Option<Seq<char>>, code: Option<Seq<char>> },
}

/// The characters of an optional string.
pub open spec fn opt_view(s: Option<String>) -> Option<Seq<char>> {
    match s {
        Some(t) => Some(t@),
        None => None,
    }
}

impl Error {
    pub open spec fn view(&self) -> ErrorView {
        match self {
            Error::MissingCredentials => ErrorView::MissingCredentials,
            Error::EmptyFiles => ErrorView::EmptyFiles,
            Error::UnknownPreset(p) => ErrorView::UnknownPreset(p@),
            Error::Http { status, snippet } => ErrorView::Http { status: *status, snippet: snippet@ },
            Error::Transport(m) => ErrorView::Transport(m@),
            Error::MalformedResponse(m) => ErrorView::MalformedResponse(m@),
            Error::Api { message, kind, code } => ErrorView::Api {
                message: message@,
                kind: opt_view(*kind),
                code: opt_view(*code),
            },
        }
    }

    /// The human-readable description of the error.
    pub fn message(&self) -> (r: String)
        ensures
            r@ == self@.message(),
    {
        match self {
            Error::MissingCredentials => String::from_str(
                "JSO API credentials not configured. Set api_key/api_password or export JSO_API_KEY / JSO_API_PASSWORD.",
            ),
            Error::EmptyFiles => String::from_str("at least one file is required"),
            Error::UnknownPreset(p) => {
                let mut s = String::from_str("unknown preset ");
                let q = debug_quoted(p.as_str());
                s.append(q.as_str());
                s
            },
            Error::Http { status, snippet } => {
                let mut s = String::from_str("HTTP ");
                let d = decimal_string(*status);
                s.append(d.as_str());
                s.append(": ");
                s.append(snippet.as_str());
                s
            },
            Error::Transport(m) => {
                let mut s = String::from_str("connection failed: ");
                s.append(m.as_str());
                s
            },
            Error::MalformedResponse(m) => {
                let mut s = String::from_str("malformed JSON in response: ");
                s.append(m.as_str());
                s
            },
            Error::Api { message, .. } => message.clone(),
        }
    }
}

impl ErrorView {
    /// The text that describes the error.
    pub open spec fn message(self) -> Seq<char> {
        match self {
            ErrorView::MissingCredentials =>
                "JSO API credentials not configured. Set api_key/api_password or export JSO_API_KEY / JSO_API_PASSWORD."@,
            ErrorView::EmptyFiles => "at least one file is required"@,
            ErrorView::UnknownPreset(p) => "unknown preset "@ + debug_quote(p),
            ErrorView::Http { status, snippet } => "HTTP "@ + decimal(status as nat) + ": "@ + snippet,
            ErrorView::Transport(m) => "connection failed: "@ + m,
            ErrorView::MalformedResponse(m) => "malformed JSON in response: "@ + m,
            ErrorView::Api { message, .. } => message,
        }
    }
}

} // verus!
