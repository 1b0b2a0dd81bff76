//! The ways in which a command can fail.

use crate::text::{decimal, decimal_text};
use vstd::prelude::*;

verus! {

/// Why an operation failed.
#[derive(Debug, PartialEq, Eq)]
pub enum Error {
    /// The home directory cannot be determined.
    Environment,
    /// A file or the terminal could not be read or written; the system's description.
    Io(String),
    /// The stored token is not the JSON that is expected; the parser's description.
    Format(String),
    /// No token has been stored yet.
    NotAuthenticated,
    /// The provider did not answer, refused the request, or answered what cannot be
    /// understood. Where an answer came, `status` is its status and `detail` its body; where
    /// none came, `detail` is the transport's description.
    Api { status: Option<u16>, detail: String },
}

/// The mathematical value of an [`Error`].
pub enum ErrorView {
    Environment,
    Io(Seq<char>),
    Format(Seq<char>),
    NotAuthenticated,
    Api { status: Option<u16>, detail: Seq<char> },
}

impl View for Error {
    type V = ErrorView;

    open spec fn view(&self) -> ErrorView {
        match *self {
            Error::Environment => ErrorView::Environment,
            Error::Io(text) => ErrorView::Io(text@),
            Error::Format(text) => ErrorView::Format(text@),
            Error::NotAuthenticated => ErrorView::NotAuthenticated,
            Error::Api { status, detail } => ErrorView::Api { status, detail: detail@ },
        }
    }
}

/// The mathematical value of a result: that of what was gained, or that of the error.
pub open spec fn result_view<T: DeepView>(result: Result<T, Error>) -> Result<T::V, ErrorView> {
    match result {
        Ok(value) => Ok(value.deep_view()),
        Err(error) => Err(error@),
    }
}

/// Whether an HTTP status reports success.
pub open spec fn is_success(status: u16) -> bool {
    200 <= status < 300
}

/// The sentence that describes an error to the user.
pub open spec fn message_of(error: ErrorView) -> Seq<char> {
    match error {
        ErrorView::Environment => "Could not determine home directory"@,
        ErrorView::Io(text) => text,
        ErrorView::Format(text) => text,
        ErrorView::NotAuthenticated => "Token file not found. Please run 'femail auth' first."@,
        ErrorView::Api { status: None, detail } => "Gmail API request failed: "@ + detail,
        ErrorView::Api { status: Some(code), detail } => if is_success(code) {
            "Gmail API returned an unexpected response: "@ + detail
        } else {
            "Gmail API error (status "@ + decimal(code as nat) + "): "@ + detail
        },
    }
}

impl Error {
    /// The sentence that describes this error to the user.
    pub fn message(&self) -> (out: String)
        ensures
            out@ == message_of(self@),
    {
        match self {
            Error::Environment => String::from_str("Could not determine home directory"),
            Error::Io(text) => text.clone(),
            Error::Format(text) => text.clone(),
            Error::NotAuthenticated => String::from_str(
                "Token file not found. Please run 'femail auth' first.",
            ),
            Error::Api { status: None, detail } => {
                let mut out = String::from_str("Gmail API request failed: ");
                out.append(detail.as_str());
                out
            },
            Error::Api { status: Some(code), detail } => {
                if 200 <= *code && *code < 300 {
                    let mut out = String::from_str("Gmail API returned an unexpected response: ");
                    out.append(detail.as_str());
                    out
                } else {
                    let mut out = String::from_str("Gmail API error (status ");
                    out.append(decimal_text(*code).as_str());
                    out.append("): ");
                    out.append(detail.as_str());
                    out
                }
            },
        }
    }
}

} // verus!
