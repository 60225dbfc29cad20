//! The closed set of failures that the library reports.

use vstd::prelude::*;

verus! {

/// The encoding whose input was malformed.
#[derive(Debug, Clone, Copy, PartialEq, Eq, Structural)]
pub enum Encoding {
    /// A JSON document.
    Json,
    /// A PEM-encoded private key.
    Pem,
    /// URL-safe base64 text.
    Base64,
}

/// A failure of one of the library's operations.
#[derive(Debug, Clone, PartialEq, Eq)]
pub enum Error {
    /// Every attempt of a call ended in a transient failure; the status and
    /// body are those of the last attempt.
    Network { status: u16, body: String },
    /// The authority rejected the request with a status that a retry cannot
    /// mend.
    TerminalCall { status: u16, body: String },
    /// A response lacked a header or a member that the protocol requires.
    MissingField { name: String },
    /// Input in the named encoding was malformed.
    Decode { encoding: Encoding },
    /// The external store failed; the message is the store's own.
    Persistence { message: String },
}

/// The mathematical value of an [`Error`].
pub enum ErrorView {
    Network { status: u16, body: Seq<char> },
    TerminalCall { status: u16, body: Seq<char> },
    MissingField { name: Seq<char> },
    Decode { encoding: Encoding },
    Persistence { message: Seq<char> },
}

impl View for Error {
    type V = ErrorView;

    open spec fn view(&self) -> ErrorView {
        match self {
            Error::Network { status, body } => ErrorView::Network { status: *status, body: body@ },
            Error::TerminalCall { status, body } => ErrorView::TerminalCall {
                status: *status,
                body: body@,
            },
            Error::MissingField { name } => ErrorView::MissingField { name: name@ },
            Error::Decode { encoding } => ErrorView::Decode { encoding: *encoding },
            Error::Persistence { message } => ErrorView::Persistence { message: message@ },
        }
    }
}

} // verus!
