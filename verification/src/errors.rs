//! The error taxonomy. Every public operation returns either a fully
//! validated value or exactly one of these variants; nothing is logged and
//! swallowed, and no partial result is ever handed back.

use vstd::prelude::*;
use vstd::string::StringExecFns;

verus! {

/// One failure of a client operation.
///
/// The transport variants (`HttpError`, `IOError`) carry the rendered detail
/// of the underlying failure; they are produced by the surrounding
/// application, which performs the HTTP requests. The remaining variants are
/// produced by the library itself.
#[derive(Debug, PartialEq, Eq)]
pub enum SimpleResponseError {
    /// A requested coin or currency list was empty; rejected before any
    /// request is sent.
    EmptyInputError,
    /// A requested coin is absent from the decoded response; carries the
    /// offending identifier.
    UnknownCoinError(String),
    /// A requested currency is absent from the price map of a coin that was
    /// itself found; carries the offending identifier.
    UnknownCurrencyError(String),
    /// The HTTP layer failed: connection, timeout or non-success status.
    HttpError(String),
    /// An I/O failure below the HTTP layer.
    IOError(String),
    /// The response body was not valid JSON of the expected shape.
    DeserializationError(String),
}

impl SimpleResponseError {
    /// The human-readable rendering of `message`.
    pub open spec fn message_spec(&self) -> Seq<char> {
        match self {
            SimpleResponseError::EmptyInputError => "No data in input"@,
            SimpleResponseError::UnknownCoinError(c) => "No such coin found! (`"@ + c@ + "`)"@,
            SimpleResponseError::UnknownCurrencyError(c) => "No such currency found! (`"@ + c@
                + "`)"@,
            SimpleResponseError::HttpError(_) => "HTTP Error"@,
            SimpleResponseError::IOError(_) => "IO Error"@,
            SimpleResponseError::DeserializationError(_) => "Deserialization Error"@,
        }
    }

    /// One line describing the failure, naming the offending identifier for
    /// the unknown-coin and unknown-currency variants.
    pub fn message(&self) -> (r: String)
        ensures
            r@ == self.message_spec(),
    {
        match self {
            SimpleResponseError::EmptyInputError => String::from_str("No data in input"),
            SimpleResponseError::UnknownCoinError(c) => {
                let mut r = String::from_str("No such coin found! (`");
                r.append(c.as_str());
                r.append("`)");
                r
            },
            SimpleResponseError::UnknownCurrencyError(c) => {
                let mut r = String::from_str("No such currency found! (`");
                r.append(c.as_str());
                r.append("`)");
                r
            },
            SimpleResponseError::HttpError(_) => String::from_str("HTTP Error"),
            SimpleResponseError::IOError(_) => String::from_str("IO Error"),
            SimpleResponseError::DeserializationError(_) => String::from_str(
                "Deserialization Error",
            ),
        }
    }
}

} // verus!
