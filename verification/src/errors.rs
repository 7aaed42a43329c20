//! The error type shared by every fallible operation of the library.

use vstd::prelude::*;
use vstd::string::StringExecFns;

verus! {

/// An error of the client, tagged by the step that failed and carrying a
/// human-readable message.
#[derive(Debug)]
pub enum DesoError {
    /// A transaction of the named kind could not be sent.
    TransactionError(String, String),
    /// The HTTP transport failed or a response body could not be read.
    ReqwestError(String),
    /// The node reported that it rejected a transaction.
    DesoError(String),
    /// A response could not be decoded as the expected JSON record.
    JsonError(String, String),
    /// A temporary path could not be used.
    TempFileError(String),
    /// A payment could not be made.
    PaymentError(String),
    /// A profile could not be fetched.
    ProfileRequestError(String),
    /// A transaction could not be signed, or its signature index could not
    /// be obtained.
    SigningError(String),
    /// A required field of `DesoAccountBuilder` was missing.
    DesoAccountError(String),
    /// A required field of `SubmitPostDataBuilder` was missing.
    SubmitPostDataBuilderError(String),
}

/// The human-readable rendering of each error variant.
pub open spec fn message_spec(e: DesoError) -> Seq<char> {
    match e {
        DesoError::TransactionError(kind, detail) => "Problem Sending `"@ + kind@
            + "` Transaction: `"@ + detail@ + "`"@,
        DesoError::ReqwestError(detail) => "Reqwest parsing text error: `"@ + detail@ + "`"@,
        DesoError::DesoError(detail) => "Deso Transaction Error: `"@ + detail@ + "`"@,
        DesoError::JsonError(place, detail) => "Serde Json Error at `"@ + place@ + "`: `"@
            + detail@ + "`"@,
        DesoError::TempFileError(detail) => "Problem With Temp Path `"@ + detail@ + "`"@,
        DesoError::PaymentError(detail) => "Payment Error: `"@ + detail@ + "`"@,
        DesoError::ProfileRequestError(detail) => "Get Profile Error: `"@ + detail@ + "`"@,
        DesoError::SigningError(detail) => "Problem Getting Index: `"@ + detail@ + "`"@,
        DesoError::DesoAccountError(field) => "Deso Account Builder Error: missing `"@ + field@
            + "`"@,
        DesoError::SubmitPostDataBuilderError(field) => "Submit Post Data Builder Error: missing `"@
            + field@ + "`"@,
    }
}

impl DesoError {
    /// Renders the error as its human-readable message.
    pub fn message(&self) -> (r: String)
        ensures
            r@ == message_spec(*self),
    {
        match self {
            DesoError::TransactionError(kind, detail) => {
                let mut m = "Problem Sending `".to_owned();
                m.append(kind.as_str());
                m.append("` Transaction: `");
                m.append(detail.as_str());
                m.concat("`")
            },
            DesoError::ReqwestError(detail) => {
                let mut m = "Reqwest parsing text error: `".to_owned();
                m.append(detail.as_str());
                m.concat("`")
            },
            DesoError::DesoError(detail) => {
                let mut m = "Deso Transaction Error: `".to_owned();
                m.append(detail.as_str());
                m.concat("`")
            },
            DesoError::JsonError(place, detail) => {
                let mut m = "Serde Json Error at `".to_owned();
                m.append(place.as_str());
                m.append("`: `");
                m.append(detail.as_str());
                m.concat("`")
            },
            DesoError::TempFileError(detail) => {
                let mut m = "Problem With Temp Path `".to_owned();
                m.append(detail.as_str());
                m.concat("`")
            },
            DesoError::PaymentError(detail) => {
                let mut m = "Payment Error: `".to_owned();
                m.append(detail.as_str());
                m.concat("`")
            },
            DesoError::ProfileRequestError(detail) => {
                let mut m = "Get Profile Error: `".to_owned();
                m.append(detail.as_str());
                m.concat("`")
            },
            DesoError::SigningError(detail) => {
                let mut m = "Problem Getting Index: `".to_owned();
                m.append(detail.as_str());
                m.concat("`")
            },
            DesoError::DesoAccountError(field) => {
                let mut m = "Deso Account Builder Error: missing `".to_owned();
                m.append(field.as_str());
                m.concat("`")
            },
            DesoError::SubmitPostDataBuilderError(field) => {
                let mut m = "Submit Post Data Builder Error: missing `".to_owned();
                m.append(field.as_str());
                m.concat("`")
            },
        }
    }
}

} // verus!
