use vstd::prelude::*;

verus! {

/// Why an operation of the client stopped short of its goal.
///
/// Every fallible operation of this crate reports exactly one of these; no
/// error is swallowed and none triggers an automatic retry.
#[derive(Debug, Clone, PartialEq, Eq)]
pub enum CliError {
    /// The account service answered with a non-success status or the
    /// transport failed; the payload carries the cause verbatim.
    RemoteServiceError(String),
    /// A secret was too short to redact safely (fewer than ten characters).
    InvalidSecretLength,
    /// A secret held a `/` or a control character and cannot stand in a URL
    /// path segment.
    InvalidSecretEncoding,
    /// The user cancelled the key-selection prompt.
    SelectionAborted,
    /// The user declined the deletion confirmation.
    DeletionAborted,
    /// Deletion was requested while the account holds no keys.
    NoKeysFound,
    /// The system clipboard could not be reached; no secret was exposed.
    ClipboardUnavailable,
    /// A chain was requested by an index outside the catalog.
    InvalidChainIndex,
}

impl CliError {
    /// The human-readable message reported for this error.
    pub open spec fn spec_message(self) -> Seq<char> {
        match self {
            CliError::RemoteServiceError(cause) => "remote service error: "@ + cause@,
            CliError::InvalidSecretLength => "invalid API key: fewer than 10 characters"@,
            CliError::InvalidSecretEncoding => "invalid API key: holds a character unsafe for a URL"@,
            CliError::SelectionAborted => "API key selection aborted"@,
            CliError::DeletionAborted => "API key deletion aborted"@,
            CliError::NoKeysFound => "Err: deletion failed. No API keys found."@,
            CliError::ClipboardUnavailable => "the system clipboard is unavailable"@,
            CliError::InvalidChainIndex => "no chain with that index exists"@,
        }
    }

    /// Renders the message this error reports to the user.
    pub fn message(&self) -> (r: String)
        ensures
            r@ == self.spec_message(),
    {
        match self {
            CliError::RemoteServiceError(cause) => {
                "remote service error: ".to_owned().concat(cause.as_str())
            },
            CliError::InvalidSecretLength => "invalid API key: fewer than 10 characters".to_owned(),
            CliError::InvalidSecretEncoding => {
                "invalid API key: holds a character unsafe for a URL".to_owned()
            },
            CliError::SelectionAborted => "API key selection aborted".to_owned(),
            CliError::DeletionAborted => "API key deletion aborted".to_owned(),
            CliError::NoKeysFound => "Err: deletion failed. No API keys found.".to_owned(),
            CliError::ClipboardUnavailable => "the system clipboard is unavailable".to_owned(),
            CliError::InvalidChainIndex => "no chain with that index exists".to_owned(),
        }
    }
}

} // verus!
