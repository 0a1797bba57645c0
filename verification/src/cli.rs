use vstd::prelude::*;

verus! {

/// The parsed command line: one subcommand per invocation.
#[derive(Debug, Clone)]
pub struct CloudCli {
    pub cmd: Command,
}

/// The subcommands the client offers. Every one runs after an implicit
/// login flow.
#[derive(Debug, Clone)]
pub enum Command {
    /// Retrieve one of the account's API keys and its RPC endpoint.
    GetApiKey {
        /// Print the full URL, raw API key included, to the terminal
        /// instead of the clipboard. Explicit opt-in: it exposes the key to
        /// terminal history and screen capture.
        unsafe_print: bool,
    },
    /// Delete one of the account's API keys, after confirmation.
    DeleteApiKey,
    /// Generate a new API key, optionally storing it in a secret manager.
    NewApiKey { secret_manager: Option<SecretManager> },
    /// Report the number of RPC calls made this cycle.
    TrackUsage,
    /// Report the account balance.
    Balance,
}

/// The secret sinks a new key can be exported to.
#[derive(Debug, Clone, PartialEq, Eq, Structural)]
pub enum SecretManager {
    Aws,
}

/// The credentials posted to the login endpoint.
#[derive(Debug, Clone)]
pub struct LoginRequest {
    pub email: String,
    pub password: String,
}

} // verus!
