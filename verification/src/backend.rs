//! Plain data of the backend connection: its configuration, its reported
//! status, the roster records sent with a match start, and the client's
//! persisted configuration. The HTTP traffic itself lives in the shell.

use vstd::prelude::*;

verus! {

/// Configuration of the backend connection.
#[derive(Debug, Clone)]
pub struct BackendConfig {
    /// Token sent with every request.
    pub api_token: String,
    /// Base address of the backend.
    pub backend_url: String,
    /// This client's identifier.
    pub client_id: String,
}

/// Status of the backend connection.
#[derive(Debug, Clone)]
pub struct BackendStatus {
    /// Whether the connection is configured.
    pub connected: bool,
    /// The configured backend address, when known.
    pub backend_url: Option<String>,
    /// The last error surfaced, when one was.
    pub last_error: Option<String>,
}

impl BackendConfig {
    /// The status this configuration reports: connected exactly when both a
    /// token and an address are configured.
    pub fn status(&self) -> (r: BackendStatus)
        ensures
            r.connected == (self.api_token@.len() > 0 && self.backend_url@.len() > 0),
            r.backend_url is Some && r.backend_url->0@ == self.backend_url@,
            r.last_error is None,
    {
        BackendStatus {
            connected: !self.api_token.as_str().is_empty()
                && !self.backend_url.as_str().is_empty(),
            backend_url: Some(self.backend_url.clone()),
            last_error: None,
        }
    }
}

/// One participant as reported with a match start.
#[derive(Debug, Clone)]
pub struct PlayerInfo {
    /// The participant's name.
    pub summoner_name: String,
    /// The champion the participant plays.
    pub champion_name: String,
    /// The participant's team label.
    pub team: String,
}

/// Persisted configuration of the desktop client.
#[derive(Debug, Clone)]
pub struct Config {
    /// Unique identifier of this installation.
    pub client_id: String,
    /// Token for authenticating with the backend, once configured.
    pub api_token: Option<String>,
    /// The backend's address, once configured.
    pub backend_url: Option<String>,
}

impl Config {
    /// A fresh configuration for a newly generated client identifier:
    /// nothing else is configured yet.
    pub fn new(client_id: String) -> (r: Self)
        ensures
            r.client_id == client_id,
            r.api_token is None,
            r.backend_url is None,
    {
        Config { client_id, api_token: None, backend_url: None }
    }
}

} // verus!
