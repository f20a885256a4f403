//! Connection data for the game-client control API: status, endpoint
//! addresses derived from the port, and the Basic authorization header.
//! The HTTP and WebSocket traffic itself lives outside the library.

use vstd::prelude::*;
use vstd::string::StringExecFns;
use base64::Engine;
use crate::strutil;

verus! {

/// Status of the game-client control connection.
#[derive(Debug, Clone)]
pub struct LcuStatus {
    /// Whether the connection is active.
    pub connected: bool,
    /// The current player's display name, when connected.
    pub summoner_name: Option<String>,
    /// Whether the player is currently in a match.
    pub in_game: bool,
}

/// Names what the control API's addresses and credentials look like for a
/// given local port and token. The transport client around the library holds
/// one of these plus its HTTP machinery.
#[derive(Debug, Clone)]
pub struct LcuConnection {
    /// The local port the control API listens on.
    pub port: u16,
    /// The authentication token, possibly empty.
    pub token: String,
    /// The base address for API requests.
    pub base_url: String,
}

/// The characters of the base address for a port: the local HTTPS origin.
pub open spec fn base_url_chars(port: u16) -> Seq<char> {
    "https://127.0.0.1:"@ + strutil::dec_rep(port as nat)
}

/// The characters of the WebSocket address for a port.
pub open spec fn websocket_url_chars(port: u16) -> Seq<char> {
    "wss://127.0.0.1:"@ + strutil::dec_rep(port as nat)
}

impl LcuConnection {
    /// Builds the connection data for a port and token; the base address is
    /// the local HTTPS origin on that port.
    pub fn with_port(port: u16, token: String) -> (r: Self)
        ensures
            r.port == port,
            r.token == token,
            r.base_url@ == base_url_chars(port),
    {
        let mut base_url = String::from_str("https://127.0.0.1:");
        let port_str = strutil::u64_to_dec(port as u64);
        base_url.append(port_str.as_str());
        LcuConnection { port, token, base_url }
    }

    /// The WebSocket address of the control API.
    pub fn get_websocket_url(&self) -> (r: String)
        ensures
            r@ == websocket_url_chars(self.port),
    {
        let mut url = String::from_str("wss://127.0.0.1:");
        let port_str = strutil::u64_to_dec(self.port as u64);
        url.append(port_str.as_str());
        url
    }

    /// The Basic authorization header for API requests: the base64 encoding
    /// of `riot:` followed by the token, or a bare scheme with an empty
    /// token, which some endpoints accept.
    pub fn get_auth_header(&self) -> (r: String)
        ensures
            self.token@.len() == 0 ==> r@ == "Basic "@,
            self.token@.len() > 0 ==> r@ == "Basic "@ + base64_standard_of(
                "riot:"@ + self.token@,
            ),
    {
        if self.token.as_str().is_empty() {
            String::from_str("Basic ")
        } else {
            let mut credentials = String::from_str("riot:");
            credentials.append(self.token.as_str());
            let encoded = base64_encode(credentials.as_str());
            let mut header = String::from_str("Basic ");
            header.append(encoded.as_str());
            header
        }
    }
}

/// The standard base64 encoding, with padding, of a string's characters.
pub uninterp spec fn base64_standard_of(s: Seq<char>) -> Seq<char>;

/// Relies on base64's STANDARD engine: encodes the bytes of the input with
/// the standard alphabet and padding. The encoding is a function of the
/// input characters alone.
#[verifier::external_body]
fn base64_encode(s: &str) -> (r: String)
    ensures
        r@ == base64_standard_of(s@),
{
    base64::engine::general_purpose::STANDARD.encode(s.as_bytes())
}

} // verus!
