//! The two transient data shapes of the probe: what a caller asks for and
//! what it gets back.

use vstd::prelude::*;

verus! {

/// One request to test SSH connectivity to a remote host.
///
/// Every field besides `host` and `username` has a well-defined default, so
/// absence is never an error: `port` falls back to 22, `timeout_secs` to 10
/// seconds and `accept_new_host_key` to `false`.
#[derive(Debug, Clone)]
pub struct TestConnectionRequest {
    /// Remote hostname or address.
    pub host: String,
    /// Remote login user.
    pub username: String,
    /// Destination port; 22 when absent.
    pub port: Option<u16>,
    /// Path to a private key, passed to the client as an identity file
    /// when present.
    pub private_key_path: Option<String>,
    /// When `Some(true)`, an unseen host key is trusted automatically on
    /// first contact instead of requiring interactive confirmation.
    pub accept_new_host_key: Option<bool>,
    /// Bound on connection establishment, in seconds; 10 when absent.
    pub timeout_secs: Option<u64>,
}

/// The outcome of one probe, reduced to a flag and a line of text.
#[derive(Debug, Clone, PartialEq, Eq)]
pub struct TestConnectionResponse {
    /// Whether the probe confirmed a working session.
    pub ok: bool,
    /// On success the remote-reported hostname; on failure the most
    /// specific diagnostic available.
    pub message: String,
}

} // verus!
