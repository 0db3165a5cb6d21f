use vstd::prelude::*;

verus! {

/// Why a request was refused before it reached the network.
#[derive(Debug, Clone, Copy, PartialEq, Eq, Structural)]
pub enum InvalidReason {
    /// The endpoint is empty, does not start with `/`, or holds `..`.
    Endpoint,
    /// The token is empty or white space only.
    MissingToken,
    /// The port is not an unsigned 16-bit number.
    Port,
    /// The method and endpoint are not on the allow-list.
    NotAllowed,
}

/// The ways a call into the local API can fail.
#[derive(Debug, Clone)]
pub enum LcuError {
    /// No running client and no usable lockfile at the default path.
    NotFound,
    /// The request was malformed or not allowed; it was never sent.
    InvalidRequest(InvalidReason),
    /// Connecting, the TLS handshake or the wait for an answer failed.
    TransportFailure(String),
    /// The local API answered with a status outside 2xx.
    RemoteRejection { status: u16, body: String },
}

} // verus!
