//! The error taxonomy of the protocol client.
//!
//! Every failure is a local, non-retrying value return: the engine never
//! retries on its own, each failure is surfaced to the caller.

use vstd::prelude::*;

verus! {

/// Everything that can go wrong while building or transporting a request.
#[derive(Copy, Clone, Debug, PartialEq, Eq, Structural)]
pub enum CoapError {
    /// A second engine was started while one instance is still alive.
    AlreadyInitialized,
    /// The processing context could not be allocated.
    FailedToCreateContext,
    /// The secured session could not be established.
    FailedToCreateSession,
    /// The PSK identity contains non-ASCII bytes.
    IdentityNotAscii,
    /// The PSK key contains non-ASCII bytes.
    KeyNotAscii,
    /// The resource locator does not match the expected grammar.
    InvalidUri,
    /// The message could not be allocated.
    FailedToCreatePdu,
    /// The message could not be handed to the transport.
    FailedToSend,
    /// A network I/O step failed fatally.
    IoError,
    /// The locator's path does not fit the path-splitting scratch buffer.
    UriTooLong,
    /// The payload could not be encoded.
    SerializeError,
    /// A payload was attached to a message that already has one.
    AlreadyHasPayload,
}

} // verus!
