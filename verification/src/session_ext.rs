//! Convenience requests against the gateway's device resources, as an
//! extension trait over the session.
//!
//! The trait itself carries no contracts; the session's inherent methods
//! of the same names, which these delegate to, state and prove what each
//! request hands to the transport.

use crate::error::CoapError;
use crate::light::LightInfo;
use crate::session::CoapSession;
use vstd::prelude::*;

verus! {

/// Convenience requests against the gateway's device resources.
pub trait CoapSessionExt {
    /// Asks for a device's status.
    fn request_status(&mut self, id: &'static str) -> Result<(), CoapError>;

    /// Sends a light-control update to a device.
    fn update_light(&mut self, id: &'static str, command: LightInfo) -> Result<(), CoapError>;
}

impl CoapSessionExt for CoapSession {
    fn request_status(&mut self, id: &'static str) -> Result<(), CoapError> {
        CoapSession::request_status(self, id)
    }

    fn update_light(&mut self, id: &'static str, command: LightInfo) -> Result<(), CoapError> {
        CoapSession::update_light(self, id, command)
    }
}

} // verus!
