//! Client library for controlling smart light bulbs over a lightweight,
//! PSK-secured UDP request/response protocol, together with the typed
//! encoding layer for the device's resource representation (power,
//! brightness, color).
//!
//! The library models the whole protocol engine as plain verified values:
//! engine lifecycle, session establishment, message construction (method,
//! token, options, payload), path encoding, and the run-loop decision
//! logic. Network I/O itself is driven by a thin unverified shell around
//! this crate; every decision that shell takes is computed here, under
//! contract.

pub mod address;
pub mod device_info;
pub mod engine;
pub mod error;
pub mod light;
pub mod optlist;
pub mod pdu;
pub mod session;
pub mod session_ext;
pub mod text;
pub mod token;
pub mod uri;

pub use crate::address::CoapAddress;
pub use crate::device_info::DeviceInfo;
pub use crate::device_info::ProductInfo;
pub use crate::engine::Coap;
pub use crate::engine::CoapContext;
pub use crate::engine::CoapLogLevel;
pub use crate::engine::CoapRuntime;
pub use crate::engine::RunStep;
pub use crate::error::CoapError;
pub use crate::light::LightColorPreset;
pub use crate::light::LightInfo;
pub use crate::optlist::CoapOptList;
pub use crate::pdu::CoapMethod;
pub use crate::pdu::CoapPdu;
pub use crate::pdu::CoapPduBuilder;
pub use crate::session::CoapSession;
pub use crate::session_ext::CoapSessionExt;
pub use crate::token::CoapToken;
pub use crate::uri::CoapUri;
