//! Protocol engine of a gateway that stands in for a 3D input device's proxy
//! service: frames of a WAMP-derived RPC and publish/subscribe protocol are
//! decoded, routed against per-connection session state, and answered with
//! exact wire text.
//!
//! The engine does no input or output and no arithmetic on scalars. A caller
//! hands it the text frames that it receives, and carries out the effects
//! that it gets back: frames to send, and motion to apply to the spatial
//! state that the session stores.

pub mod dispatch;
pub mod ident;
pub mod json;
pub mod laws;
pub mod message;
pub mod motion;
pub mod session;
pub mod wire;
