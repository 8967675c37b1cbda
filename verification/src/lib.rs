//! Remote-input-injection bridge core.
//!
//! Accepts decoded input requests from emulated-input clients, validates and
//! sanitizes each event against untrusted-input risks, resolves it against
//! live display geometry, and produces the compositor input calls that inject
//! it, in arrival order. Connection admission against a fixed ceiling and
//! capability negotiation for virtual devices are tracked here as well.
//!
//! The wire protocol, the event loop, and the compositor's input stack are
//! external collaborators: this crate covers the translation, validation and
//! injection-planning logic that sits between a decoded request and the
//! compositor input call.

pub mod capability;
pub mod geometry;
pub mod request;
pub mod resolve;
pub mod state;
pub mod translate;
pub mod validate;

use vstd::prelude::*;

verus! {

} // verus!
