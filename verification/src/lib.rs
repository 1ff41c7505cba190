//! Control-plane logic of a hands-free telephony profile: codec bit-sets,
//! the per-device signaling and audio state machines, the call and indicator
//! model, the command gateway and the event intake.
//!
//! The library never talks to a transport itself. Every gateway operation
//! returns a decision: either a status that answers the caller at once, or a
//! request that the embedding program hands to its transport. The transport's
//! answer and the events it raises are then fed back into the profile.

pub mod address;
pub mod codec;
pub mod event;
pub mod model;
pub mod profile;
pub mod request;
pub mod state;
pub mod status;
pub mod telephony;
