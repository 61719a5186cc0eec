//! Normalized retrieval of live-broadcast playback information.
//!
//! The crate defines the shared vocabulary every platform adapter must
//! produce ([`live::Node`], [`live::Url`], [`live::Format`]), the capability
//! contract an adapter satisfies ([`live::Live`]), an immutable registry
//! mapping platform keys to shared adapter instances
//! ([`registry::Registry`]), and a structured rendering of a room snapshot
//! ([`render`]).

pub mod error;
pub mod live;
pub mod registry;
pub mod render;
