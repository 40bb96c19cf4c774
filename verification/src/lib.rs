//! A verified request-bridging library: it carries one inbound request into an
//! isolated, capability-sandboxed guest execution and relays exactly one
//! response (or one well-defined failure) back to the caller.
//!
//! - [`bridge`] holds the per-request lifecycle: the set-once response
//!   placeholder and the race between "response delivered" and "guest task
//!   finished".
//! - [`sandbox`] holds the startup pipeline (engine settings, artifact
//!   loading, capability linking) and the per-request capability context.
//! - [`quote`] and [`shiporder`] hold the business collaborator consumed by
//!   the guest: price quoting and order shipment.
//! - [`tracking`] holds the tracking-identifier strategies, fixed and
//!   randomized.

pub mod bridge;
pub mod quote;
pub mod sandbox;
pub mod shiporder;
pub mod tracking;
