//! A resilient delivery core for push-notification events.
//!
//! A long-running poll loop pulls events from an underlying transport,
//! records each one in a shared pending-delivery store under a fresh
//! identifier, and notifies an acknowledgment-based consumer.  A retry
//! scheduler re-notifies the consumer for every identifier that has not
//! yet been removed from the store (removal is the acknowledgment).
//!
//! This crate holds the verified decision logic: the store, the per-event
//! poll-loop step, the per-interval retry step, and the small boundary
//! projections (readiness, gateway and decline reporting, one-shot
//! initialization).  The asynchronous runtime, the transport itself and
//! the foreign callbacks live outside and drive these functions.

pub mod poll;
pub mod retry;
pub mod slot;
pub mod state;
pub mod store;
