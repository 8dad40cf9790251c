//! The push state handed to the foreign consumer, the readiness query,
//! and the one-shot boundary reports (carrier-gateway lookup, decline).
//!
//! The registration phase itself is computed by the underlying
//! transport; this module only projects it to the boolean the
//! readiness query owes.  Likewise the gateway lookup and the decline
//! action are single external calls whose outcome is reported exactly
//! once through a foreign callback; the functions here fix what that
//! report must carry for each outcome.

use vstd::prelude::*;
use std::sync::Arc;

verus! {

/// The registration phase the underlying transport exposes.  The core
/// never drives this state machine; it only asks whether the phase is
/// the distinguished `Registered` value.
#[derive(Clone, Copy, Debug, PartialEq, Eq, Structural)]
pub enum RegistrationPhase {
    /// Nothing is known yet (uninitialized).
    NotStarted,
    /// Registration is underway but not complete.
    Registering,
    /// The transport is fully registered: the core is ready.
    Registered,
}

/// The consumer-facing delivery callback.  `receieved_msg` is invoked
/// with `(identifier, retryCount)` once on delivery and again on every
/// retry interval until the identifier is removed from the store;
/// `native_ready` reports the outcome of initialization exactly once.
/// The one implementation is supplied externally at initialization.
pub trait MsgReceiver: Send + Sync {
    fn receieved_msg(&self, msg: u64, retry: u64);

    fn native_ready(&self, is_ready: bool, state: Arc<NativePushState>);
}

/// The foreign handler for the one-shot carrier-gateway lookup: it is
/// called exactly once, with either the gateway address or an error
/// description.
pub trait CarrierHandler: Send + Sync {
    fn got_gateway(&self, gateway: Option<String>, error: Option<String>);
}

/// The per-process push state the consumer holds a shared reference
/// to.  The underlying transport session is opaque to this core; what
/// the consumer is handed for it is an integer handle, fixed when the
/// state is constructed.
pub struct NativePushState {
    handle: u64,
}

impl NativePushState {
    /// The handle this state was constructed with.
    pub closed spec fn spec_handle(&self) -> u64 {
        self.handle
    }

    /// Wrap the transport session's handle.
    pub fn new(handle: u64) -> (s: Self)
        ensures
            s.spec_handle() == handle,
    {
        NativePushState { handle }
    }

    /// Emit the session handle for the consumer.  Every call returns
    /// the same value for the same state.
    pub fn get_state(&self) -> (r: u64)
        ensures
            r == self.spec_handle(),
    {
        self.handle
    }

    /// The readiness query: true exactly when the transport's current
    /// phase is `Registered`, false for every other phase.  A pure
    /// projection with no retries and no side effects.
    pub fn get_ready(&self, phase: RegistrationPhase) -> (r: bool)
        ensures
            r == (phase == RegistrationPhase::Registered),
    {
        matches!(phase, RegistrationPhase::Registered)
    }
}

/// What the carrier handler must be told for each outcome of the
/// gateway lookup: the address on success, the error description on
/// failure, never both and never neither.
pub fn gateway_report(outcome: Result<String, String>) -> (r: (Option<String>, Option<String>))
    ensures
        match outcome {
            Ok(gateway) => r == (Some(gateway), None::<String>),
            Err(error) => r == (None::<String>, Some(error)),
        },
{
    match outcome {
        Ok(gateway) => (Some(gateway), None),
        Err(error) => (None, Some(error)),
    }
}

/// What the decline action owes after its one external call: nothing
/// on success, and on failure the description to log, exactly once;
/// the failure is never retried.
pub fn decline_report(outcome: Result<(), String>) -> (r: Option<String>)
    ensures
        match outcome {
            Ok(_) => r is None,
            Err(error) => r == Some(error),
        },
{
    match outcome {
        Ok(_) => None,
        Err(error) => Some(error),
    }
}

} // verus!
