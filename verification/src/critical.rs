//! Critical-section support: the token type of the `critical_section` crate,
//! and the trusted entry points that run one verified LED transition with
//! interrupts masked. Taking ownership of shared state between a `take` and
//! a `replace` inside such a section is the embedding program's side of the
//! discipline; this core only ever mutates LED state under a token.

use vstd::prelude::*;

use crate::buffers::DetectionMsg;
use crate::status::{alert_transition, error_transition, StatusLedMulti};

verus! {

/// The `critical_section` crate's token: existence of a value proves that a
/// critical section is active for the token's lifetime.
#[verifier::external_type_specification]
#[verifier::external_body]
pub struct ExCriticalSection<'cs>(critical_section::CriticalSection<'cs>);

/// Relies on `critical_section::with`: it acquires a critical section, runs
/// the given closure exactly once with the section token, releases the
/// section and returns the closure's result. The closure here only calls the
/// verified `StatusLedMulti::set_error`, so the LED state ends exactly one
/// error transition further.
#[verifier::external_body]
pub(crate) fn raise_error_in_critical_section(leds: &mut StatusLedMulti, message: Option<&str>)
    ensures
        *final(leds) == error_transition(*old(leds)),
{
    critical_section::with(|cs| leds.set_error(cs, message))
}

/// Relies on `critical_section::with`: it acquires a critical section, runs
/// the given closure exactly once with the section token, releases the
/// section and returns the closure's result. The closure here only calls the
/// verified `StatusLedMulti::set_alert`, so the LED state ends exactly one
/// alert transition further.
#[verifier::external_body]
pub(crate) fn raise_alert_in_critical_section(
    leds: &mut StatusLedMulti,
    message: Option<DetectionMsg>,
)
    ensures
        *final(leds) == alert_transition(*old(leds)),
{
    critical_section::with(|cs| leds.set_alert(cs, message))
}

} // verus!
