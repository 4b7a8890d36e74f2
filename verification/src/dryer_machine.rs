//! Typed hardware state machine for the dryer: relay plus meter.
//!
//! The states are witness values: `OffState`, the half-way
//! `TurnOnPending`, and `OnState`. Every transition consumes the prior
//! state and returns the next, so a reading can only be attributed to
//! a machine that went through a confirmed turn-on, and a double
//! turn-on cannot be expressed. The states cannot be constructed
//! outside this module (other than `OffState`, the initial one), so
//! the only path to an `OnState` value runs through
//! [`OffState::turn_on`] and [`TurnOnPending::confirm_reset`] with a
//! verified zero energy counter.
//!
//! The physical operations themselves — asserting the relay line,
//! exchanging reset and read frames on the serial port — happen
//! outside; their outcomes are handed in as plain values and this
//! module decides what state follows.

use crate::pzemv3::DeviceError;
use vstd::prelude::*;

verus! {

/// The relay is released; the appliance draws no power.
pub struct OffState {
    sealed: (),
}

/// The relay has been asserted, but the meter's energy counter has
/// not yet been reset and verified.
pub struct TurnOnPending {
    sealed: (),
}

/// The relay is asserted and the meter counts from a verified zero
/// baseline.
pub struct OnState {
    sealed: (),
}

impl OffState {
    /// The initial state: the caller pairs it with hardware whose
    /// relay it has just released.
    pub fn new() -> OffState {
        OffState { sealed: () }
    }

    /// Consumes the off state after the relay assert was attempted.
    /// `relay_ok` reports whether the actuator accepted the level; a
    /// refusal keeps the machine off with a transport error.
    pub fn turn_on(self, relay_ok: bool) -> (r: Result<TurnOnPending, (OffState, DeviceError)>)
        ensures
            relay_ok <==> r is Ok,
            !relay_ok ==> (r matches Err((_, e)) && e == DeviceError::TransportIo),
    {
        if relay_ok {
            Ok(TurnOnPending { sealed: () })
        } else {
            Err((OffState { sealed: () }, DeviceError::TransportIo))
        }
    }
}

impl TurnOnPending {
    /// Consumes the pending state once the reset exchange finished.
    /// `energy_after_reset` is the counter read back after the reset
    /// request, or the error that stopped the exchange. Only a
    /// verified zero counter reaches `OnState`; any failure returns
    /// to `OffState` and the caller must release the relay again,
    /// best effort.
    pub fn confirm_reset(self, energy_after_reset: Result<u32, DeviceError>) -> (r: Result<
        OnState,
        (OffState, DeviceError),
    >)
        ensures
            r is Ok <==> energy_after_reset == Result::<u32, DeviceError>::Ok(0u32),
            (energy_after_reset matches Ok(e) && e != 0) ==> (r matches Err((_, err)) && err
                == DeviceError::ResetVerification),
            energy_after_reset matches Err(e) ==> (r matches Err((_, err)) && err == e),
    {
        match energy_after_reset {
            Ok(energy_wh) => {
                if energy_wh == 0 {
                    Ok(OnState { sealed: () })
                } else {
                    Err((OffState { sealed: () }, DeviceError::ResetVerification))
                }
            },
            Err(e) => Err((OffState { sealed: () }, e)),
        }
    }
}

impl OnState {
    /// Consumes the on state; the caller releases the relay. The
    /// result is off regardless of how the hardware answered: leaving
    /// the machine logically on while physically off would mis-bill.
    pub fn turn_off(self) -> OffState {
        OffState { sealed: () }
    }
}

} // verus!
