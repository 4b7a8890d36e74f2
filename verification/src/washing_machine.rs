//! Passive usage tracking for the washing machine: no relay, only a
//! meter. Power readings drive a three-state model — available, in
//! use, or soaking (zero draw that may still resume) — and energy is
//! integrated from the average of consecutive readings. Time is in
//! seconds from a monotonic clock handed in by the caller; energy is
//! in joules.

use vstd::prelude::*;

verus! {

/// Seconds of zero draw after which a soaking machine counts as done.
pub const IDLE_TIME_CONSIDER_DONE: u64 = 7 * 60;

/// Running counters of one usage cycle.
#[derive(Debug, Clone, Copy, PartialEq, Eq, Structural)]
pub struct InUseCounters {
    pub cycle_start_s: u64,
    pub last_power_measurement: u32,
    pub last_measurement_time_s: u64,
    pub energy_consumed_joules: u32,
}

/// `x` clamped to the largest `u32`.
pub open spec fn sat_u32(x: int) -> int {
    if x > u32::MAX {
        u32::MAX as int
    } else {
        x
    }
}

/// The counters after one reading: energy grows by the average of the
/// previous and the current power, times the elapsed seconds
/// (clamped, so a huge step cannot wrap).
pub open spec fn spec_update(c: InUseCounters, current_power: u32, now_s: u64) -> InUseCounters
    recommends
        c.last_measurement_time_s <= now_s,
{
    InUseCounters {
        cycle_start_s: c.cycle_start_s,
        last_power_measurement: current_power,
        last_measurement_time_s: now_s,
        energy_consumed_joules: sat_u32(
            c.energy_consumed_joules + ((c.last_power_measurement + current_power) / 2) * (now_s
                - c.last_measurement_time_s),
        ) as u32,
    }
}

impl InUseCounters {
    /// Integrates one reading into the counters.
    pub fn update(&self, current_power: u32, now_s: u64) -> (r: InUseCounters)
        requires
            self.last_measurement_time_s <= now_s,
        ensures
            r == spec_update(*self, current_power, now_s),
    {
        let avg: u64 = ((self.last_power_measurement as u64) + (current_power as u64)) / 2;
        let dt: u64 = now_s - self.last_measurement_time_s;
        let joules: u64 = match avg.checked_mul(dt) {
            Some(j) => j,
            None => u64::MAX,
        };
        let total64: u64 = joules.saturating_add(self.energy_consumed_joules as u64);
        let total: u32 = if total64 > 0xFFFF_FFFF {
            u32::MAX
        } else {
            total64 as u32
        };
        InUseCounters {
            cycle_start_s: self.cycle_start_s,
            last_power_measurement: current_power,
            last_measurement_time_s: now_s,
            energy_consumed_joules: total,
        }
    }
}

/// What the meter's readings say the machine is doing.
#[derive(Debug, Clone, Copy, PartialEq, Eq, Structural)]
pub enum State {
    /// No draw for long enough: free to use.
    Available,
    /// Drawing power.
    InUse(InUseCounters),
    /// Zero draw, but recently active: soaking, or actually done.
    SoakingOrAvailable { counters: InUseCounters, since_s: u64 },
}

/// Timestamps recorded in the state cannot lie in the caller's future.
pub open spec fn state_wf(s: State, now_s: u64) -> bool {
    match s {
        State::Available => true,
        State::InUse(c) => c.last_measurement_time_s <= now_s,
        State::SoakingOrAvailable { counters, since_s } => counters.last_measurement_time_s <= now_s
            && since_s <= now_s,
    }
}

/// The state after one reading: draw starts a cycle, zero draw sends
/// a running cycle to soaking, and soaking past the idle threshold
/// ends it.
pub open spec fn spec_to_new_state(s: State, power: u32, now_s: u64) -> State
    recommends
        state_wf(s, now_s),
{
    match s {
        State::Available => if power != 0 {
            State::InUse(
                InUseCounters {
                    cycle_start_s: now_s,
                    last_power_measurement: power,
                    last_measurement_time_s: now_s,
                    energy_consumed_joules: 0,
                },
            )
        } else {
            State::Available
        },
        State::InUse(c) => {
            let nc = spec_update(c, power, now_s);
            if power == 0 {
                State::SoakingOrAvailable { counters: nc, since_s: now_s }
            } else {
                State::InUse(nc)
            }
        },
        State::SoakingOrAvailable { counters, since_s } => {
            let nc = spec_update(counters, power, now_s);
            if power == 0 {
                if now_s - since_s > IDLE_TIME_CONSIDER_DONE {
                    State::Available
                } else {
                    State::SoakingOrAvailable { counters: nc, since_s }
                }
            } else {
                State::InUse(nc)
            }
        },
    }
}

impl State {
    /// Advances the model by one power reading taken at `now_s`.
    pub fn to_new_state(&self, power: u32, now_s: u64) -> (r: State)
        requires
            state_wf(*self, now_s),
        ensures
            r == spec_to_new_state(*self, power, now_s),
            state_wf(r, now_s),
    {
        match self {
            State::Available => {
                if power != 0 {
                    State::InUse(
                        InUseCounters {
                            cycle_start_s: now_s,
                            last_power_measurement: power,
                            last_measurement_time_s: now_s,
                            energy_consumed_joules: 0,
                        },
                    )
                } else {
                    State::Available
                }
            },
            State::InUse(counters) => {
                let new_counter = counters.update(power, now_s);
                if power == 0 {
                    State::SoakingOrAvailable { counters: new_counter, since_s: now_s }
                } else {
                    State::InUse(new_counter)
                }
            },
            State::SoakingOrAvailable { counters, since_s } => {
                let new_counter = counters.update(power, now_s);
                if power == 0 {
                    if now_s - *since_s > IDLE_TIME_CONSIDER_DONE {
                        State::Available
                    } else {
                        State::SoakingOrAvailable { counters: new_counter, since_s: *since_s }
                    }
                } else {
                    State::InUse(new_counter)
                }
            },
        }
    }
}

/// What the transport loop announces to its listeners.
#[derive(Debug, Clone, Copy, PartialEq, Eq, Structural)]
pub enum Event {
    /// A cycle just finished; these are its final counters.
    NowAvailable { finished_cycle_stats: InUseCounters },
    /// A cycle just started.
    NowInUse,
}

/// The event a state change announces: a start when an available
/// machine begins drawing, a finish (with the cycle's counters) when
/// a soaking machine goes back to available. Every other transition
/// stays silent.
pub fn event_for_transition(previous: &State, new: &State) -> (r: Option<Event>)
    ensures
        r == match (*previous, *new) {
            (State::Available, State::InUse(_)) => Some(Event::NowInUse),
            (
                State::SoakingOrAvailable { counters, since_s },
                State::Available,
            ) => Some(Event::NowAvailable { finished_cycle_stats: counters }),
            _ => None::<Event>,
        },
{
    match (previous, new) {
        (State::Available, State::InUse(_)) => Some(Event::NowInUse),
        (State::SoakingOrAvailable { counters, since_s: _ }, State::Available) => Some(
            Event::NowAvailable { finished_cycle_stats: *counters },
        ),
        _ => None,
    }
}

} // verus!
