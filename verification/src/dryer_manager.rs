//! The billing supervisor: owns the machine state, converts power
//! readings into charges once per tick, and cuts the session off on
//! an exhausted balance, an idle appliance, or a clock fault.
//!
//! All quantities are integers in fixed units: time in seconds,
//! power in tenths of a watt (deciwatts), energy in tenths of a joule
//! (decijoules, the product of the two), currency in centavos. One
//! kWh is 36 000 000 decijoules. The clock and the meter live
//! outside; each tick receives the current monotonic time and the
//! power reading (or `None` when the read failed, in which case the
//! session is left as it was and the next tick retries).

use crate::database;
use crate::dryer_machine;
use crate::pzemv3::DeviceError;
use crate::telegram::{MsgType, OutgoingMessage, UserMessage};
use crate::text;
use vstd::prelude::*;
use vstd::string::StringExecFns;

verus! {

/// Price of one kWh, in centavos.
pub const COST_CENTAVOS_KWH: u64 = 110;

/// Seconds of negligible power draw after which the session ends.
pub const TURN_OFF_SECONDS_ZERO_POWER_THRESHOLD: u64 = 20;

/// Balance needed to start a session, in centavos.
pub const MIN_CENTAVOS_TURN_ON: u64 = 100;

/// Draw at or below this power, in deciwatts, counts as idle.
pub const IDLE_POWER_THRESHOLD_DW: u32 = 10;

/// Smallest charge worth flushing into the totals, in centavos.
pub const MIN_BILLABLE_CENTAVOS: u64 = 1;

/// Decijoules in one kWh.
pub const DECIJOULES_PER_KWH: u64 = 36_000_000;

/// Decijoules in one hundredth of a kWh.
pub const DECIJOULES_PER_CENTIKWH: u64 = 360_000;

/// The user a session bills, with the balance as last persisted.
#[derive(Debug)]
pub struct User {
    pub telegram_id: u64,
    pub chat_id: i64,
    pub name: String,
    pub balance_centavos: u64,
}

impl Clone for User {
    fn clone(&self) -> (r: Self)
        ensures
            r == *self,
    {
        User {
            telegram_id: self.telegram_id,
            chat_id: self.chat_id,
            name: self.name.clone(),
            balance_centavos: self.balance_centavos,
        }
    }
}

/// The running totals of one session.
#[derive(Debug)]
pub struct CycleStats {
    /// When the session started.
    pub start_time_s: u64,
    /// When the last tick integrated power, so the next one knows its
    /// time step.
    pub time_last_tick_update_s: u64,
    /// Energy accumulated since the last flush into the totals, in
    /// decijoules.
    pub partial_undiscounted_accumulated_dj: u64,
    /// Price-weighted energy (decijoules times the centavo price of a
    /// kWh) not yet worth a whole centavo. It is carried across
    /// flushes, so no fraction of a centavo is ever dropped and the
    /// billed total cannot drift over thousands of ticks.
    pub unbilled_pdj_remainder: u64,
    /// Energy already billed, in decijoules.
    pub total_consumed_and_discounted_dj: u64,
    /// Money already billed, in centavos.
    pub total_consumed_and_discounted_centavos: u64,
    pub user: User,
}

impl Clone for CycleStats {
    fn clone(&self) -> (r: Self)
        ensures
            r == *self,
    {
        CycleStats {
            start_time_s: self.start_time_s,
            time_last_tick_update_s: self.time_last_tick_update_s,
            partial_undiscounted_accumulated_dj: self.partial_undiscounted_accumulated_dj,
            unbilled_pdj_remainder: self.unbilled_pdj_remainder,
            total_consumed_and_discounted_dj: self.total_consumed_and_discounted_dj,
            total_consumed_and_discounted_centavos: self.total_consumed_and_discounted_centavos,
            user: self.user.clone(),
        }
    }
}

impl CycleStats {
    /// Billed energy in hundredths of a kWh.
    pub open spec fn spec_total_consumed_centikwh(self) -> int {
        self.total_consumed_and_discounted_dj as int / DECIJOULES_PER_CENTIKWH as int
    }

    /// Billed energy in hundredths of a kWh.
    pub fn total_consumed_centikwh(&self) -> (r: u64)
        ensures
            r == self.spec_total_consumed_centikwh(),
    {
        self.total_consumed_and_discounted_dj / DECIJOULES_PER_CENTIKWH
    }
}

/// A running session: the machine witness, the totals, and when the
/// power draw last fell to idle (if it has not risen since).
pub struct OnState {
    pub drier_on_state: dryer_machine::OnState,
    pub cycle_stats: CycleStats,
    pub start_time_zero_power_s: Option<u64>,
}

/// The supervisor is exactly one of these: off, or on with a session.
/// A session without a confirmed-on machine, or the reverse, cannot
/// be expressed.
pub enum State {
    On(OnState),
    OffState(dryer_machine::OffState),
}

/// What one tick decided.
#[derive(Debug)]
pub enum TickOutcome {
    /// The balance ran out: the machine was switched off and these are
    /// the session's final totals.
    TurnOffAndRemoveUserOutOfMoney(CycleStats),
    /// The appliance idled too long: switched off, final totals.
    TurnedOffDueToIdleTooLong(CycleStats),
    /// A charge was flushed into the totals; the ledger must now be
    /// debited for the delta and the session balance refreshed.
    DiscountConsumed { delta_energy_dj: u64, delta_consumed_centavos: u64, user: User },
    /// The accumulated charge is still below the billable minimum, or
    /// the meter could not be read this tick.
    NotEnoughConsumptionToDiscountYet,
    /// No session is running.
    Off,
    /// The clock ran backwards: fatal to the session, the machine was
    /// switched off.
    LogicError(CycleStats),
}

/// `x` clamped to the largest `u64`.
pub open spec fn sat_u64(x: int) -> int {
    if x > u64::MAX {
        u64::MAX as int
    } else {
        x
    }
}

/// The exact price of `dj` decijoules, in price-weighted decijoules
/// (pdj): one centavo is [`DECIJOULES_PER_KWH`] pdj.
pub open spec fn pdj_of_dj(dj: int) -> int {
    dj * COST_CENTAVOS_KWH as int
}

/// Well-formedness of a session: the recorded instants cannot lie in
/// the future of the last tick.
pub open spec fn session_wf(stats: CycleStats, zero_since: Option<u64>) -> bool {
    &&& stats.start_time_s <= stats.time_last_tick_update_s
    &&& (zero_since matches Some(t) ==> t <= stats.time_last_tick_update_s)
    &&& stats.unbilled_pdj_remainder < DECIJOULES_PER_KWH
}

/// Where the idle marker stands after a tick that read `power_dw`:
/// negligible draw starts (or keeps) the marker, real draw clears it.
pub open spec fn spec_zero_power_since(
    prev: Option<u64>,
    power_dw: u32,
    now_s: u64,
) -> Option<u64> {
    if power_dw <= IDLE_POWER_THRESHOLD_DW {
        match prev {
            Some(t) => Some(t),
            None => Some(now_s),
        }
    } else {
        None
    }
}

/// The totals after integrating `power_dw` over the time since the
/// last tick (saturating, so a huge step cannot wrap): the energy
/// accumulator grows by power times elapsed time, the price-weighted
/// accumulator by the same energy times the kWh price.
pub open spec fn spec_integrate(stats: CycleStats, now_s: u64, power_dw: u32) -> CycleStats
    recommends
        stats.time_last_tick_update_s <= now_s,
{
    let add_dj = sat_u64(power_dw * (now_s - stats.time_last_tick_update_s));
    CycleStats {
        start_time_s: stats.start_time_s,
        time_last_tick_update_s: now_s,
        partial_undiscounted_accumulated_dj: sat_u64(
            stats.partial_undiscounted_accumulated_dj + add_dj,
        ) as u64,
        unbilled_pdj_remainder: sat_u64(
            stats.unbilled_pdj_remainder + sat_u64(pdj_of_dj(add_dj)),
        ) as u64,
        total_consumed_and_discounted_dj: stats.total_consumed_and_discounted_dj,
        total_consumed_and_discounted_centavos: stats.total_consumed_and_discounted_centavos,
        user: stats.user,
    }
}

/// One tick of a running session. `None` means the session ended and
/// the machine was switched off; otherwise the new totals and idle
/// marker. In order: an exhausted balance ends the session whatever
/// the reading was; a clock that ran backwards is fatal; a failed
/// read leaves everything untouched; an idle period beyond the
/// threshold ends the session; otherwise power is integrated and a
/// charge at or above the billable minimum is flushed into the
/// totals.
pub open spec fn spec_tick_session(
    stats: CycleStats,
    zero_since: Option<u64>,
    now_s: u64,
    power_dw: Option<u32>,
) -> (Option<(CycleStats, Option<u64>)>, TickOutcome) {
    if stats.user.balance_centavos == 0 {
        (None, TickOutcome::TurnOffAndRemoveUserOutOfMoney(stats))
    } else if now_s < stats.time_last_tick_update_s {
        (None, TickOutcome::LogicError(stats))
    } else {
        match power_dw {
            None => (Some((stats, zero_since)), TickOutcome::NotEnoughConsumptionToDiscountYet),
            Some(p) => {
                let zs = spec_zero_power_since(zero_since, p, now_s);
                if zs matches Some(t0) && now_s >= t0 + TURN_OFF_SECONDS_ZERO_POWER_THRESHOLD {
                    (None, TickOutcome::TurnedOffDueToIdleTooLong(stats))
                } else {
                    let st1 = spec_integrate(stats, now_s, p);
                    let pending = st1.unbilled_pdj_remainder / DECIJOULES_PER_KWH;
                    if pending >= MIN_BILLABLE_CENTAVOS {
                        let st2 = CycleStats {
                            start_time_s: st1.start_time_s,
                            time_last_tick_update_s: st1.time_last_tick_update_s,
                            partial_undiscounted_accumulated_dj: 0,
                            unbilled_pdj_remainder: st1.unbilled_pdj_remainder
                                % DECIJOULES_PER_KWH,
                            total_consumed_and_discounted_dj: sat_u64(
                                st1.total_consumed_and_discounted_dj
                                    + st1.partial_undiscounted_accumulated_dj,
                            ) as u64,
                            total_consumed_and_discounted_centavos: sat_u64(
                                st1.total_consumed_and_discounted_centavos + pending,
                            ) as u64,
                            user: st1.user,
                        };
                        (
                            Some((st2, zs)),
                            TickOutcome::DiscountConsumed {
                                delta_energy_dj: st1.partial_undiscounted_accumulated_dj,
                                delta_consumed_centavos: pending,
                                user: stats.user,
                            },
                        )
                    } else {
                        (Some((st1, zs)), TickOutcome::NotEnoughConsumptionToDiscountYet)
                    }
                }
            },
        }
    }
}

fn saturating_mul_u64(a: u64, b: u64) -> (r: u64)
    ensures
        r == sat_u64(a * b),
{
    match a.checked_mul(b) {
        Some(p) => p,
        None => u64::MAX,
    }
}

/// The supervisor: at most one session, swapped atomically with the
/// machine witness on every transition.
pub struct DryerManager {
    pub state: State,
}

impl DryerManager {
    /// Session well-formedness, when one is running.
    pub open spec fn wf(self) -> bool {
        match self.state {
            State::On(on) => session_wf(on.cycle_stats, on.start_time_zero_power_s),
            State::OffState(_) => true,
        }
    }

    /// Whether a session is running.
    pub open spec fn spec_is_on(self) -> bool {
        self.state is On
    }

    /// Starts off: the caller pairs it with hardware whose relay it
    /// has just released.
    pub fn new() -> (r: DryerManager)
        ensures
            r.state is OffState,
            r.wf(),
    {
        DryerManager { state: State::OffState(dryer_machine::OffState::new()) }
    }

    /// Whether a session is running.
    pub fn is_on(&self) -> (b: bool)
        ensures
            b == self.spec_is_on(),
    {
        match &self.state {
            State::On(_) => true,
            State::OffState(_) => false,
        }
    }

    /// One tick of a running session; see [`spec_tick_session`] for
    /// the decision order.
    fn process_on_state_tick(on: OnState, now_s: u64, power_dw: Option<u32>) -> (r: (
        State,
        TickOutcome,
    ))
        requires
            session_wf(on.cycle_stats, on.start_time_zero_power_s),
        ensures
            ({
                let (res, out) = spec_tick_session(
                    on.cycle_stats,
                    on.start_time_zero_power_s,
                    now_s,
                    power_dw,
                );
                &&& r.1 == out
                &&& match res {
                    None => r.0 is OffState,
                    Some((st2, zs2)) => r.0 matches State::On(on2) && on2.cycle_stats == st2
                        && on2.start_time_zero_power_s == zs2 && on2.drier_on_state
                        == on.drier_on_state && session_wf(st2, zs2),
                }
            }),
    {
        let OnState { drier_on_state, mut cycle_stats, start_time_zero_power_s } = on;
        if cycle_stats.user.balance_centavos == 0 {
            let off = drier_on_state.turn_off();
            return (
                State::OffState(off),
                TickOutcome::TurnOffAndRemoveUserOutOfMoney(cycle_stats),
            );
        }
        if now_s < cycle_stats.time_last_tick_update_s {
            let off = drier_on_state.turn_off();
            return (State::OffState(off), TickOutcome::LogicError(cycle_stats));
        }
        let p: u32 = match power_dw {
            None => {
                return (
                    State::On(OnState { drier_on_state, cycle_stats, start_time_zero_power_s }),
                    TickOutcome::NotEnoughConsumptionToDiscountYet,
                );
            },
            Some(p) => p,
        };
        let zs: Option<u64> = if p <= IDLE_POWER_THRESHOLD_DW {
            match start_time_zero_power_s {
                Some(t) => Some(t),
                None => Some(now_s),
            }
        } else {
            None
        };
        if let Some(t0) = zs {
            if now_s - t0 >= TURN_OFF_SECONDS_ZERO_POWER_THRESHOLD {
                let off = drier_on_state.turn_off();
                return (State::OffState(off), TickOutcome::TurnedOffDueToIdleTooLong(cycle_stats));
            }
        }
        let dt: u64 = now_s - cycle_stats.time_last_tick_update_s;
        let add_dj: u64 = saturating_mul_u64(p as u64, dt);
        cycle_stats.time_last_tick_update_s = now_s;
        cycle_stats.partial_undiscounted_accumulated_dj =
            cycle_stats.partial_undiscounted_accumulated_dj.saturating_add(add_dj);
        let add_pdj: u64 = saturating_mul_u64(add_dj, COST_CENTAVOS_KWH);
        cycle_stats.unbilled_pdj_remainder =
            cycle_stats.unbilled_pdj_remainder.saturating_add(add_pdj);
        let pending_c: u64 = cycle_stats.unbilled_pdj_remainder / DECIJOULES_PER_KWH;
        if pending_c >= MIN_BILLABLE_CENTAVOS {
            let delta_dj: u64 = cycle_stats.partial_undiscounted_accumulated_dj;
            cycle_stats.unbilled_pdj_remainder =
                cycle_stats.unbilled_pdj_remainder % DECIJOULES_PER_KWH;
            cycle_stats.total_consumed_and_discounted_dj =
                cycle_stats.total_consumed_and_discounted_dj.saturating_add(delta_dj);
            cycle_stats.total_consumed_and_discounted_centavos =
                cycle_stats.total_consumed_and_discounted_centavos.saturating_add(pending_c);
            cycle_stats.partial_undiscounted_accumulated_dj = 0;
            let user = cycle_stats.user.clone();
            (
                State::On(OnState { drier_on_state, cycle_stats, start_time_zero_power_s: zs }),
                TickOutcome::DiscountConsumed {
                    delta_energy_dj: delta_dj,
                    delta_consumed_centavos: pending_c,
                    user,
                },
            )
        } else {
            (
                State::On(OnState { drier_on_state, cycle_stats, start_time_zero_power_s: zs }),
                TickOutcome::NotEnoughConsumptionToDiscountYet,
            )
        }
    }

    /// One tick: decides on the running session, if any. Billing is
    /// monotonic — the billed totals never decrease — and an emitted
    /// charge is the accumulated price-weighted energy, in whole
    /// centavos, with the remainder carried forward.
    pub fn tick(&mut self, now_s: u64, power_dw: Option<u32>) -> (out: TickOutcome)
        requires
            old(self).wf(),
        ensures
            final(self).wf(),
            old(self).state is OffState ==> *final(self) == *old(self) && out == TickOutcome::Off,
            old(self).state matches State::On(on) ==> ({
                let (res, o) = spec_tick_session(
                    on.cycle_stats,
                    on.start_time_zero_power_s,
                    now_s,
                    power_dw,
                );
                &&& out == o
                &&& match res {
                    None => final(self).state is OffState,
                    Some((st2, zs2)) => final(self).state matches State::On(on2)
                        && on2.cycle_stats == st2 && on2.start_time_zero_power_s == zs2
                        && on2.drier_on_state == on.drier_on_state,
                }
            }),
            old(self).state matches State::On(on1) ==> (final(self).state matches State::On(on2)
                ==> on2.cycle_stats.total_consumed_and_discounted_dj
                >= on1.cycle_stats.total_consumed_and_discounted_dj
                && on2.cycle_stats.total_consumed_and_discounted_centavos
                >= on1.cycle_stats.total_consumed_and_discounted_centavos),
            out matches TickOutcome::DiscountConsumed {
                delta_energy_dj,
                delta_consumed_centavos,
                user,
            } ==> delta_consumed_centavos >= MIN_BILLABLE_CENTAVOS,
    {
        let mut st: State = State::OffState(dryer_machine::OffState::new());
        core::mem::swap(&mut st, &mut self.state);
        match st {
            State::OffState(off) => {
                self.state = State::OffState(off);
                TickOutcome::Off
            },
            State::On(on) => {
                let (new_state, outcome) = Self::process_on_state_tick(on, now_s, power_dw);
                self.state = new_state;
                outcome
            },
        }
    }

    /// Refreshes the session's balance after the ledger accepted a
    /// write. There must be a running session: calling this while off
    /// is a defect.
    pub fn set_user_balance_centavos(&mut self, balance_centavos: u64)
        requires
            old(self).state is On,
            old(self).wf(),
        ensures
            final(self).wf(),
            old(self).state matches State::On(on1) ==> (final(self).state matches State::On(on2)
                && on2.drier_on_state == on1.drier_on_state && on2.start_time_zero_power_s
                == on1.start_time_zero_power_s && on2.cycle_stats == with_balance(
                on1.cycle_stats,
                balance_centavos,
            )),
    {
        match &mut self.state {
            State::On(on) => {
                on.cycle_stats.user.balance_centavos = balance_centavos;
            },
            State::OffState(_) => {
                proof {
                    assert(false);
                }
            },
        }
    }

    /// Forces the machine off whatever the current state, dropping
    /// any session: used when a ledger write failed, to bound
    /// unbilled usage.
    pub fn emergency_turn_off(&mut self)
        ensures
            final(self).state is OffState,
            final(self).wf(),
    {
        let mut st: State = State::OffState(dryer_machine::OffState::new());
        core::mem::swap(&mut st, &mut self.state);
        let new_state = match st {
            State::On(on) => State::OffState(on.drier_on_state.turn_off()),
            State::OffState(off) => State::OffState(off),
        };
        self.state = new_state;
    }
}

/// Balance cutoff: a tick that sees an exhausted balance ends the
/// session with its final totals, whatever the power reading was —
/// even a failed read.
pub proof fn lemma_balance_cutoff(
    stats: CycleStats,
    zero_since: Option<u64>,
    now_s: u64,
    power_dw: Option<u32>,
)
    requires
        stats.user.balance_centavos == 0,
    ensures
        spec_tick_session(stats, zero_since, now_s, power_dw) == (
            None::<(CycleStats, Option<u64>)>,
            TickOutcome::TurnOffAndRemoveUserOutOfMoney(stats),
        ),
{
}

/// Idle auto-off, first step: a tick that reads negligible power with
/// no idle marker set keeps the session and plants the marker at the
/// tick's own time (the idle window cannot have elapsed yet).
pub proof fn lemma_idle_marker_set(stats: CycleStats, now_s: u64, power_dw: u32)
    requires
        stats.user.balance_centavos > 0,
        stats.time_last_tick_update_s <= now_s,
        power_dw <= IDLE_POWER_THRESHOLD_DW,
    ensures
        ({
            let (res, out) = spec_tick_session(stats, None, now_s, Some(power_dw));
            res matches Some((st2, zs2)) && zs2 == Some(now_s)
        }),
{
}

/// Idle auto-off, middle steps: while the idle window has not yet
/// elapsed, a tick that still reads negligible power keeps the
/// session and leaves the marker where it was planted.
pub proof fn lemma_idle_marker_kept(stats: CycleStats, t0: u64, now_s: u64, power_dw: u32)
    requires
        stats.user.balance_centavos > 0,
        stats.time_last_tick_update_s <= now_s,
        power_dw <= IDLE_POWER_THRESHOLD_DW,
        now_s < t0 + TURN_OFF_SECONDS_ZERO_POWER_THRESHOLD,
    ensures
        ({
            let (res, out) = spec_tick_session(stats, Some(t0), now_s, Some(power_dw));
            res matches Some((st2, zs2)) && zs2 == Some(t0)
        }),
{
}

/// Idle auto-off, last step: once negligible power has held from the
/// marker through the whole idle window, the tick ends the session
/// with the totals as they stood — the idle time is never billed
/// further.
pub proof fn lemma_idle_turn_off(stats: CycleStats, t0: u64, now_s: u64, power_dw: u32)
    requires
        stats.user.balance_centavos > 0,
        stats.time_last_tick_update_s <= now_s,
        power_dw <= IDLE_POWER_THRESHOLD_DW,
        now_s >= t0 + TURN_OFF_SECONDS_ZERO_POWER_THRESHOLD,
    ensures
        spec_tick_session(stats, Some(t0), now_s, Some(power_dw)) == (
            None::<(CycleStats, Option<u64>)>,
            TickOutcome::TurnedOffDueToIdleTooLong(stats),
        ),
{
}

/// Idle auto-off, end to end: a session that reads negligible power
/// at some tick and still reads negligible power once the idle window
/// has passed ends in `TurnedOffDueToIdleTooLong`, with the machine
/// off — whatever happened to billing in between.
pub proof fn lemma_idle_two_ticks(stats: CycleStats, t0: u64, t1: u64, p0: u32, p1: u32)
    requires
        session_wf(stats, None),
        stats.user.balance_centavos > 0,
        stats.time_last_tick_update_s <= t0,
        p0 <= IDLE_POWER_THRESHOLD_DW,
        p1 <= IDLE_POWER_THRESHOLD_DW,
        t1 >= t0 + TURN_OFF_SECONDS_ZERO_POWER_THRESHOLD,
    ensures
        ({
            let (res1, out1) = spec_tick_session(stats, None, t0, Some(p0));
            res1 matches Some((st1, zs1)) && ({
                let (res2, out2) = spec_tick_session(st1, zs1, t1, Some(p1));
                res2 is None && out2 == TickOutcome::TurnedOffDueToIdleTooLong(st1)
            })
        }),
{
    lemma_idle_marker_set(stats, t0, p0);
    let (res1, out1) = spec_tick_session(stats, None, t0, Some(p0));
    match res1 {
        Some((st1, zs1)) => {
            lemma_idle_turn_off(st1, t0, t1, p1);
        },
        None => {},
    }
}

/// Billing monotonicity: however a tick leaves a running session, the
/// billed totals never decrease, and an emitted charge is at least
/// the billable minimum.
pub proof fn lemma_billing_monotonic(
    stats: CycleStats,
    zero_since: Option<u64>,
    now_s: u64,
    power_dw: Option<u32>,
)
    ensures
        ({
            let (res, out) = spec_tick_session(stats, zero_since, now_s, power_dw);
            &&& (res matches Some((st2, zs2))
                ==> st2.total_consumed_and_discounted_dj >= stats.total_consumed_and_discounted_dj
                && st2.total_consumed_and_discounted_centavos
                >= stats.total_consumed_and_discounted_centavos)
            &&& (out matches TickOutcome::DiscountConsumed {
                delta_energy_dj,
                delta_consumed_centavos,
                user,
            } ==> delta_consumed_centavos >= MIN_BILLABLE_CENTAVOS)
        }),
{
}

/// A whole run of ticks, each step a time and a power reading (or a
/// failed read): the session's totals and idle marker after all of
/// them, or `None` once any tick ended the session.
pub open spec fn run_ticks(
    stats: CycleStats,
    zero_since: Option<u64>,
    steps: Seq<(u64, Option<u32>)>,
) -> Option<(CycleStats, Option<u64>)>
    decreases steps.len(),
{
    if steps.len() == 0 {
        Some((stats, zero_since))
    } else {
        let (res, out) = spec_tick_session(stats, zero_since, steps[0].0, steps[0].1);
        match res {
            None => None,
            Some((st2, zs2)) => run_ticks(st2, zs2, steps.drop_first()),
        }
    }
}

/// The outcome of the last tick that actually ran in a sequence:
/// either the tick that ended the session, or the final step's.
pub open spec fn run_outcome(
    stats: CycleStats,
    zero_since: Option<u64>,
    steps: Seq<(u64, Option<u32>)>,
) -> TickOutcome
    recommends
        steps.len() >= 1,
    decreases steps.len(),
{
    if steps.len() == 0 {
        arbitrary()
    } else {
        let (res, out) = spec_tick_session(stats, zero_since, steps[0].0, steps[0].1);
        match res {
            None => out,
            Some((st2, zs2)) => if steps.len() == 1 {
                out
            } else {
                run_outcome(st2, zs2, steps.drop_first())
            },
        }
    }
}

/// Every step of the sequence is a successful reading of negligible
/// power.
pub open spec fn all_idle_reads(steps: Seq<(u64, Option<u32>)>) -> bool {
    forall|i: int|
        0 <= i < steps.len() ==> ((#[trigger] steps[i]).1 matches Some(p) && p
            <= IDLE_POWER_THRESHOLD_DW)
}

/// The step times never run backwards, and the first is no earlier
/// than `start`.
pub open spec fn times_nondecreasing_from(steps: Seq<(u64, Option<u32>)>, start: u64) -> bool {
    &&& (steps.len() > 0 ==> steps[0].0 >= start)
    &&& forall|i: int|
        0 <= i < steps.len() - 1 ==> (#[trigger] steps[i]).0 <= steps[i + 1].0
}

/// With the idle marker planted at `t0`, a run of negligible-power
/// ticks whose last step lies past the idle window must end the
/// session, and the tick that ends it reports the idle cutoff.
proof fn lemma_idle_countdown(stats: CycleStats, t0: u64, steps: Seq<(u64, Option<u32>)>)
    requires
        session_wf(stats, Some(t0)),
        stats.user.balance_centavos > 0,
        steps.len() >= 1,
        all_idle_reads(steps),
        times_nondecreasing_from(steps, stats.time_last_tick_update_s),
        steps.last().0 >= t0 + TURN_OFF_SECONDS_ZERO_POWER_THRESHOLD,
    ensures
        run_ticks(stats, Some(t0), steps) is None,
        run_outcome(stats, Some(t0), steps) matches TickOutcome::TurnedOffDueToIdleTooLong(st)
            && st.user.balance_centavos == stats.user.balance_centavos,
    decreases steps.len(),
{
    let (now0, p0) = steps[0];
    let (res, out) = spec_tick_session(stats, Some(t0), now0, p0);
    if now0 >= t0 + TURN_OFF_SECONDS_ZERO_POWER_THRESHOLD {
        assert(res is None);
    } else {
        assert(steps.last().0 > now0);
        assert(steps.len() >= 2);
        match res {
            Some((st2, zs2)) => {
                assert(zs2 == Some(t0));
                assert(st2.user == stats.user);
                assert(session_wf(st2, Some(t0)));
                let rest = steps.drop_first();
                assert(rest.last() == steps.last());
                assert(times_nondecreasing_from(rest, st2.time_last_tick_update_s));
                lemma_idle_countdown(st2, t0, rest);
            },
            None => {
                assert(false);
            },
        }
    }
}

/// Idle auto-off over any tick sequence: a running session whose
/// every subsequent reading is negligible power, for at least the
/// idle window measured from the first such reading, ends with the
/// machine off and `TurnedOffDueToIdleTooLong` as the closing
/// outcome.
pub proof fn lemma_idle_sequence_ends_idle(stats: CycleStats, steps: Seq<(u64, Option<u32>)>)
    requires
        session_wf(stats, None),
        stats.user.balance_centavos > 0,
        steps.len() >= 1,
        all_idle_reads(steps),
        times_nondecreasing_from(steps, stats.time_last_tick_update_s),
        steps.last().0 >= steps[0].0 + TURN_OFF_SECONDS_ZERO_POWER_THRESHOLD,
    ensures
        run_ticks(stats, None, steps) is None,
        run_outcome(stats, None, steps) matches TickOutcome::TurnedOffDueToIdleTooLong(st)
            && st.user.balance_centavos == stats.user.balance_centavos,
{
    let (now0, p0) = steps[0];
    let t0 = now0;
    let (res, out) = spec_tick_session(stats, None, now0, p0);
    assert(steps.last().0 > now0);
    assert(steps.len() >= 2);
    match res {
        Some((st2, zs2)) => {
            assert(zs2 == Some(t0));
            assert(st2.user == stats.user);
            assert(session_wf(st2, Some(t0)));
            let rest = steps.drop_first();
            assert(rest.last() == steps.last());
            assert(times_nondecreasing_from(rest, st2.time_last_tick_update_s));
            lemma_idle_countdown(st2, t0, rest);
        },
        None => {
            assert(false);
        },
    }
}

/// Billing monotonicity over any tick sequence: however many ticks a
/// session survives, and whatever each of them read, the billed
/// totals at the end are at least the totals at the start.
pub proof fn lemma_billing_monotonic_over_sequence(
    stats: CycleStats,
    zero_since: Option<u64>,
    steps: Seq<(u64, Option<u32>)>,
)
    ensures
        run_ticks(stats, zero_since, steps) matches Some((stn, zsn))
            ==> stn.total_consumed_and_discounted_dj >= stats.total_consumed_and_discounted_dj
            && stn.total_consumed_and_discounted_centavos
            >= stats.total_consumed_and_discounted_centavos,
    decreases steps.len(),
{
    if steps.len() == 0 {
    } else {
        let (res, out) = spec_tick_session(stats, zero_since, steps[0].0, steps[0].1);
        match res {
            None => {},
            Some((st2, zs2)) => {
                lemma_billing_monotonic(stats, zero_since, steps[0].0, steps[0].1);
                lemma_billing_monotonic_over_sequence(st2, zs2, steps.drop_first());
            },
        }
    }
}

/// An emitted charge tracks the price of the energy it covers: as
/// long as the accumulators have not saturated, the charge in
/// centavos is within one centavo of the billed energy times the kWh
/// price — the sub-centavo part is carried forward, never dropped.
pub proof fn lemma_charge_tracks_price(
    stats: CycleStats,
    zero_since: Option<u64>,
    now_s: u64,
    power_dw: u32,
)
    requires
        stats.time_last_tick_update_s <= now_s,
        // the carried remainder brackets the unflushed energy's price,
        // as it does whenever nothing has saturated
        pdj_of_dj(stats.partial_undiscounted_accumulated_dj as int)
            <= stats.unbilled_pdj_remainder
            < pdj_of_dj(stats.partial_undiscounted_accumulated_dj as int)
            + DECIJOULES_PER_KWH,
        // this tick's arithmetic stays exact
        power_dw * (now_s - stats.time_last_tick_update_s) <= u64::MAX,
        stats.unbilled_pdj_remainder + pdj_of_dj(
            power_dw * (now_s - stats.time_last_tick_update_s),
        ) <= u64::MAX,
        stats.partial_undiscounted_accumulated_dj + power_dw * (now_s
            - stats.time_last_tick_update_s) <= u64::MAX,
    ensures
        ({
            let (res, out) = spec_tick_session(stats, zero_since, now_s, Some(power_dw));
            out matches TickOutcome::DiscountConsumed {
                delta_energy_dj,
                delta_consumed_centavos,
                user,
            } ==> pdj_of_dj(delta_energy_dj as int) / DECIJOULES_PER_KWH as int
                <= delta_consumed_centavos
                <= pdj_of_dj(delta_energy_dj as int) / DECIJOULES_PER_KWH as int + 1
        }),
{
    let (res, out) = spec_tick_session(stats, zero_since, now_s, Some(power_dw));
    match out {
        TickOutcome::DiscountConsumed { delta_energy_dj, delta_consumed_centavos, user } => {
            let add_dj = power_dw * (now_s - stats.time_last_tick_update_s);
        let st1 = spec_integrate(stats, now_s, power_dw);
        let d = DECIJOULES_PER_KWH as int;
        let pdj1 = st1.unbilled_pdj_remainder as int;
        let lo = pdj_of_dj(delta_energy_dj as int);
        assert(lo <= pdj1 < lo + d) by (nonlinear_arith)
            requires
                pdj1 == stats.unbilled_pdj_remainder + add_dj * COST_CENTAVOS_KWH,
                lo == (stats.partial_undiscounted_accumulated_dj + add_dj)
                    * COST_CENTAVOS_KWH as int,
                d == DECIJOULES_PER_KWH,
                pdj_of_dj(stats.partial_undiscounted_accumulated_dj as int)
                    <= stats.unbilled_pdj_remainder
                    < pdj_of_dj(stats.partial_undiscounted_accumulated_dj as int) + d,
                pdj_of_dj(stats.partial_undiscounted_accumulated_dj as int)
                    == stats.partial_undiscounted_accumulated_dj * COST_CENTAVOS_KWH as int,
        ;
            vstd::arithmetic::div_mod::lemma_div_is_ordered(lo, pdj1, d);
            vstd::arithmetic::div_mod::lemma_div_is_ordered(pdj1, lo + d, d);
            vstd::arithmetic::div_mod::lemma_div_plus_one(lo, d);
            assert(delta_consumed_centavos == pdj1 / d);
        },
        _ => {},
    }
}

/// The status text shown to the user a session bills: elapsed time,
/// cost so far, energy, remaining balance, instantaneous power.
pub open spec fn status_self_seq(stats: CycleStats, now_s: u64, power_dw: u32) -> Seq<char>
    recommends
        stats.start_time_s <= now_s,
{
    "Secando há "@ + text::hour_format_seq((now_s - stats.start_time_s) as nat)
        + ". Custo até o momento: R$"@ + text::hundredths_seq(
        stats.total_consumed_and_discounted_centavos as nat,
    ) + " referentes a "@ + text::hundredths_seq(stats.spec_total_consumed_centikwh() as nat)
        + " kwh consumidos. Saldo remanescente de "@ + text::hundredths_seq(
        stats.user.balance_centavos as nat,
    ) + ". Potencia atual: "@ + text::tenths_seq(power_dw as nat) + "W"@
}

/// The status text shown to a bystander while someone else's session
/// runs: only the active user's name and the elapsed time, plus the
/// bystander's own balance — never the active user's balance or cost.
pub open spec fn status_other_seq(
    name: Seq<char>,
    elapsed_s: nat,
    requester_balance_centavos: nat,
) -> Seq<char> {
    name + " está usando a secadora há: "@ + text::hour_format_seq(elapsed_s)
        + ". O seu saldo remanescente é de: "@ + text::hundredths_seq(requester_balance_centavos)
        + "."@
}

/// The status text when no session runs.
pub open spec fn status_free_seq(requester_balance_centavos: nat) -> Seq<char> {
    "A secadora está livre! Saldo remanescente: "@ + text::hundredths_seq(
        requester_balance_centavos,
    ) + "."@
}

/// The reply to a turn-on request from the user already drying.
pub open spec fn already_using_seq() -> Seq<char> {
    "Você já está usando a secadora."@
}

/// The reply to a turn-on request while someone else dries.
pub open spec fn in_use_by_other_seq(name: Seq<char>, elapsed_s: nat) -> Seq<char> {
    name + " está usando a secadora há: "@ + text::hour_format_seq(elapsed_s)
}

/// The rejection when the requester's balance is below the minimum.
pub open spec fn insufficient_balance_seq(balance_centavos: nat) -> Seq<char> {
    "Você precisa de ao menos 1 reais de saldo para ligar a secadora, você possui: R$"@
        + text::hundredths_seq(balance_centavos) + "."@
}

/// The confirmation after a successful turn-on.
pub open spec fn turned_on_seq(balance_centavos: nat) -> Seq<char> {
    "Ligada, você tem R$"@ + text::hundredths_seq(balance_centavos)
}

/// The generic reply when the hardware refused a turn-on; detail
/// stays in the operator's log, never in user-facing text.
pub open spec fn hardware_problem_seq() -> Seq<char> {
    "Problema de hardware, fale com o operador."@
}

/// The status text for a requester, by machine state and requester
/// identity.
pub open spec fn spec_status_text(
    state: State,
    telegram_id: u64,
    user_balance_centavos: u64,
    now_s: u64,
    power_dw: u32,
) -> Seq<char> {
    match state {
        State::On(on) => if on.cycle_stats.user.telegram_id == telegram_id {
            status_self_seq(on.cycle_stats, now_s, power_dw)
        } else {
            status_other_seq(
                on.cycle_stats.user.name@,
                (now_s - on.cycle_stats.start_time_s) as nat,
                user_balance_centavos as nat,
            )
        },
        State::OffState(_) => status_free_seq(user_balance_centavos as nat),
    }
}

fn render_status_self(stats: &CycleStats, now_s: u64, power_dw: u32) -> (r: String)
    requires
        stats.start_time_s <= now_s,
    ensures
        r@ == status_self_seq(*stats, now_s, power_dw),
{
    let mut s = String::new();
    s.append("Secando há ");
    let part = text::seconds_to_hour_format(now_s - stats.start_time_s);
    s.append(part.as_str());
    s.append(". Custo até o momento: R$");
    let part = text::hundredths_to_string(stats.total_consumed_and_discounted_centavos);
    s.append(part.as_str());
    s.append(" referentes a ");
    let part = text::hundredths_to_string(stats.total_consumed_centikwh());
    s.append(part.as_str());
    s.append(" kwh consumidos. Saldo remanescente de ");
    let part = text::hundredths_to_string(stats.user.balance_centavos);
    s.append(part.as_str());
    s.append(". Potencia atual: ");
    let part = text::tenths_to_string(power_dw as u64);
    s.append(part.as_str());
    s.append("W");
    proof {
        assert(s@ =~= status_self_seq(*stats, now_s, power_dw));
    }
    s
}

fn render_status_other(name: &String, elapsed_s: u64, requester_balance_centavos: u64) -> (r:
    String)
    ensures
        r@ == status_other_seq(name@, elapsed_s as nat, requester_balance_centavos as nat),
{
    let mut s = name.clone();
    s.append(" está usando a secadora há: ");
    let part = text::seconds_to_hour_format(elapsed_s);
    s.append(part.as_str());
    s.append(". O seu saldo remanescente é de: ");
    let part = text::hundredths_to_string(requester_balance_centavos);
    s.append(part.as_str());
    s.append(".");
    proof {
        assert(s@ =~= status_other_seq(
            name@,
            elapsed_s as nat,
            requester_balance_centavos as nat,
        ));
    }
    s
}

fn render_status_free(requester_balance_centavos: u64) -> (r: String)
    ensures
        r@ == status_free_seq(requester_balance_centavos as nat),
{
    let mut s = String::new();
    s.append("A secadora está livre! Saldo remanescente: ");
    let part = text::hundredths_to_string(requester_balance_centavos);
    s.append(part.as_str());
    s.append(".");
    proof {
        assert(s@ =~= status_free_seq(requester_balance_centavos as nat));
    }
    s
}

fn render_in_use_by_other(name: &String, elapsed_s: u64) -> (r: String)
    ensures
        r@ == in_use_by_other_seq(name@, elapsed_s as nat),
{
    let mut s = name.clone();
    s.append(" está usando a secadora há: ");
    let part = text::seconds_to_hour_format(elapsed_s);
    s.append(part.as_str());
    proof {
        assert(s@ =~= in_use_by_other_seq(name@, elapsed_s as nat));
    }
    s
}

fn render_insufficient_balance(balance_centavos: u64) -> (r: String)
    ensures
        r@ == insufficient_balance_seq(balance_centavos as nat),
{
    let mut s = String::new();
    s.append("Você precisa de ao menos 1 reais de saldo para ligar a secadora, você possui: R$");
    let part = text::hundredths_to_string(balance_centavos);
    s.append(part.as_str());
    s.append(".");
    proof {
        assert(s@ =~= insufficient_balance_seq(balance_centavos as nat));
    }
    s
}

fn render_turned_on(balance_centavos: u64) -> (r: String)
    ensures
        r@ == turned_on_seq(balance_centavos as nat),
{
    let mut s = String::new();
    s.append("Ligada, você tem R$");
    let part = text::hundredths_to_string(balance_centavos);
    s.append(part.as_str());
    proof {
        assert(s@ =~= turned_on_seq(balance_centavos as nat));
    }
    s
}

fn render_hardware_problem() -> (r: String)
    ensures
        r@ == hardware_problem_seq(),
{
    let mut s = String::new();
    s.append("Problema de hardware, fale com o operador.");
    proof {
        assert(s@ =~= hardware_problem_seq());
    }
    s
}

/// A session's totals with the balance replaced.
pub open spec fn with_balance(stats: CycleStats, balance_centavos: u64) -> CycleStats {
    CycleStats {
        start_time_s: stats.start_time_s,
        time_last_tick_update_s: stats.time_last_tick_update_s,
        partial_undiscounted_accumulated_dj: stats.partial_undiscounted_accumulated_dj,
        unbilled_pdj_remainder: stats.unbilled_pdj_remainder,
        total_consumed_and_discounted_dj: stats.total_consumed_and_discounted_dj,
        total_consumed_and_discounted_centavos: stats.total_consumed_and_discounted_centavos,
        user: User {
            telegram_id: stats.user.telegram_id,
            chat_id: stats.user.chat_id,
            name: stats.user.name,
            balance_centavos,
        },
    }
}

/// The totals of a session that starts at `now_s` for the requester,
/// billed against the ledger record `db_user`.
pub open spec fn fresh_session_stats(
    user: UserMessage,
    db_user: database::User,
    now_s: u64,
) -> CycleStats {
    CycleStats {
        start_time_s: now_s,
        time_last_tick_update_s: now_s,
        partial_undiscounted_accumulated_dj: 0,
        unbilled_pdj_remainder: 0,
        total_consumed_and_discounted_dj: 0,
        total_consumed_and_discounted_centavos: 0,
        user: User {
            telegram_id: user.user_id,
            chat_id: user.chat_id,
            name: db_user.name,
            balance_centavos: db_user.balance_centavos,
        },
    }
}

/// What a turn-on request decided: an immediate textual reply, or the
/// go-ahead to attempt the hardware sequence (relay, reset, verify)
/// and then call [`DryerManager::finish_turn_on`] with its outcome.
pub enum TurnOnOutcome {
    Reply(String),
    ProceedToHardware,
}

/// The supervisor's answer to one inbound message: a finished reply,
/// or the go-ahead for the hardware turn-on sequence.
pub enum MsgReply {
    Reply(OutgoingMessage),
    AttemptTurnOn,
}

impl DryerManager {
    /// Decides a turn-on request against the current state without
    /// touching hardware: an already-running session or a short
    /// balance gets its reply; otherwise the hardware sequence may
    /// proceed. The state itself is returned unchanged.
    pub fn handle_turn_state_change(
        current: State,
        user: &UserMessage,
        db_user: &database::User,
        now_s: u64,
    ) -> (r: (State, TurnOnOutcome))
        requires
            current matches State::On(on) ==> now_s >= on.cycle_stats.start_time_s,
        ensures
            r.0 == current,
            current matches State::On(on) ==> (if on.cycle_stats.user.telegram_id == user.user_id {
                r.1 matches TurnOnOutcome::Reply(t) && t@ == already_using_seq()
            } else {
                r.1 matches TurnOnOutcome::Reply(t) && t@ == in_use_by_other_seq(
                    on.cycle_stats.user.name@,
                    (now_s - on.cycle_stats.start_time_s) as nat,
                )
            }),
            current is OffState ==> (if db_user.balance_centavos <= MIN_CENTAVOS_TURN_ON {
                r.1 matches TurnOnOutcome::Reply(t) && t@ == insufficient_balance_seq(
                    db_user.balance_centavos as nat,
                )
            } else {
                r.1 is ProceedToHardware
            }),
    {
        match current {
            State::On(on) => {
                let reply: String = if on.cycle_stats.user.telegram_id == user.user_id {
                    let mut s = String::new();
                    s.append("Você já está usando a secadora.");
                    proof {
                        assert(s@ =~= already_using_seq());
                    }
                    s
                } else {
                    render_in_use_by_other(
                        &on.cycle_stats.user.name,
                        now_s - on.cycle_stats.start_time_s,
                    )
                };
                (State::On(on), TurnOnOutcome::Reply(reply))
            },
            State::OffState(off) => {
                if db_user.balance_centavos <= MIN_CENTAVOS_TURN_ON {
                    (
                        State::OffState(off),
                        TurnOnOutcome::Reply(
                            render_insufficient_balance(db_user.balance_centavos),
                        ),
                    )
                } else {
                    (State::OffState(off), TurnOnOutcome::ProceedToHardware)
                }
            },
        }
    }

    /// Builds the fresh session around a machine that reached its on
    /// state.
    fn turn_on_for_user(
        drier_on_state: dryer_machine::OnState,
        user: &UserMessage,
        db_user: &database::User,
        now_s: u64,
    ) -> (r: OnState)
        ensures
            r.cycle_stats == fresh_session_stats(*user, *db_user, now_s),
            r.start_time_zero_power_s is None,
            r.drier_on_state == drier_on_state,
    {
        OnState {
            drier_on_state,
            start_time_zero_power_s: None,
            cycle_stats: CycleStats {
                start_time_s: now_s,
                time_last_tick_update_s: now_s,
                partial_undiscounted_accumulated_dj: 0,
                unbilled_pdj_remainder: 0,
                total_consumed_and_discounted_dj: 0,
                total_consumed_and_discounted_centavos: 0,
                user: User {
                    telegram_id: user.user_id,
                    chat_id: user.chat_id,
                    name: db_user.name.clone(),
                    balance_centavos: db_user.balance_centavos,
                },
            },
        }
    }

    /// Completes a turn-on the decision allowed: the caller attempted
    /// the relay assert and, if that held, the reset-and-verify
    /// exchange, and reports both here. Success starts a fresh
    /// session; any failure leaves the supervisor off (the caller
    /// releases the relay again, best effort) and the user sees only
    /// the generic hardware message.
    pub fn finish_turn_on(
        &mut self,
        user: &UserMessage,
        db_user: &database::User,
        now_s: u64,
        relay_ok: bool,
        reset_outcome: Result<u32, DeviceError>,
    ) -> (r: OutgoingMessage)
        requires
            old(self).state is OffState,
        ensures
            final(self).wf(),
            r.update_message_with_id == user.message_id,
            r.chat_id == user.chat_id,
            r.send_buttons == true,
            relay_ok && reset_outcome == Result::<u32, DeviceError>::Ok(0u32) ==> (final(self).state matches State::On(on) && on.cycle_stats == fresh_session_stats(
                *user,
                *db_user,
                now_s,
            ) && on.start_time_zero_power_s is None && r.text@ == turned_on_seq(
                db_user.balance_centavos as nat,
            )),
            !(relay_ok && reset_outcome == Result::<u32, DeviceError>::Ok(0u32)) ==> (final(self).state is OffState && r.text@ == hardware_problem_seq()),
    {
        let mut st: State = State::OffState(dryer_machine::OffState::new());
        core::mem::swap(&mut st, &mut self.state);
        let text: String = match st {
            State::OffState(off) => {
                match off.turn_on(relay_ok) {
                    Err((off2, _e)) => {
                        self.state = State::OffState(off2);
                        render_hardware_problem()
                    },
                    Ok(pending) => {
                        match pending.confirm_reset(reset_outcome) {
                            Ok(on_token) => {
                                self.state = State::On(
                                    Self::turn_on_for_user(on_token, user, db_user, now_s),
                                );
                                render_turned_on(db_user.balance_centavos)
                            },
                            Err((off2, _e)) => {
                                self.state = State::OffState(off2);
                                render_hardware_problem()
                            },
                        }
                    },
                }
            },
            State::On(on) => {
                proof {
                    assert(false);
                }
                self.state = State::On(on);
                String::new()
            },
        };
        OutgoingMessage {
            update_message_with_id: user.message_id,
            chat_id: user.chat_id,
            text,
            send_buttons: true,
        }
    }

    /// The status line for `telegram_id`, whose own persisted balance
    /// is `user_balance_centavos`; `power_dw` is the instantaneous
    /// reading, used only in the active user's own report. A
    /// bystander's report never carries the active user's balance or
    /// cost figures.
    pub fn get_status_message(
        &self,
        telegram_id: u64,
        user_balance_centavos: u64,
        now_s: u64,
        power_dw: u32,
    ) -> (r: String)
        requires
            self.state matches State::On(on) ==> now_s >= on.cycle_stats.start_time_s,
        ensures
            r@ == spec_status_text(self.state, telegram_id, user_balance_centavos, now_s, power_dw),
    {
        match &self.state {
            State::On(on) => {
                if on.cycle_stats.user.telegram_id == telegram_id {
                    render_status_self(&on.cycle_stats, now_s, power_dw)
                } else {
                    render_status_other(
                        &on.cycle_stats.user.name,
                        now_s - on.cycle_stats.start_time_s,
                        user_balance_centavos,
                    )
                }
            },
            State::OffState(_) => render_status_free(user_balance_centavos),
        }
    }

    /// Dispatches one inbound message: status requests are answered
    /// in place, a turn-on request is either refused with its reason
    /// or handed back as [`MsgReply::AttemptTurnOn`] for the caller to
    /// drive the hardware. The supervisor state never changes here.
    pub fn handle_telegram_msg(
        &mut self,
        user_msg: &UserMessage,
        db_user: &database::User,
        now_s: u64,
        power_dw: u32,
    ) -> (r: MsgReply)
        requires
            old(self).wf(),
            old(self).state matches State::On(on) ==> now_s >= on.cycle_stats.start_time_s,
        ensures
            *final(self) == *old(self),
            user_msg.update is GenericMsg ==> (r matches MsgReply::Reply(m)
                && m.update_message_with_id is None && m.chat_id == user_msg.chat_id
                && m.send_buttons == true && m.text@ == spec_status_text(
                old(self).state,
                user_msg.user_id,
                db_user.balance_centavos,
                now_s,
                power_dw,
            )),
            user_msg.update is Update ==> (r matches MsgReply::Reply(m)
                && m.update_message_with_id == user_msg.message_id && m.chat_id == user_msg.chat_id
                && m.send_buttons == true && m.text@ == spec_status_text(
                old(self).state,
                user_msg.user_id,
                db_user.balance_centavos,
                now_s,
                power_dw,
            )),
            user_msg.update is TurnOn ==> match old(self).state {
                State::On(on) => r matches MsgReply::Reply(m) && m.update_message_with_id
                    == user_msg.message_id && m.chat_id == user_msg.chat_id && m.send_buttons
                    == true && m.text@ == (if on.cycle_stats.user.telegram_id == user_msg.user_id {
                    already_using_seq()
                } else {
                    in_use_by_other_seq(
                        on.cycle_stats.user.name@,
                        (now_s - on.cycle_stats.start_time_s) as nat,
                    )
                }),
                State::OffState(_) => if db_user.balance_centavos <= MIN_CENTAVOS_TURN_ON {
                    r matches MsgReply::Reply(m) && m.update_message_with_id == user_msg.message_id
                        && m.chat_id == user_msg.chat_id && m.send_buttons == true && m.text@
                        == insufficient_balance_seq(db_user.balance_centavos as nat)
                } else {
                    r is AttemptTurnOn
                },
            },
    {
        match user_msg.update {
            MsgType::GenericMsg => {
                let text = self.get_status_message(
                    user_msg.user_id,
                    db_user.balance_centavos,
                    now_s,
                    power_dw,
                );
                MsgReply::Reply(
                    OutgoingMessage {
                        update_message_with_id: None,
                        chat_id: user_msg.chat_id,
                        text,
                        send_buttons: true,
                    },
                )
            },
            MsgType::Update => {
                let text = self.get_status_message(
                    user_msg.user_id,
                    db_user.balance_centavos,
                    now_s,
                    power_dw,
                );
                MsgReply::Reply(
                    OutgoingMessage {
                        update_message_with_id: user_msg.message_id,
                        chat_id: user_msg.chat_id,
                        text,
                        send_buttons: true,
                    },
                )
            },
            MsgType::TurnOn => {
                let mut st: State = State::OffState(dryer_machine::OffState::new());
                core::mem::swap(&mut st, &mut self.state);
                let (st, outcome) = Self::handle_turn_state_change(st, user_msg, db_user, now_s);
                self.state = st;
                match outcome {
                    TurnOnOutcome::Reply(text) => MsgReply::Reply(
                        OutgoingMessage {
                            update_message_with_id: user_msg.message_id,
                            chat_id: user_msg.chat_id,
                            text,
                            send_buttons: true,
                        },
                    ),
                    TurnOnOutcome::ProceedToHardware => MsgReply::AttemptTurnOn,
                }
            },
        }
    }
}

} // verus!
