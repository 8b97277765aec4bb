//! The request/response sequencing decisions of the client.
//!
//! The client performs two exchanges per fetch — state of charge first,
//! then voltages — and merges the two decoded payloads into one snapshot;
//! a failure anywhere aborts the whole fetch, so partial telemetry is never
//! returned. Connecting is retried a bounded number of times. The transport
//! itself (discovery, connecting, writing commands, the notification
//! stream) lives outside the library; this module holds the decisions the
//! caller's I/O loop consumes.

use vstd::prelude::*;

use crate::battery_state::BatteryState;
use crate::message::soc_message::{SocMessage, CYCLES_COUNT_WORD, RESIDUAL_CAPACITY_WORD,
    SOC_PCT_WORD};
use crate::message::spec_words;
use crate::message::voltages_message::{populated_cells, VoltagesMessage, BATTERY_VOLTAGE_WORD,
    CELL_SLOT_COUNT};

verus! {

/// The bounded retry discipline for the connect step: how many attempts in
/// all may be made before a connect failure is surfaced.
pub struct RetryPolicy {
    /// How many attempts are allowed; at least one is always made.
    pub max_attempts: u32,
}

impl RetryPolicy {
    /// The default discipline: one attempt and two retries, no backoff.
    pub fn new_default() -> (r: Self)
        ensures
            r.max_attempts == 3,
    {
        RetryPolicy { max_attempts: 3 }
    }

    /// After `failed_attempts` failures, may one more attempt be made?
    pub fn allows_another_attempt(&self, failed_attempts: u32) -> (r: bool)
        ensures
            r == (failed_attempts < self.max_attempts),
    {
        failed_attempts < self.max_attempts
    }
}

/// Merge the two decoded response messages into one snapshot.
pub fn compose_state(soc: &SocMessage, voltages: &VoltagesMessage) -> (r: BatteryState)
    requires
        soc.wf(),
        voltages.wf(),
    ensures
        r.state_of_charge_pct == soc@[SOC_PCT_WORD as int],
        r.residual_capacity_cah == soc@[RESIDUAL_CAPACITY_WORD as int],
        r.cycles_count == soc@[CYCLES_COUNT_WORD as int],
        r.cell_voltage_mv@ == populated_cells(voltages@.take(CELL_SLOT_COUNT as int)),
        r.battery_voltage_cv == voltages@[BATTERY_VOLTAGE_WORD as int],
{
    BatteryState {
        state_of_charge_pct: soc.state_of_charge_pct(),
        residual_capacity_cah: soc.residual_capacity_cah(),
        cycles_count: soc.cycles_count(),
        cell_voltage_mv: voltages.cell_voltage_mv(),
        battery_voltage_cv: voltages.battery_voltage_cv(),
    }
}

/// Decode the two response payloads of one fetch into a snapshot. Succeeds
/// exactly when each payload carries enough words for its fields; a payload
/// short of that yields `None`, never a partial snapshot.
pub fn decode_battery_state(soc_payload: Vec<u8>, voltages_payload: Vec<u8>) -> (r: Option<
    BatteryState,
>)
    ensures
        match r {
            Some(state) => {
                let soc = spec_words(soc_payload@);
                let voltages = spec_words(voltages_payload@);
                &&& soc.len() > CYCLES_COUNT_WORD
                &&& voltages.len() > BATTERY_VOLTAGE_WORD
                &&& state.state_of_charge_pct == soc[SOC_PCT_WORD as int]
                &&& state.residual_capacity_cah == soc[RESIDUAL_CAPACITY_WORD as int]
                &&& state.cycles_count == soc[CYCLES_COUNT_WORD as int]
                &&& state.cell_voltage_mv@ == populated_cells(
                    voltages.take(CELL_SLOT_COUNT as int),
                )
                &&& state.battery_voltage_cv == voltages[BATTERY_VOLTAGE_WORD as int]
            },
            None => spec_words(soc_payload@).len() <= CYCLES_COUNT_WORD || spec_words(
                voltages_payload@,
            ).len() <= BATTERY_VOLTAGE_WORD,
        },
{
    let soc = SocMessage::new(soc_payload);
    let voltages = VoltagesMessage::new(voltages_payload);
    if soc.word_count() <= CYCLES_COUNT_WORD || voltages.word_count() <= BATTERY_VOLTAGE_WORD {
        return None;
    }
    Some(compose_state(&soc, &voltages))
}

} // verus!
