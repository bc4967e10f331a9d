//! Decisions of the "block + warm-by deadline" heat-up that need no I/O.

use vstd::prelude::*;

verus! {

/// Heat-pump status register value that means the compressor is heating.
pub const HP_STATUS_HEATING: i64 = 3;

/// Modbus register for the hot-water tank-top temperature.
pub const REG_DHW_UPPER: u16 = 62276;

/// Modbus register for the heat-pump compressor status.
pub const REG_HP_STATUS: u16 = 62017;

/// A resolved warm-by request handed from the route to the actor.
#[derive(Debug, Clone, Copy)]
pub struct WarmByCommand {
    /// When to flip to Normal and start heating, in nanoseconds since the
    /// Unix epoch. `None` means the tank will still be warm enough at the
    /// deadline: just block, no heat-up.
    pub heatup_start: Option<u128>,
}

pub open spec fn spec_is_heating(hp_status: Option<i64>) -> bool {
    hp_status == Some(HP_STATUS_HEATING)
}

/// Whether a heat-pump status reading indicates active heating.
pub fn is_heating(hp_status: Option<i64>) -> (r: bool)
    ensures
        r == spec_is_heating(hp_status),
{
    match hp_status {
        Some(s) => s == HP_STATUS_HEATING,
        None => false,
    }
}

/// True once the heat pump has run and then turned off. A failed status
/// read (`None`) is "not stopped": keep waiting.
pub fn heatup_complete(hp_status: Option<i64>, seen_heating: bool) -> (r: bool)
    ensures
        r == (seen_heating && hp_status is Some && hp_status != Some(HP_STATUS_HEATING)),
{
    seen_heating && match hp_status {
        Some(s) => s != HP_STATUS_HEATING,
        None => false,
    }
}

/// A tick that still reads "heating" never completes the heat-up, and once
/// the tick's own reading is folded into `seen_heating`, completion means the
/// compressor was seen heating earlier and this reading is a valid non-heating one.
pub proof fn heatup_never_completes_while_heating(hp_status: Option<i64>, seen_before: bool)
    ensures
        ({
            let seen = seen_before || spec_is_heating(hp_status);
            let done = seen && hp_status is Some && hp_status != Some(HP_STATUS_HEATING);
            &&& spec_is_heating(hp_status) ==> !done
            &&& done ==> seen_before && hp_status is Some && !spec_is_heating(hp_status)
        }),
{
}

} // verus!
