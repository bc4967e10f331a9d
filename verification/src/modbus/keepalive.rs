//! Encoding of the `SmartGrid` mode held by the keepalive task, which
//! refreshes control register 1100 before the device's five-minute timeout.

use vstd::prelude::*;
use super::{SmartGridMode, SMARTGRID_KEEPALIVE_INTERVAL_SECS};

verus! {

/// The byte under which the keepalive task stores a mode (the mode's
/// control-register bits: 0x00, 0x40, 0x80, 0xC0).
pub open spec fn spec_mode_code(mode: SmartGridMode) -> u8 {
    match mode {
        SmartGridMode::Normal => 0x00,
        SmartGridMode::Blocking => 0x40,
        SmartGridMode::LowPrice => 0x80,
        SmartGridMode::Overcapacity => 0xC0,
    }
}

pub open spec fn spec_mode_from_code(code: u8) -> SmartGridMode {
    if code == 0x40 {
        SmartGridMode::Blocking
    } else if code == 0x80 {
        SmartGridMode::LowPrice
    } else if code == 0xC0 {
        SmartGridMode::Overcapacity
    } else {
        SmartGridMode::Normal
    }
}

/// The byte stored for `mode`.
pub fn mode_code(mode: SmartGridMode) -> (r: u8)
    ensures
        r == spec_mode_code(mode),
{
    match mode {
        SmartGridMode::Normal => 0x00,
        SmartGridMode::Blocking => 0x40,
        SmartGridMode::LowPrice => 0x80,
        SmartGridMode::Overcapacity => 0xC0,
    }
}

/// The mode a stored byte stands for; an unknown byte reads as `Normal`.
pub fn mode_from_code(code: u8) -> (r: SmartGridMode)
    ensures
        r == spec_mode_from_code(code),
{
    match code {
        0x40 => SmartGridMode::Blocking,
        0x80 => SmartGridMode::LowPrice,
        0xC0 => SmartGridMode::Overcapacity,
        _ => SmartGridMode::Normal,
    }
}

/// The keepalive task's state: the mode to refresh (stored as its code)
/// and the refresh interval. The task itself, which writes the mode to the
/// actor on every tick, runs in the application.
///
/// The state cannot be copied or cloned: there is one of it, and every
/// holder (the refresh task and whoever changes the mode) reaches that one
/// value through a shared owner, so a mode set by any holder is the mode
/// every holder reads next.
#[derive(Debug)]
pub struct SmartGridKeepalive {
    pub current_mode: u8,
    pub interval_secs: u64,
}

impl SmartGridKeepalive {
    /// Start with `initial_mode`; the interval defaults to
    /// `SMARTGRID_KEEPALIVE_INTERVAL_SECS`.
    pub fn new(initial_mode: SmartGridMode, interval_secs: Option<u64>) -> (r: Self)
        ensures
            r.current_mode == spec_mode_code(initial_mode),
            r.interval_secs == (match interval_secs {
                Some(i) => i,
                None => SMARTGRID_KEEPALIVE_INTERVAL_SECS,
            }),
    {
        let interval = match interval_secs {
            Some(i) => i,
            None => SMARTGRID_KEEPALIVE_INTERVAL_SECS,
        };
        SmartGridKeepalive { current_mode: mode_code(initial_mode), interval_secs: interval }
    }

    /// Refresh `mode` from now on.
    pub fn set_mode(&mut self, mode: SmartGridMode)
        ensures
            final(self).current_mode == spec_mode_code(mode),
            final(self).interval_secs == old(self).interval_secs,
    {
        self.current_mode = mode_code(mode);
    }

    /// The mode being refreshed.
    pub fn get_mode(&self) -> (r: SmartGridMode)
        ensures
            r == spec_mode_from_code(self.current_mode),
    {
        mode_from_code(self.current_mode)
    }
}

/// The keepalive stores a mode as the very value written to the control
/// register for it.
pub proof fn stored_code_is_register_value(mode: SmartGridMode)
    ensures
        spec_mode_code(mode) as u16 == super::spec_register_value(mode),
{
}

/// Reading back the stored mode gives the mode last stored.
pub proof fn stored_mode_roundtrip(mode: SmartGridMode)
    ensures
        spec_mode_from_code(spec_mode_code(mode)) == mode,
{
}

} // verus!
