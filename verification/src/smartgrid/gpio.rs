//! Bookkeeping of the `SmartGrid` relay controller: the mode last driven
//! onto the K24/K25 lines, when it changed, and the supersession counter
//! used by scheduled resumes. The line request itself is held by the
//! application, which writes the levels computed here.

use vstd::prelude::*;
use super::mode::{SmartGridMode, spec_terminal_states};

verus! {

/// Relay bookkeeping for the two `SmartGrid` terminals.
pub struct GpioController {
    pub gpio_k24: u32,
    pub gpio_k25: u32,
    /// True if the relay board is active-low (LOW = relay on).
    pub active_low: bool,
    pub current_mode: SmartGridMode,
    /// Nanoseconds since the Unix epoch of the last mode change.
    pub mode_changed_at: Option<u128>,
    pub mode_generation: u64,
}

/// GPIO level (true = high) that puts a terminal in the requested state.
pub open spec fn spec_gpio_level(active_low: bool, closed: bool) -> bool {
    if active_low { !closed } else { closed }
}

/// The controller after the lines were successfully driven to `mode` at
/// `now`: the mode is recorded, the change time moves only when the mode
/// changes, and nothing else changes.
pub open spec fn after_write(c: GpioController, mode: SmartGridMode, now: u128) -> GpioController {
    GpioController {
        current_mode: mode,
        mode_changed_at: if c.current_mode != mode {
            Some(now)
        } else {
            c.mode_changed_at
        },
        ..c
    }
}

/// The controller after a manual change moved the generation on.
pub open spec fn bumped(c: GpioController) -> GpioController {
    GpioController { mode_generation: (c.mode_generation + 1) as u64, ..c }
}

impl GpioController {
    pub open spec fn spec_mode(&self) -> SmartGridMode {
        self.current_mode
    }

    pub open spec fn spec_changed_at(&self) -> Option<u128> {
        self.mode_changed_at
    }

    pub open spec fn spec_generation(&self) -> u64 {
        self.mode_generation
    }

    /// A controller for pins `gpio_k24`/`gpio_k25`, in `Normal` mode (both
    /// terminals open) with no recorded change.
    pub fn new(gpio_k24: u32, gpio_k25: u32, active_low: bool) -> (r: Self)
        ensures
            r.gpio_k24 == gpio_k24,
            r.gpio_k25 == gpio_k25,
            r.active_low == active_low,
            r.spec_mode() == SmartGridMode::Normal,
            r.spec_changed_at() is None,
            r.spec_generation() == 0,
    {
        GpioController {
            gpio_k24,
            gpio_k25,
            active_low,
            current_mode: SmartGridMode::Normal,
            mode_changed_at: None,
            mode_generation: 0,
        }
    }

    /// Current mode-generation counter.
    pub fn mode_generation(&self) -> (r: u64)
        ensures
            r == self.spec_generation(),
    {
        self.mode_generation
    }

    /// Mark a manual mode change: any resume scheduled under an earlier
    /// generation is superseded.
    pub fn bump_mode_generation(&mut self)
        requires
            old(self).spec_generation() < u64::MAX,
        ensures
            *final(self) == bumped(*old(self)),
            final(self).spec_generation() == old(self).spec_generation() + 1,
            final(self).spec_mode() == old(self).spec_mode(),
            final(self).spec_changed_at() == old(self).spec_changed_at(),
            final(self).gpio_k24 == old(self).gpio_k24,
            final(self).gpio_k25 == old(self).gpio_k25,
            final(self).active_low == old(self).active_low,
    {
        self.mode_generation = self.mode_generation + 1;
    }

    /// Last mode driven onto the terminals.
    pub fn read_mode(&self) -> (r: SmartGridMode)
        ensures
            r == self.spec_mode(),
    {
        self.current_mode
    }

    /// When the mode last changed, if it has since start-up.
    pub fn mode_changed_at(&self) -> (r: Option<u128>)
        ensures
            r == self.spec_changed_at(),
    {
        self.mode_changed_at
    }

    /// GPIO levels (K24, K25) that drive the terminals to `mode`.
    pub fn gpio_levels(&self, mode: SmartGridMode) -> (r: (bool, bool))
        ensures
            r == (
                spec_gpio_level(self.active_low, spec_terminal_states(mode).0),
                spec_gpio_level(self.active_low, spec_terminal_states(mode).1),
            ),
    {
        let (k24_closed, k25_closed) = mode.terminal_states();
        (gpio_level(self.active_low, k24_closed), gpio_level(self.active_low, k25_closed))
    }

    /// Record that the lines now drive `mode` (the hardware write succeeded
    /// at time `now`). The change time moves only when the mode changes.
    pub fn record_mode_written(&mut self, mode: SmartGridMode, now: u128)
        ensures
            *final(self) == after_write(*old(self), mode, now),
            final(self).spec_mode() == mode,
            final(self).spec_changed_at() == (if old(self).spec_mode() != mode {
                Some(now)
            } else {
                old(self).spec_changed_at()
            }),
            final(self).spec_generation() == old(self).spec_generation(),
            final(self).gpio_k24 == old(self).gpio_k24,
            final(self).gpio_k25 == old(self).gpio_k25,
            final(self).active_low == old(self).active_low,
    {
        if self.current_mode != mode {
            self.mode_changed_at = Some(now);
        }
        self.current_mode = mode;
    }

    /// Drive the terminals to `mode`. `write_result` is the result of writing
    /// the levels from `gpio_levels(mode)` onto the held line request at time
    /// `now`. A failed write changes nothing and hands its error back; a
    /// successful one records the mode, and stamps the change time only when
    /// the mode differs from the one already driven.
    pub fn set_mode(&mut self, mode: SmartGridMode, write_result: Result<(), String>, now: u128) -> (r:
        Result<(), String>)
        ensures
            r == write_result,
            write_result is Err ==> *final(self) == *old(self),
            write_result is Ok ==> *final(self) == after_write(*old(self), mode, now),
    {
        if write_result.is_ok() {
            self.record_mode_written(mode, now);
        }
        write_result
    }

    /// Apply `mode` from a scheduled resume only if no manual change happened
    /// since `expected_generation` was captured. `write_result` is the result
    /// of the line write, which the caller makes only when not superseded.
    /// Returns `Ok(true)` when applied, `Ok(false)` when superseded.
    pub fn set_mode_if_not_superseded(
        &mut self,
        mode: SmartGridMode,
        expected_generation: u64,
        write_result: Result<(), String>,
        now: u128,
    ) -> (r: Result<bool, String>)
        ensures
            old(self).spec_generation() != expected_generation ==> r == Ok::<bool, String>(false)
                && *final(self) == *old(self),
            old(self).spec_generation() == expected_generation ==> match write_result {
                Ok(()) => r == Ok::<bool, String>(true) && *final(self) == after_write(
                    *old(self),
                    mode,
                    now,
                ),
                Err(e) => r == Err::<bool, String>(e) && *final(self) == *old(self),
            },
    {
        if self.mode_generation != expected_generation {
            return Ok(false);
        }
        match self.set_mode(mode, write_result, now) {
            Ok(()) => Ok(true),
            Err(e) => Err(e),
        }
    }
}

/// A successful line write sets the mode; re-applying the current mode keeps
/// the change time, a new mode stamps it with the write's time; the pins,
/// polarity and generation stay as they were.
pub proof fn line_write_records_mode(c: GpioController, mode: SmartGridMode, now: u128)
    ensures
        after_write(c, mode, now).current_mode == mode,
        mode == c.current_mode ==> after_write(c, mode, now).mode_changed_at == c.mode_changed_at,
        mode != c.current_mode ==> after_write(c, mode, now).mode_changed_at == Some(now),
        after_write(c, mode, now).mode_generation == c.mode_generation,
        after_write(c, mode, now).gpio_k24 == c.gpio_k24 && after_write(c, mode, now).gpio_k25
            == c.gpio_k25 && after_write(c, mode, now).active_low == c.active_low,
{
}

/// GPIO level (true = high) for a terminal state on a board of the given polarity.
pub fn gpio_level(active_low: bool, closed: bool) -> (r: bool)
    ensures
        r == spec_gpio_level(active_low, closed),
{
    if active_low {
        !closed
    } else {
        closed
    }
}

} // verus!
