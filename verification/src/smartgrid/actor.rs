//! State machine of the `SmartGrid` actor. The actor task owns the relay
//! controller and the pending auto-resume; every command is processed
//! serially. This module decides each transition; the application performs
//! the line writes, runs the resume timer and replies to callers.

use vstd::prelude::*;
use vstd::string::*;
use super::gpio::{GpioController, after_write, bumped};
use super::mode::SmartGridMode;
use crate::text::string_from_chars;

verus! {

/// Pump desired state for a mode: off only while actively blocking.
pub fn pump_on_for(mode: SmartGridMode) -> (r: bool)
    ensures
        r == (mode != SmartGridMode::Blocking),
{
    !matches!(mode, SmartGridMode::Blocking)
}

/// Pump target: a boost override wins when set; otherwise the `SmartGrid` intent.
pub fn resolve_pump_target(boost_override: Option<bool>, sg_on: bool) -> (r: bool)
    ensures
        r == match boost_override {
            Some(v) => v,
            None => sg_on,
        },
{
    match boost_override {
        Some(v) => v,
        None => sg_on,
    }
}

/// Resume instant for a scheduling mode change: an explicit choice wins over
/// the automatically computed target.
pub fn resolve_fires_at(resume_at: Option<u128>, computed: Option<u128>) -> (r: Option<u128>)
    ensures
        r == match resume_at {
            Some(t) => Some(t),
            None => computed,
        },
{
    match resume_at {
        Some(t) => Some(t),
        None => computed,
    }
}

/// Errors a `SetMode` command can surface.
#[derive(Debug)]
pub enum ApplyModeError {
    Gpio(String),
}

impl ApplyModeError {
    /// Human-readable message: `GPIO error: <detail>`.
    pub fn to_message(&self) -> (r: String)
        ensures
            match self {
                ApplyModeError::Gpio(e) => r@ == "GPIO error: "@ + e@,
            },
    {
        match self {
            ApplyModeError::Gpio(e) => {
                let mut s = String::from_str("GPIO error: ");
                s.append(e.as_str());
                s
            },
        }
    }
}

/// Errors of a command sent to the actor.
#[derive(Debug)]
pub enum SmartGridError {
    /// The actor task is no longer running (shutdown).
    ActorGone,
    Apply(ApplyModeError),
    Internal(String),
}

impl SmartGridError {
    /// Human-readable message.
    pub fn to_message(&self) -> (r: String)
        ensures
            match self {
                SmartGridError::ActorGone => r@ == "SmartGrid actor unavailable"@,
                SmartGridError::Apply(ApplyModeError::Gpio(e)) => r@ == "GPIO error: "@ + e@,
                SmartGridError::Internal(e) => r@ == e@,
            },
    {
        match self {
            SmartGridError::ActorGone => String::from_str("SmartGrid actor unavailable"),
            SmartGridError::Apply(e) => e.to_message(),
            SmartGridError::Internal(e) => e.clone(),
        }
    }
}

/// Auto-resume settings.
#[derive(Debug, Clone, Copy)]
pub struct ResumeConfig {
    pub auto_resume_enabled: bool,
    pub auto_resume_window_hours: u64,
    pub auto_resume_min_duration_minutes: u16,
}

/// The price search of an auto-resume: `(window, run)` in seconds, the
/// horizon from the configured hours and the run length from the
/// configured minutes, each saturating.
pub fn resume_search_window(config: &ResumeConfig) -> (r: (u64, u64))
    ensures
        r.0 == (if config.auto_resume_window_hours * 3600 > u64::MAX {
            u64::MAX as int
        } else {
            config.auto_resume_window_hours * 3600
        }),
        r.1 == config.auto_resume_min_duration_minutes * 60,
{
    let hours = config.auto_resume_window_hours;
    let window = if hours > u64::MAX / 3600 { u64::MAX } else { hours * 3600 };
    let run = config.auto_resume_min_duration_minutes as u64 * 60;
    (window, run)
}

/// The instant at which `mode` auto-resumes to `Normal`, from what the price
/// data offers: `Blocking` resumes at the start of the cheapest run of the
/// configured length, or failing that of the cheapest single slot;
/// `LowPrice` and `Overcapacity` resume when the current cheap run ends;
/// `Normal` never schedules.
pub fn compute_resume_target(
    mode: SmartGridMode,
    cheapest_run_start: Option<u128>,
    cheapest_slot_start: Option<u128>,
    cheap_window_end: Option<u128>,
) -> (r: Option<u128>)
    ensures
        r == (match mode {
            SmartGridMode::Blocking => if cheapest_run_start is Some {
                cheapest_run_start
            } else {
                cheapest_slot_start
            },
            SmartGridMode::LowPrice | SmartGridMode::Overcapacity => cheap_window_end,
            SmartGridMode::Normal => None,
        }),
{
    match mode {
        SmartGridMode::Blocking => match cheapest_run_start {
            Some(t) => Some(t),
            None => cheapest_slot_start,
        },
        SmartGridMode::LowPrice | SmartGridMode::Overcapacity => cheap_window_end,
        SmartGridMode::Normal => None,
    }
}

/// Outcome of a `SetMode` command.
pub struct SetModeOutcome {
    /// Reply to the caller: the scheduled resume instant, if any.
    pub reply: Result<Option<u128>, ApplyModeError>,
    /// A previously scheduled resume that was cancelled (its timer must stop).
    pub cancelled: Option<u128>,
    /// A resume timer to start: fire at `.0` carrying generation `.1`.
    pub start_timer: Option<(u128, u64)>,
}

/// Outcome of a resume timer firing.
#[derive(Debug, Clone, Copy, PartialEq, Eq, Structural)]
pub enum ResumeFireOutcome {
    /// A manual change happened since the timer was started: nothing done.
    Superseded,
    /// The mode is back to `Normal`.
    Applied,
    /// The line write failed.
    WriteFailed,
}

/// Outcome of a resume timer started under `timer_generation` firing while
/// the controller is at `current_generation`.
pub open spec fn spec_fire_outcome(current_generation: u64, timer_generation: u64, write_ok: bool) -> ResumeFireOutcome {
    if current_generation != timer_generation {
        ResumeFireOutcome::Superseded
    } else if write_ok {
        ResumeFireOutcome::Applied
    } else {
        ResumeFireOutcome::WriteFailed
    }
}

/// True when a successful `SetMode` to `mode` schedules a resume.
pub open spec fn spec_wants_resume(config: ResumeConfig, mode: SmartGridMode, schedule_resume: bool) -> bool {
    mode != SmartGridMode::Normal && schedule_resume && config.auto_resume_enabled
}

/// The resume instant a `SetMode` whose line write succeeded schedules:
/// `target`, when the mode, the request and the configuration call for one.
pub open spec fn spec_scheduled_after_set(
    config: ResumeConfig,
    mode: SmartGridMode,
    schedule_resume: bool,
    target: Option<u128>,
) -> Option<u128> {
    if spec_wants_resume(config, mode, schedule_resume) {
        target
    } else {
        None
    }
}

/// The actor's state after a `SetMode`: the generation moves on, any pending
/// resume is dropped, and when the line write succeeded the mode is recorded
/// and the new resume, if any, is pending.
pub open spec fn after_set_mode(
    c: SmartGridCore,
    mode: SmartGridMode,
    schedule_resume: bool,
    write_ok: bool,
    now: u128,
    target: Option<u128>,
) -> SmartGridCore {
    if write_ok {
        SmartGridCore {
            gpio: after_write(bumped(c.gpio), mode, now),
            scheduled_resume: spec_scheduled_after_set(c.config, mode, schedule_resume, target),
            config: c.config,
        }
    } else {
        SmartGridCore { gpio: bumped(c.gpio), scheduled_resume: None, config: c.config }
    }
}

/// The actor's state: relay bookkeeping and the pending auto-resume.
pub struct SmartGridCore {
    pub gpio: GpioController,
    pub scheduled_resume: Option<u128>,
    pub config: ResumeConfig,
}

impl SmartGridCore {
    pub open spec fn spec_scheduled(&self) -> Option<u128> {
        self.scheduled_resume
    }

    pub fn new(gpio: GpioController, config: ResumeConfig) -> (r: Self)
        ensures
            r.gpio == gpio,
            r.spec_scheduled() is None,
            r.config == config,
    {
        SmartGridCore { gpio, scheduled_resume: None, config }
    }

    /// Pending auto-resume instant, if any.
    pub fn scheduled_resume_at(&self) -> (r: Option<u128>)
        ensures
            r == self.spec_scheduled(),
    {
        self.scheduled_resume
    }

    /// Whether a successful `SetMode` to `mode` will need a resume target.
    pub fn wants_resume(&self, mode: SmartGridMode, schedule_resume: bool) -> (r: bool)
        ensures
            r == spec_wants_resume(self.config, mode, schedule_resume),
    {
        mode != SmartGridMode::Normal && schedule_resume && self.config.auto_resume_enabled
    }

    /// Process `SetMode`: supersede pending resumes, record the line write's
    /// result, and schedule a resume at `target` when the mode, the request
    /// and the configuration all call for one.
    pub fn do_set_mode(
        &mut self,
        mode: SmartGridMode,
        schedule_resume: bool,
        write_result: Result<(), String>,
        now: u128,
        target: Option<u128>,
    ) -> (r: SetModeOutcome)
        requires
            old(self).gpio.spec_generation() < u64::MAX,
        ensures
            *final(self) == after_set_mode(
                *old(self),
                mode,
                schedule_resume,
                write_result is Ok,
                now,
                target,
            ),
            write_result is Ok ==> r.reply == Ok::<Option<u128>, ApplyModeError>(
                spec_scheduled_after_set(old(self).config, mode, schedule_resume, target),
            ),
            final(self).gpio.spec_generation() == old(self).gpio.spec_generation() + 1,
            r.cancelled == old(self).spec_scheduled(),
            final(self).config == old(self).config,
            match write_result {
                Err(e) => {
                    &&& r.reply matches Err(ApplyModeError::Gpio(e2)) && e2 == e
                    &&& final(self).gpio.spec_mode() == old(self).gpio.spec_mode()
                    &&& final(self).gpio.spec_changed_at() == old(self).gpio.spec_changed_at()
                    &&& final(self).spec_scheduled() is None
                    &&& r.start_timer is None
                },
                Ok(()) => {
                    &&& final(self).gpio.spec_mode() == mode
                    &&& final(self).gpio.spec_changed_at() == (if old(self).gpio.spec_mode() != mode {
                        Some(now)
                    } else {
                        old(self).gpio.spec_changed_at()
                    })
                    &&& if spec_wants_resume(old(self).config, mode, schedule_resume) && target is Some {
                        &&& r.reply matches Ok(Some(t)) && t == target->0
                        &&& final(self).spec_scheduled() == target
                        &&& r.start_timer == Some((target->0, final(self).gpio.spec_generation()))
                    } else {
                        &&& r.reply matches Ok(None)
                        &&& final(self).spec_scheduled() is None
                        &&& r.start_timer is None
                    }
                },
            },
    {
        self.gpio.bump_mode_generation();
        let cancelled = self.scheduled_resume;
        self.scheduled_resume = None;
        match write_result {
            Err(e) => SetModeOutcome {
                reply: Err(ApplyModeError::Gpio(e)),
                cancelled,
                start_timer: None,
            },
            Ok(()) => {
                self.gpio.record_mode_written(mode, now);
                if !self.wants_resume(mode, schedule_resume) {
                    return SetModeOutcome { reply: Ok(None), cancelled, start_timer: None };
                }
                match target {
                    None => SetModeOutcome { reply: Ok(None), cancelled, start_timer: None },
                    Some(fires_at) => {
                        self.scheduled_resume = Some(fires_at);
                        let generation = self.gpio.mode_generation();
                        SetModeOutcome {
                            reply: Ok(Some(fires_at)),
                            cancelled,
                            start_timer: Some((fires_at, generation)),
                        }
                    },
                }
            },
        }
    }

    /// Whether a resume timer started under `generation` is still current
    /// (so its line write should be attempted).
    pub fn resume_is_current(&self, generation: u64) -> (r: bool)
        ensures
            r == (self.gpio.spec_generation() == generation),
    {
        self.gpio.mode_generation() == generation
    }

    /// Process a resume timer firing for `fires_at` under `generation`;
    /// `write_result` is the result of writing `Normal` to the lines, made
    /// only when the timer is current.
    pub fn on_resume_fire(
        &mut self,
        fires_at: u128,
        generation: u64,
        write_result: Result<(), String>,
        now: u128,
    ) -> (r: ResumeFireOutcome)
        ensures
            r == spec_fire_outcome(old(self).gpio.spec_generation(), generation, write_result is Ok),
            old(self).gpio.spec_generation() != generation ==> r == ResumeFireOutcome::Superseded
                && final(self).gpio == old(self).gpio
                && final(self).spec_scheduled() == old(self).spec_scheduled(),
            old(self).gpio.spec_generation() == generation && write_result is Err ==> r
                == ResumeFireOutcome::WriteFailed && final(self).gpio == old(self).gpio
                && final(self).spec_scheduled() == old(self).spec_scheduled(),
            old(self).gpio.spec_generation() == generation && write_result is Ok ==> r
                == ResumeFireOutcome::Applied && final(self).gpio == after_write(
                old(self).gpio,
                SmartGridMode::Normal,
                now,
            ) && final(self).spec_scheduled() == (if old(
                self,
            ).spec_scheduled() == Some(fires_at) {
                None
            } else {
                old(self).spec_scheduled()
            }),
            final(self).config == old(self).config,
    {
        match self.gpio.set_mode_if_not_superseded(
            SmartGridMode::Normal,
            generation,
            write_result,
            now,
        ) {
            Ok(true) => {
                if self.scheduled_resume == Some(fires_at) {
                    self.scheduled_resume = None;
                }
                ResumeFireOutcome::Applied
            },
            Ok(false) => ResumeFireOutcome::Superseded,
            Err(_) => ResumeFireOutcome::WriteFailed,
        }
    }

    /// Cancel any pending auto-resume without changing the mode. Returns the
    /// cancelled instant (its timer must stop).
    pub fn cancel_scheduled_resume(&mut self) -> (r: Option<u128>)
        ensures
            r == old(self).spec_scheduled(),
            final(self).spec_scheduled() is None,
            final(self).gpio == old(self).gpio,
            final(self).config == old(self).config,
    {
        let prev = self.scheduled_resume;
        self.scheduled_resume = None;
        prev
    }
}

/// A `SetMode` returns a resume instant only for a non-`Normal` mode with
/// scheduling asked and auto-resume enabled, and then returns the given
/// target; after a successful write the mode is the one set and the
/// returned instant is the pending resume.
pub proof fn set_mode_schedules_only_when_asked(
    c: SmartGridCore,
    mode: SmartGridMode,
    schedule_resume: bool,
    now: u128,
    target: Option<u128>,
)
    ensures
        spec_scheduled_after_set(c.config, mode, schedule_resume, target) is Some ==> mode
            != SmartGridMode::Normal && schedule_resume && c.config.auto_resume_enabled,
        mode != SmartGridMode::Normal && schedule_resume && c.config.auto_resume_enabled ==> spec_scheduled_after_set(c.config, mode, schedule_resume, target) == target,
        after_set_mode(c, mode, schedule_resume, true, now, target).gpio.current_mode == mode,
        after_set_mode(c, mode, schedule_resume, true, now, target).scheduled_resume
            == spec_scheduled_after_set(c.config, mode, schedule_resume, target),
{
}

/// A later `SetMode` without scheduling clears any pending resume, whether
/// its write succeeds or fails; a failed write leaves the mode and its
/// change time as they were.
pub proof fn later_set_mode_cancels_pending(
    c: SmartGridCore,
    mode: SmartGridMode,
    write_ok: bool,
    now: u128,
    target: Option<u128>,
)
    ensures
        after_set_mode(c, mode, false, write_ok, now, target).scheduled_resume is None,
        !write_ok ==> after_set_mode(c, mode, false, write_ok, now, target).gpio.current_mode
            == c.gpio.current_mode && after_set_mode(c, mode, false, write_ok, now, target).gpio.mode_changed_at == c.gpio.mode_changed_at,
{
}

/// A resume timer never overrides a later manual change: every `SetMode`
/// moves the generation on (`do_set_mode` ensures `+ 1`), so a timer started
/// before it fires as `Superseded` whatever its line write would do, while a
/// timer started after the last change applies when its write succeeds.
pub proof fn manual_change_supersedes_resume(timer_generation: u64, write_ok: bool)
    requires
        timer_generation < u64::MAX,
    ensures
        spec_fire_outcome((timer_generation + 1) as u64, timer_generation, write_ok)
            == ResumeFireOutcome::Superseded,
        spec_fire_outcome(timer_generation, timer_generation, true) == ResumeFireOutcome::Applied,
{
}

} // verus!
