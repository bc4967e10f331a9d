//! Decisions of the Modbus actor: visibility checks against the cached
//! visibility registers, validation of writes against the device's
//! max/min/step registers, the retry policy, and the operation counters.
//! The serial I/O itself is driven by the application.

use vstd::prelude::*;
use super::{Access, CTCModbusParameter, bit_set, mask_has_bit};

verus! {

/// First visibility register address (inclusive).
pub const VISIBILITY_REG_START: u16 = 62500;

/// Last visibility register address (inclusive).
pub const VISIBILITY_REG_END: u16 = 62548;

/// Number of visibility registers (62500..=62548).
pub const VISIBILITY_REG_COUNT: usize = 49;

/// Why a visibility lookup could not be answered.
#[derive(Debug, Clone, Copy, PartialEq, Eq, Structural)]
pub enum VisibilityError {
    /// The register is outside 62500..=62548.
    InvalidVisibilityRegister(u16),
}

pub open spec fn in_visibility_range(register: u16) -> bool {
    VISIBILITY_REG_START <= register <= VISIBILITY_REG_END
}

/// The answer of a visibility check of `param` against an optional cache.
pub open spec fn spec_check_visibility(
    cache: Option<Seq<u16>>,
    param: CTCModbusParameter,
) -> Result<bool, VisibilityError> {
    if param.visible == 0 {
        Ok(true)
    } else {
        match cache {
            None => Ok(true),
            Some(c) => if !in_visibility_range(param.visible) {
                Err(VisibilityError::InvalidVisibilityRegister(param.visible))
            } else {
                Ok(bit_set(c[param.visible - VISIBILITY_REG_START], param.bit))
            },
        }
    }
}

pub open spec fn opt_view(cache: Option<&Vec<u16>>) -> Option<Seq<u16>> {
    match cache {
        None => None,
        Some(c) => Some(c@),
    }
}

/// Check whether a parameter is visible against an (optionally populated)
/// cache of the 49 visibility registers.
///
/// `visible == 0` is always visible, without touching the cache. Without a
/// cache (the visibility scan failed) the answer is the optimistic "visible".
/// With a cache, a visibility register outside 62500..=62548 is an error.
pub fn check_visibility_against(
    cache: Option<&Vec<u16>>,
    param: &CTCModbusParameter,
) -> (r: Result<bool, VisibilityError>)
    requires
        cache matches Some(c) ==> c.len() == VISIBILITY_REG_COUNT,
    ensures
        r == spec_check_visibility(opt_view(cache), *param),
{
    if param.visible == 0 {
        return Ok(true);
    }
    let cache = match cache {
        None => {
            return Ok(true);
        },
        Some(c) => c,
    };
    if param.visible < VISIBILITY_REG_START || param.visible > VISIBILITY_REG_END {
        return Err(VisibilityError::InvalidVisibilityRegister(param.visible));
    }
    let index = (param.visible - VISIBILITY_REG_START) as usize;
    Ok(param.is_visible(cache[index]))
}

/// The cached bitmask of visibility register `register`.
pub fn visibility_register_value(cache: &Vec<u16>, register: u16) -> (r: Result<u16, VisibilityError>)
    requires
        cache.len() == VISIBILITY_REG_COUNT,
    ensures
        in_visibility_range(register) ==> r == Ok::<u16, VisibilityError>(
            cache@[register - VISIBILITY_REG_START],
        ),
        !in_visibility_range(register) ==> r == Err::<u16, VisibilityError>(
            VisibilityError::InvalidVisibilityRegister(register),
        ),
{
    if register < VISIBILITY_REG_START || register > VISIBILITY_REG_END {
        return Err(VisibilityError::InvalidVisibilityRegister(register));
    }
    let index = (register - VISIBILITY_REG_START) as usize;
    Ok(cache[index])
}

/// The visibility cache built from a scan of the visibility registers, if
/// the device returned exactly one value per register.
pub fn cache_from_scan(values: Vec<u16>) -> (r: Option<Vec<u16>>)
    ensures
        values.len() == VISIBILITY_REG_COUNT ==> r == Some(values),
        values.len() != VISIBILITY_REG_COUNT ==> r is None,
{
    if values.len() != VISIBILITY_REG_COUNT {
        None
    } else {
        Some(values)
    }
}

// region: --- write validation

/// Why a write is refused before reaching the device.
#[derive(Debug, Clone, Copy, PartialEq, Eq, Structural)]
pub enum WriteRefusal {
    /// The parameter is read-only.
    ReadOnly { register: u16 },
}

/// Outcome of checking a raw value against the device's bounds.
#[derive(Debug, Clone, Copy, PartialEq, Eq, Structural)]
pub enum RawCheck {
    Accepted,
    /// The raw value is outside `[min, max]`.
    OutOfRange { min: u16, max: u16 },
    /// The raw value is not a whole number of steps above `min`.
    InvalidStep { min: u16, step: u16 },
}

/// `value - min` is a multiple of `step` (only 0 is a multiple of 0).
pub open spec fn spec_step_ok(value: u16, min: u16, step: u16) -> bool {
    let d = value - min;
    if step == 0 { d == 0 } else { d % (step as int) == 0 }
}

pub open spec fn spec_check_raw(raw: u16, max: u16, min: u16, step: u16) -> RawCheck {
    if raw < min || raw > max {
        RawCheck::OutOfRange { min, max }
    } else if !spec_step_ok(raw, min, step) {
        RawCheck::InvalidStep { min, step }
    } else {
        RawCheck::Accepted
    }
}

/// Whether `value` is a whole number of steps above the minimum.
pub fn step_is_valid(value: u16, min: u16, step: u16) -> (r: bool)
    requires
        min <= value,
    ensures
        r == spec_step_ok(value, min, step),
{
    let d = value - min;
    if step == 0 {
        d == 0
    } else {
        d % step == 0
    }
}

/// Refuse writes to read-only parameters.
pub fn check_writable(param: &CTCModbusParameter) -> (r: Result<(), WriteRefusal>)
    ensures
        r is Err <==> param.access == Access::R,
        r matches Err(e) ==> e == (WriteRefusal::ReadOnly { register: param.id }),
{
    if param.is_read_only() {
        Err(WriteRefusal::ReadOnly { register: param.id })
    } else {
        Ok(())
    }
}

/// Write-only registers have no max/min/step registers and skip both the
/// bounds check and the read-back verification.
pub fn needs_bounds_check(param: &CTCModbusParameter) -> (r: bool)
    ensures
        r == (param.access != Access::W),
{
    param.access != Access::W
}

/// Check a raw value against the `(max, min, step)` registers read from the device.
pub fn check_raw_against_bounds(raw: u16, max: u16, min: u16, step: u16) -> (r: RawCheck)
    ensures
        r == spec_check_raw(raw, max, min, step),
{
    if raw < min || raw > max {
        return RawCheck::OutOfRange { min, max };
    }
    if !step_is_valid(raw, min, step) {
        return RawCheck::InvalidStep { min, step };
    }
    RawCheck::Accepted
}

/// An accepted raw value lies in `[min, max]` on the step grid from `min`.
pub proof fn accepted_write_on_grid(raw: u16, max: u16, min: u16, step: u16)
    requires
        spec_check_raw(raw, max, min, step) == RawCheck::Accepted,
    ensures
        min <= raw <= max,
        step > 0 ==> raw == min + ((raw - min) / (step as int)) * step,
        step == 0 ==> raw == min,
{
    if step > 0 {
        let d = raw - min;
        vstd::arithmetic::div_mod::lemma_fundamental_div_mod(d, step as int);
        assert(raw == min + (d / (step as int)) * step);
    }
}

/// What a write request comes to, given the visibility check of its
/// parameter and, once the value `written` went out, the word read back
/// (`None` for a write-only register, which is not read back): an invisible
/// parameter or a bad visibility register refuses the write, and a read-back
/// that differs from what was written is a failed verification.
pub open spec fn spec_write_outcome(
    visible: Result<bool, VisibilityError>,
    written: u16,
    read_back: Option<u16>,
) -> Result<(), ModbusErrorKind> {
    match visible {
        Err(_) => Err(ModbusErrorKind::InvalidVisibilityRegister),
        Ok(false) => Err(ModbusErrorKind::ParameterNotVisible),
        Ok(true) => match read_back {
            None => Ok(()),
            Some(b) => if b == written {
                Ok(())
            } else {
                Err(ModbusErrorKind::VerificationError)
            },
        },
    }
}

pub fn write_outcome(visible: Result<bool, VisibilityError>, written: u16, read_back: Option<u16>) -> (r:
    Result<(), ModbusErrorKind>)
    ensures
        r == spec_write_outcome(visible, written, read_back),
{
    match visible {
        Err(_) => Err(ModbusErrorKind::InvalidVisibilityRegister),
        Ok(false) => Err(ModbusErrorKind::ParameterNotVisible),
        Ok(true) => match read_back {
            None => Ok(()),
            Some(b) => if b == written {
                Ok(())
            } else {
                Err(ModbusErrorKind::VerificationError)
            },
        },
    }
}

// endregion: --- write validation

// region: --- retry policy

/// Result of one wire attempt.
#[derive(Debug, Clone, Copy, PartialEq, Eq, Structural)]
pub enum AttemptOutcome {
    Success,
    /// An error that may go away on retry.
    TransientError,
    /// An error that no retry will fix.
    PermanentError,
    /// The operation timed out.
    TimedOut,
}

/// What the retry loop does after an attempt.
#[derive(Debug, Clone, Copy, PartialEq, Eq, Structural)]
pub enum RetryStep {
    /// Return the value.
    Done,
    /// Try again as attempt `next_attempt` (after the backoff delay).
    Retry { next_attempt: u32 },
    /// Give up: record one failure and return the last error.
    GiveUp,
}

pub open spec fn spec_retry_step(attempt: u32, max_retries: u32, outcome: AttemptOutcome) -> RetryStep {
    match outcome {
        AttemptOutcome::Success => RetryStep::Done,
        AttemptOutcome::PermanentError => RetryStep::GiveUp,
        _ => if attempt < max_retries {
            RetryStep::Retry { next_attempt: (attempt + 1) as u32 }
        } else {
            RetryStep::GiveUp
        },
    }
}

/// Decide what follows attempt `attempt` (0-based) out of `max_retries + 1`.
pub fn retry_step(attempt: u32, max_retries: u32, outcome: AttemptOutcome) -> (r: RetryStep)
    ensures
        r == spec_retry_step(attempt, max_retries, outcome),
        outcome == AttemptOutcome::Success <==> r == RetryStep::Done,
        outcome == AttemptOutcome::PermanentError ==> r == RetryStep::GiveUp,
        (outcome == AttemptOutcome::TimedOut || outcome == AttemptOutcome::TransientError)
            && attempt < max_retries ==> r == (RetryStep::Retry { next_attempt: (attempt + 1) as u32 }),
        (outcome == AttemptOutcome::TimedOut || outcome == AttemptOutcome::TransientError)
            && attempt >= max_retries ==> r == RetryStep::GiveUp,
{
    match outcome {
        AttemptOutcome::Success => RetryStep::Done,
        AttemptOutcome::PermanentError => RetryStep::GiveUp,
        _ => if attempt < max_retries {
            RetryStep::Retry { next_attempt: attempt + 1 }
        } else {
            RetryStep::GiveUp
        },
    }
}

/// The retry policy: a success ends the loop and nothing else does; a
/// permanent error gives up at once; a timed-out or transient attempt is
/// retried as the next attempt while the retry budget lasts, and gives up
/// once it is spent.
pub proof fn retry_policy(attempt: u32, max_retries: u32)
    ensures
        spec_retry_step(attempt, max_retries, AttemptOutcome::Success) == RetryStep::Done,
        spec_retry_step(attempt, max_retries, AttemptOutcome::PermanentError) == RetryStep::GiveUp,
        attempt < max_retries ==> spec_retry_step(attempt, max_retries, AttemptOutcome::TimedOut)
            == (RetryStep::Retry { next_attempt: (attempt + 1) as u32 }) && spec_retry_step(
            attempt,
            max_retries,
            AttemptOutcome::TransientError,
        ) == (RetryStep::Retry { next_attempt: (attempt + 1) as u32 }),
        attempt >= max_retries ==> spec_retry_step(attempt, max_retries, AttemptOutcome::TimedOut)
            == RetryStep::GiveUp && spec_retry_step(
            attempt,
            max_retries,
            AttemptOutcome::TransientError,
        ) == RetryStep::GiveUp,
        forall|o: AttemptOutcome|
            #![trigger spec_retry_step(attempt, max_retries, o)]
            o != AttemptOutcome::Success ==> spec_retry_step(attempt, max_retries, o)
                != RetryStep::Done,
{
}

/// The retry loop never runs more than `max_retries + 1` attempts: a retry
/// only follows an attempt below `max_retries`, and moves to the next one.
pub proof fn retry_attempts_bounded(attempt: u32, max_retries: u32, outcome: AttemptOutcome)
    ensures
        spec_retry_step(attempt, max_retries, outcome) matches RetryStep::Retry { next_attempt } ==> (
        next_attempt == attempt + 1 && next_attempt <= max_retries),
        attempt >= max_retries ==> !(spec_retry_step(attempt, max_retries, outcome) is Retry),
{
}

/// The kinds of failure the Modbus actor reports.
#[derive(Debug, Clone, Copy, PartialEq, Eq, Structural)]
pub enum ModbusErrorKind {
    ReadError,
    WriteError,
    Timeout,
    ReadOnly,
    OutOfRange,
    InvalidStep,
    InvalidAlarmInfoValue,
    ParameterNotVisible,
    InvalidVisibilityRegister,
    VisibilityNotScanned,
    ProtocolError,
    VerificationError,
    ValidationReadError,
}

/// Failures of the bus itself (a garbled or missing reply) may go away on
/// a retry; a refused value, an unknown register or a missing scan will not.
pub open spec fn spec_is_transient(kind: ModbusErrorKind) -> bool {
    match kind {
        ModbusErrorKind::ReadError
        | ModbusErrorKind::WriteError
        | ModbusErrorKind::Timeout
        | ModbusErrorKind::ProtocolError
        | ModbusErrorKind::ValidationReadError => true,
        _ => false,
    }
}

/// Whether an error of this kind is worth another attempt.
pub fn is_transient(kind: ModbusErrorKind) -> (r: bool)
    ensures
        r == spec_is_transient(kind),
{
    match kind {
        ModbusErrorKind::ReadError
        | ModbusErrorKind::WriteError
        | ModbusErrorKind::Timeout
        | ModbusErrorKind::ProtocolError
        | ModbusErrorKind::ValidationReadError => true,
        _ => false,
    }
}

/// The outcome of an attempt that failed with an error of this kind.
pub fn attempt_outcome(kind: ModbusErrorKind) -> (r: AttemptOutcome)
    ensures
        r == (if kind == ModbusErrorKind::Timeout {
            AttemptOutcome::TimedOut
        } else if spec_is_transient(kind) {
            AttemptOutcome::TransientError
        } else {
            AttemptOutcome::PermanentError
        }),
{
    if matches!(kind, ModbusErrorKind::Timeout) {
        AttemptOutcome::TimedOut
    } else if is_transient(kind) {
        AttemptOutcome::TransientError
    } else {
        AttemptOutcome::PermanentError
    }
}

/// How long to wait before the next wire transaction so that at least `gap`
/// separates it from the previous one, `since_last` ago (same unit). The
/// first transaction, or one after the gap has passed, does not wait.
pub fn inter_request_wait(gap: u64, since_last: Option<u64>) -> (r: u64)
    ensures
        r == (match since_last {
            Some(e) => if e < gap {
                (gap - e) as u64
            } else {
                0
            },
            None => 0,
        }),
{
    match since_last {
        Some(e) => if e < gap {
            gap - e
        } else {
            0
        },
        None => 0,
    }
}

// endregion: --- retry policy

// region: --- operation counters

/// Counters kept by the actor across operations.
#[derive(Debug, Clone, Copy, PartialEq, Eq, Structural)]
pub struct OperationStats {
    pub consecutive_failures: u32,
    pub total_operations: u64,
    pub total_failures: u64,
    /// Consecutive failures at which a critical condition is reported.
    pub max_consecutive_failures: u32,
}

impl OperationStats {
    pub fn new(max_consecutive_failures: u32) -> (r: Self)
        ensures
            r.consecutive_failures == 0,
            r.total_operations == 0,
            r.total_failures == 0,
            r.max_consecutive_failures == max_consecutive_failures,
    {
        OperationStats {
            consecutive_failures: 0,
            total_operations: 0,
            total_failures: 0,
            max_consecutive_failures,
        }
    }

    /// A successful wire operation: the failure streak ends.
    pub fn record_success(&mut self)
        requires
            old(self).total_operations < u64::MAX,
        ensures
            final(self).consecutive_failures == 0,
            final(self).total_operations == old(self).total_operations + 1,
            final(self).total_failures == old(self).total_failures,
            final(self).max_consecutive_failures == old(self).max_consecutive_failures,
    {
        self.consecutive_failures = 0;
        self.total_operations = self.total_operations + 1;
    }

    /// A failed operation (after all retries). Returns true when the failure
    /// streak has reached the critical threshold.
    pub fn record_failure(&mut self) -> (critical: bool)
        requires
            old(self).consecutive_failures < u32::MAX,
            old(self).total_failures < u64::MAX,
        ensures
            final(self).consecutive_failures == old(self).consecutive_failures + 1,
            final(self).total_failures == old(self).total_failures + 1,
            final(self).total_operations == old(self).total_operations,
            final(self).max_consecutive_failures == old(self).max_consecutive_failures,
            critical == (final(self).consecutive_failures >= final(self).max_consecutive_failures),
    {
        self.consecutive_failures = self.consecutive_failures + 1;
        self.total_failures = self.total_failures + 1;
        self.consecutive_failures >= self.max_consecutive_failures
    }

    /// A request skipped because its client had already gone: it counts as an
    /// operation but not as a failure.
    pub fn record_skipped(&mut self)
        requires
            old(self).total_operations < u64::MAX,
        ensures
            *final(self) == (OperationStats {
                total_operations: (old(self).total_operations + 1) as u64,
                ..*old(self)
            }),
    {
        self.total_operations = self.total_operations + 1;
    }
}

// endregion: --- operation counters

} // verus!
