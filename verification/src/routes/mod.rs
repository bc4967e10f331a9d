//! Decisions behind the HTTP endpoints: the error an endpoint answers with,
//! the time windows of the series endpoints, the checks a `SmartGrid` mode
//! request passes before it reaches the actor, and the visibility answer
//! for a single parameter.

pub mod activity;
pub mod alarms;

use vstd::prelude::*;
use crate::modbus::CTCModbusParameter;
use crate::modbus::actor::{ModbusErrorKind, VISIBILITY_REG_START, VISIBILITY_REG_END};
use crate::modbus::bms_parameters::{
    catalog, get_ctc_parameter_by_id, get_custom_ctc_parameter_by_addr, has_id, is_first_with_id,
    spec_ro,
};
use crate::modbus::bit_set;
use crate::smartgrid::actor::SmartGridError;
use crate::smartgrid::mode::{SmartGridMode, spec_parse_lowered};
use crate::text::lowercase;
use crate::timefmt::{parse_rfc3339_instant, rfc3339_instant};

verus! {

/// What an endpoint answers when it cannot serve the request.
#[derive(Debug, Clone, Copy, PartialEq, Eq, Structural)]
pub enum ApiError {
    BadRequest,
    NotFound,
    ServiceUnavailable,
    InternalError,
    Timeout,
}

// region: --- modbus errors

pub open spec fn spec_api_error_for(kind: ModbusErrorKind) -> ApiError {
    match kind {
        ModbusErrorKind::Timeout => ApiError::Timeout,
        ModbusErrorKind::ReadOnly
        | ModbusErrorKind::OutOfRange
        | ModbusErrorKind::InvalidStep
        | ModbusErrorKind::InvalidAlarmInfoValue => ApiError::BadRequest,
        ModbusErrorKind::InvalidVisibilityRegister
        | ModbusErrorKind::ParameterNotVisible => ApiError::NotFound,
        _ => ApiError::InternalError,
    }
}

/// The answer to a request the actor failed: a bus timeout is a timeout,
/// a refused value is the client's fault, an unknown visibility register
/// is not found, anything else is an internal error.
pub fn api_error_for(kind: ModbusErrorKind) -> (r: ApiError)
    ensures
        r == spec_api_error_for(kind),
{
    match kind {
        ModbusErrorKind::Timeout => ApiError::Timeout,
        ModbusErrorKind::ReadOnly
        | ModbusErrorKind::OutOfRange
        | ModbusErrorKind::InvalidStep
        | ModbusErrorKind::InvalidAlarmInfoValue => ApiError::BadRequest,
        ModbusErrorKind::InvalidVisibilityRegister
        | ModbusErrorKind::ParameterNotVisible => ApiError::NotFound,
        _ => ApiError::InternalError,
    }
}

/// How a request to the actor ended, seen from the endpoint.
#[derive(Debug, Clone, Copy, PartialEq, Eq, Structural)]
pub enum ActorReply {
    /// The request could not be sent or the reply channel closed.
    ChannelClosed,
    /// No reply within the request timeout.
    TimedOut,
    /// The actor answered with an error.
    Failed(ModbusErrorKind),
    /// The actor answered with a reply of the wrong shape.
    Unexpected,
}

pub open spec fn spec_api_error_for_reply(reply: ActorReply) -> ApiError {
    match reply {
        ActorReply::ChannelClosed => ApiError::ServiceUnavailable,
        ActorReply::TimedOut => ApiError::Timeout,
        ActorReply::Failed(k) => spec_api_error_for(k),
        ActorReply::Unexpected => ApiError::InternalError,
    }
}

/// The answer of an endpoint whose request to the actor did not produce a value.
pub fn api_error_for_reply(reply: ActorReply) -> (r: ApiError)
    ensures
        r == spec_api_error_for_reply(reply),
{
    match reply {
        ActorReply::ChannelClosed => ApiError::ServiceUnavailable,
        ActorReply::TimedOut => ApiError::Timeout,
        ActorReply::Failed(k) => api_error_for(k),
        ActorReply::Unexpected => ApiError::InternalError,
    }
}

// endregion: --- modbus errors

// region: --- series windows

/// Hours asked of a series endpoint: 24 when absent, clamped to 1..=24.
pub fn window_hours(hours: Option<u32>) -> (r: u32)
    ensures
        r == (match hours {
            None => 24,
            Some(h) => if h < 1 {
                1
            } else if h > 24 {
                24
            } else {
                h
            },
        }),
{
    match hours {
        None => 24,
        Some(h) => if h < 1 {
            1
        } else if h > 24 {
            24
        } else {
            h
        },
    }
}

/// `(from, now, to)` Unix-second bounds for the last `hours` hours before
/// `now_secs`. `to` is `now + 1` so the half-open range includes a sample
/// written in the second the request arrives. A clock beyond `i64` seconds
/// is an internal error.
pub fn series_window(now_secs: u64, hours: u32) -> (r: Result<(i64, i64, i64), ApiError>)
    ensures
        now_secs > i64::MAX ==> r == Err::<(i64, i64, i64), ApiError>(ApiError::InternalError),
        now_secs <= i64::MAX ==> r == Ok::<(i64, i64, i64), ApiError>(
            (
                (now_secs - hours * 3600) as i64,
                now_secs as i64,
                if now_secs == i64::MAX {
                    i64::MAX
                } else {
                    (now_secs + 1) as i64
                },
            ),
        ),
{
    if now_secs > i64::MAX as u64 {
        return Err(ApiError::InternalError);
    }
    let now = now_secs as i64;
    let span: i64 = hours as i64 * 3600;
    let from = now - span;
    let to = if now == i64::MAX { i64::MAX } else { now + 1 };
    Ok((from, now, to))
}

// endregion: --- series windows

// region: --- smartgrid requests

/// Grace given to an explicit resume instant that just passed (nanoseconds).
pub const RESUME_GRACE_NANOS: i64 = 60_000_000_000;

/// Nanoseconds after the epoch of the instant `secs` seconds and `subsec`
/// nanoseconds after it.
pub open spec fn instant_nanos(secs: i64, subsec: u32) -> int {
    secs * 1_000_000_000 + subsec
}

/// An explicit resume instant is accepted unless it lies a full grace
/// period or more before `now`.
pub open spec fn resume_fresh(when: int, now_nanos: u128) -> bool {
    when + RESUME_GRACE_NANOS > now_nanos
}

/// The errors of [`map_smartgrid_error`]: a gone actor is unavailable,
/// anything else an internal error.
pub open spec fn spec_map_smartgrid_error(err: SmartGridError) -> ApiError {
    match err {
        SmartGridError::ActorGone => ApiError::ServiceUnavailable,
        _ => ApiError::InternalError,
    }
}

pub fn map_smartgrid_error(err: SmartGridError) -> (r: ApiError)
    ensures
        r == spec_map_smartgrid_error(err),
{
    match err {
        SmartGridError::ActorGone => ApiError::ServiceUnavailable,
        SmartGridError::Apply(_) | SmartGridError::Internal(_) => ApiError::InternalError,
    }
}

/// What an explicit resume instant, as parsed, makes of a mode request:
/// unparseable (`None`) or stale by a full grace period, a bad request;
/// otherwise the instant in nanoseconds after the epoch, where an instant
/// before the epoch resumes at the epoch, which the actor treats as now.
pub open spec fn spec_resume_decision(parsed: Option<(i64, u32)>, now_nanos: u128) -> Result<
    Option<u128>,
    ApiError,
> {
    match parsed {
        None => Err(ApiError::BadRequest),
        Some((secs, subsec)) => {
            let when = instant_nanos(secs, subsec);
            if !resume_fresh(when, now_nanos) {
                Err(ApiError::BadRequest)
            } else if when < 0 {
                Ok(Some(0u128))
            } else {
                Ok(Some(when as u128))
            }
        },
    }
}

/// Decide on a parsed explicit resume instant (see [`spec_resume_decision`]).
pub fn resume_decision(parsed: Option<(i64, u32)>, now_nanos: u128) -> (r: Result<Option<u128>, ApiError>)
    ensures
        r == spec_resume_decision(parsed, now_nanos),
{
    match parsed {
        None => Err(ApiError::BadRequest),
        Some((secs, subsec)) => {
            assert(-0x8000_0000_0000_0000 * 1_000_000_000 <= secs * 1_000_000_000
                <= 0x7fff_ffff_ffff_ffff * 1_000_000_000) by (nonlinear_arith)
                requires
                    -0x8000_0000_0000_0000 <= secs <= 0x7fff_ffff_ffff_ffff,
            ;
            let when: i128 = (secs as i128) * 1_000_000_000 + (subsec as i128);
            let fresh = when + (RESUME_GRACE_NANOS as i128) > 0 && (when + (
            RESUME_GRACE_NANOS as i128)) as u128 > now_nanos;
            if !fresh {
                Err(ApiError::BadRequest)
            } else if when < 0 {
                Ok(Some(0))
            } else {
                Ok(Some(when as u128))
            }
        },
    }
}

/// Check the optional explicit resume instant of a mode request: absent
/// gives no instant; present, it is parsed as RFC 3339 and decided on by
/// [`resume_decision`].
pub fn check_resume_at(resume_at: Option<&str>, now_nanos: u128) -> (r: Result<Option<u128>, ApiError>)
    ensures
        r == spec_check_resume_at(resume_at, now_nanos),
{
    match resume_at {
        None => Ok(None),
        Some(s) => resume_decision(parse_rfc3339_instant(s), now_nanos),
    }
}

/// Everything a `POST /smartgrid` checks before the actor sees the request:
/// the relay hardware must be there, the mode must parse (any case), and an
/// explicit resume instant must parse and not be stale.
pub fn check_set_smartgrid(
    gpio_available: bool,
    mode: &str,
    resume_at: Option<&str>,
    now_nanos: u128,
) -> (r: Result<(SmartGridMode, Option<u128>), ApiError>)
    ensures
        !gpio_available ==> r == Err::<(SmartGridMode, Option<u128>), ApiError>(
            ApiError::ServiceUnavailable,
        ),
        gpio_available && spec_parse_lowered(lowercase(mode@)) is Err ==> r == Err::<
            (SmartGridMode, Option<u128>),
            ApiError,
        >(ApiError::BadRequest),
        gpio_available && spec_parse_lowered(lowercase(mode@)) is Ok ==> match spec_check_resume_at(
            resume_at,
            now_nanos,
        ) {
            Ok(when) => r == Ok::<(SmartGridMode, Option<u128>), ApiError>(
                (spec_parse_lowered(lowercase(mode@))->Ok_0, when),
            ),
            Err(e) => r == Err::<(SmartGridMode, Option<u128>), ApiError>(e),
        },
{
    if !gpio_available {
        return Err(ApiError::ServiceUnavailable);
    }
    let m = match SmartGridMode::parse(mode) {
        Ok(m) => m,
        Err(_) => return Err(ApiError::BadRequest),
    };
    match check_resume_at(resume_at, now_nanos) {
        Ok(when) => Ok((m, when)),
        Err(e) => Err(e),
    }
}

/// What [`check_resume_at`] returns.
pub open spec fn spec_check_resume_at(resume_at: Option<&str>, now_nanos: u128) -> Result<
    Option<u128>,
    ApiError,
> {
    match resume_at {
        None => Ok(None),
        Some(s) => spec_resume_decision(rfc3339_instant(s@), now_nanos),
    }
}

// endregion: --- smartgrid requests

// region: --- generic register endpoint

/// The parameter a `GET /api/v1/ctc` reads: with `custom=true` an ad-hoc
/// read-only descriptor scaled by `factor_num / factor_den`, otherwise the
/// catalog entry at `addr`; an address outside the catalog is a bad request.
pub fn ctc_read_parameter(addr: u16, custom: Option<bool>, factor_num: u16, factor_den: u16) -> (r:
    Result<CTCModbusParameter, ApiError>)
    ensures
        custom == Some(true) ==> r == Ok::<CTCModbusParameter, ApiError>(
            spec_ro(addr, true, 0, 0, factor_num, factor_den, "Custom CTC Parameter"),
        ),
        custom != Some(true) && !has_id(catalog(), addr) ==> r == Err::<
            CTCModbusParameter,
            ApiError,
        >(ApiError::BadRequest),
        custom != Some(true) && has_id(catalog(), addr) ==> (r matches Ok(p) && is_first_with_id(
            catalog(),
            addr,
            p,
        )),
{
    match custom {
        Some(true) => Ok(get_custom_ctc_parameter_by_addr(addr, factor_num, factor_den)),
        _ => match get_ctc_parameter_by_id(addr) {
            Some(p) => Ok(p),
            None => Err(ApiError::BadRequest),
        },
    }
}

/// The parameter a `POST /api/v1/ctc` writes: the catalog entry at `addr`;
/// an unknown address or a missing value is a bad request.
pub fn ctc_write_parameter(addr: u16, has_value: bool) -> (r: Result<CTCModbusParameter, ApiError>)
    ensures
        !has_id(catalog(), addr) ==> r == Err::<CTCModbusParameter, ApiError>(ApiError::BadRequest),
        has_id(catalog(), addr) && !has_value ==> r == Err::<CTCModbusParameter, ApiError>(
            ApiError::BadRequest,
        ),
        has_id(catalog(), addr) && has_value ==> (r matches Ok(p) && is_first_with_id(
            catalog(),
            addr,
            p,
        )),
{
    match get_ctc_parameter_by_id(addr) {
        None => Err(ApiError::BadRequest),
        Some(p) => if has_value {
            Ok(p)
        } else {
            Err(ApiError::BadRequest)
        },
    }
}

/// Power save is the `Blocking` mode; turning it off returns to `Normal`.
pub fn power_save_mode(active: bool) -> (r: SmartGridMode)
    ensures
        r == (if active {
            SmartGridMode::Blocking
        } else {
            SmartGridMode::Normal
        }),
{
    if active {
        SmartGridMode::Blocking
    } else {
        SmartGridMode::Normal
    }
}

/// Power save is reported active exactly while the mode is `Blocking`.
pub fn power_save_active(mode: SmartGridMode) -> (r: bool)
    ensures
        r == (mode == SmartGridMode::Blocking),
{
    matches!(mode, SmartGridMode::Blocking)
}

/// Events asked of the step-response endpoint: 6 when absent, clamped to 1..=50.
pub fn step_response_limit(limit: Option<usize>) -> (r: usize)
    ensures
        r == (match limit {
            None => 6,
            Some(l) => if l < 1 {
                1
            } else if l > 50 {
                50
            } else {
                l
            },
        }),
{
    match limit {
        None => 6,
        Some(l) => if l < 1 {
            1
        } else if l > 50 {
            50
        } else {
            l
        },
    }
}

// endregion: --- generic register endpoint

// region: --- parameter visibility

/// Body of `GET /api/v1/visibility/parameter/{addr}`.
#[derive(Debug, Clone, Copy, PartialEq, Eq)]
pub struct ParameterVisibility {
    pub address: u16,
    pub visible: Option<bool>,
    pub description: Option<&'static str>,
    pub visibility_register: Option<u16>,
    pub bit: Option<u8>,
    pub note: Option<&'static str>,
}

/// First step of a parameter visibility request.
#[derive(Debug, Clone, Copy)]
pub enum VisibilityStep {
    /// Answer without touching the bus.
    Answer(ParameterVisibility),
    /// Read visibility register `register`, then answer with
    /// [`parameter_visibility_answer`].
    ReadRegister { param: CTCModbusParameter, register: u16 },
}

/// Decide how to answer for the parameter at `addr`: unknown parameters and
/// parameters without a visibility register are answered at once, a
/// visibility register outside 62500..=62548 is an internal error, and any
/// other needs its register read.
pub fn parameter_visibility_step(addr: u16) -> (r: Result<VisibilityStep, ApiError>)
    ensures
        !has_id(catalog(), addr) ==> r == Ok::<VisibilityStep, ApiError>(
            VisibilityStep::Answer(
                ParameterVisibility {
                    address: addr,
                    visible: None,
                    description: None,
                    visibility_register: None,
                    bit: None,
                    note: Some("Parameter not in BMS catalog - visibility unknown"),
                },
            ),
        ),
        has_id(catalog(), addr) ==> exists|p: CTCModbusParameter|
            #[trigger] is_first_with_id(catalog(), addr, p) && if VISIBILITY_REG_START <= p.visible
                <= VISIBILITY_REG_END {
                r == Ok::<VisibilityStep, ApiError>(
                    VisibilityStep::ReadRegister { param: p, register: p.visible },
                )
            } else if p.visible == 0 {
                r == Ok::<VisibilityStep, ApiError>(
                    VisibilityStep::Answer(
                        ParameterVisibility {
                            address: addr,
                            visible: Some(true),
                            description: Some(p.description),
                            visibility_register: None,
                            bit: None,
                            note: Some("Always visible (no visibility check required)"),
                        },
                    ),
                )
            } else {
                r == Err::<VisibilityStep, ApiError>(ApiError::InternalError)
            },
{
    match get_ctc_parameter_by_id(addr) {
        None => Ok(
            VisibilityStep::Answer(
                ParameterVisibility {
                    address: addr,
                    visible: None,
                    description: None,
                    visibility_register: None,
                    bit: None,
                    note: Some("Parameter not in BMS catalog - visibility unknown"),
                },
            ),
        ),
        Some(p) => {
            let reg = p.visible;
            if VISIBILITY_REG_START <= reg && reg <= VISIBILITY_REG_END {
                Ok(VisibilityStep::ReadRegister { param: p, register: reg })
            } else if reg == 0 {
                Ok(
                    VisibilityStep::Answer(
                        ParameterVisibility {
                            address: addr,
                            visible: Some(true),
                            description: Some(p.description),
                            visibility_register: None,
                            bit: None,
                            note: Some("Always visible (no visibility check required)"),
                        },
                    ),
                )
            } else {
                Err(ApiError::InternalError)
            }
        },
    }
}

/// The answer once visibility register `param.visible` read `raw`.
pub fn parameter_visibility_answer(addr: u16, param: &CTCModbusParameter, raw: u16) -> (r:
    ParameterVisibility)
    ensures
        r == (ParameterVisibility {
            address: addr,
            visible: Some(bit_set(raw, param.bit)),
            description: Some(param.description),
            visibility_register: Some(param.visible),
            bit: Some(param.bit),
            note: None,
        }),
{
    ParameterVisibility {
        address: addr,
        visible: Some(param.is_visible(raw)),
        description: Some(param.description),
        visibility_register: Some(param.visible),
        bit: Some(param.bit),
        note: None,
    }
}

// endregion: --- parameter visibility

} // verus!
