use ctc_server::smartgrid::actor::{
    compute_resume_target, pump_on_for, resolve_fires_at, resolve_pump_target,
    resume_search_window, ApplyModeError, ResumeConfig, ResumeFireOutcome, SmartGridCore,
    SmartGridError,
};
use ctc_server::smartgrid::gpio::{gpio_level, GpioController};
use ctc_server::smartgrid::heatup::{heatup_complete, is_heating, HP_STATUS_HEATING};
use ctc_server::smartgrid::mode::SmartGridMode;

fn config() -> ResumeConfig {
    ResumeConfig {
        auto_resume_enabled: true,
        auto_resume_window_hours: 12,
        auto_resume_min_duration_minutes: 30,
    }
}

#[test]
fn test_terminal_states() {
    assert_eq!(SmartGridMode::Normal.terminal_states(), (false, false));
    assert_eq!(SmartGridMode::Blocking.terminal_states(), (true, false));
    assert_eq!(SmartGridMode::LowPrice.terminal_states(), (false, true));
    assert_eq!(SmartGridMode::Overcapacity.terminal_states(), (true, true));
}

#[test]
fn test_display() {
    assert_eq!(SmartGridMode::Normal.to_string(), "Normal");
    assert_eq!(SmartGridMode::Blocking.to_string(), "Blocking");
    assert_eq!(SmartGridMode::LowPrice.to_string(), "LowPrice");
    assert_eq!(SmartGridMode::Overcapacity.to_string(), "Overcapacity");
}

#[test]
fn test_from_str() {
    assert_eq!("normal".parse::<SmartGridMode>(), Ok(SmartGridMode::Normal));
    assert_eq!("blocking".parse::<SmartGridMode>(), Ok(SmartGridMode::Blocking));
    assert_eq!("lowprice".parse::<SmartGridMode>(), Ok(SmartGridMode::LowPrice));
    assert_eq!("low_price".parse::<SmartGridMode>(), Ok(SmartGridMode::LowPrice));
    assert_eq!("overcapacity".parse::<SmartGridMode>(), Ok(SmartGridMode::Overcapacity));
    assert!("invalid".parse::<SmartGridMode>().is_err());
}

#[test]
fn from_str_ignores_case_and_accepts_hyphens() {
    assert_eq!("LOW-PRICE".parse::<SmartGridMode>(), Ok(SmartGridMode::LowPrice));
    assert_eq!("Over-Capacity".parse::<SmartGridMode>(), Ok(SmartGridMode::Overcapacity));
}

#[test]
fn pump_on_for_matches_plan() {
    assert!(pump_on_for(SmartGridMode::Normal));
    assert!(pump_on_for(SmartGridMode::LowPrice));
    assert!(pump_on_for(SmartGridMode::Overcapacity));
    assert!(!pump_on_for(SmartGridMode::Blocking));
}

#[test]
fn reconciler_target_prefers_boost_override_over_sg_intent() {
    assert!(resolve_pump_target(None, true));
    assert!(!resolve_pump_target(Some(false), true));
    assert!(resolve_pump_target(Some(true), false));
    assert!(!resolve_pump_target(None, false));
}

#[test]
fn complete_only_after_seen_heating_then_stopped() {
    assert!(!heatup_complete(Some(0), false));
    assert!(heatup_complete(Some(0), true));
}

#[test]
fn still_heating_is_not_complete() {
    assert!(!heatup_complete(Some(HP_STATUS_HEATING), true));
}

#[test]
fn transient_read_failure_is_not_complete() {
    assert!(!heatup_complete(None, true));
}

#[test]
fn is_heating_matches_only_status_three() {
    assert!(is_heating(Some(HP_STATUS_HEATING)));
    assert!(!is_heating(Some(0)));
    assert!(!is_heating(Some(2)));
    assert!(!is_heating(None));
}

#[test]
fn compute_resume_target_normal_returns_none() {
    assert_eq!(compute_resume_target(SmartGridMode::Normal, Some(10), Some(5), Some(20)), None);
}

#[test]
fn compute_resume_target_lowprice_no_prices_returns_none() {
    assert_eq!(compute_resume_target(SmartGridMode::LowPrice, None, None, None), None);
}

#[test]
fn compute_resume_target_blocking_prefers_run_then_slot() {
    assert_eq!(compute_resume_target(SmartGridMode::Blocking, Some(100), Some(50), Some(7)), Some(100));
    assert_eq!(compute_resume_target(SmartGridMode::Blocking, None, Some(50), Some(7)), Some(50));
    assert_eq!(compute_resume_target(SmartGridMode::Overcapacity, Some(100), Some(50), Some(7)), Some(7));
}

#[test]
fn resolve_fires_at_prefers_explicit_over_computed() {
    assert_eq!(resolve_fires_at(Some(42), Some(7)), Some(42));
}

#[test]
fn resolve_fires_at_falls_back_to_compute_when_none() {
    assert_eq!(resolve_fires_at(None, None), None);
}

#[test]
fn resolve_fires_at_falls_back_to_computed_some() {
    assert_eq!(resolve_fires_at(None, Some(7)), Some(7));
}

#[test]
fn resume_search_window_saturates() {
    assert_eq!(resume_search_window(&config()), (12 * 3600, 30 * 60));
    let huge = ResumeConfig { auto_resume_enabled: true, auto_resume_window_hours: u64::MAX, auto_resume_min_duration_minutes: 1 };
    assert_eq!(resume_search_window(&huge), (u64::MAX, 60));
}

#[test]
fn test_gpio_controller_creation() {
    let controller = GpioController::new(20, 21, true);
    assert_eq!(controller.gpio_k24, 20);
    assert_eq!(controller.gpio_k25, 21);
    assert!(controller.active_low);
}

#[test]
fn test_gpio_controller_initial_mode_is_normal() {
    let controller = GpioController::new(20, 21, false);
    assert_eq!(controller.read_mode(), SmartGridMode::Normal);
}

#[test]
fn test_set_mode_without_hardware_errors() {
    let mut core = SmartGridCore::new(GpioController::new(20, 21, false), config());
    let out = core.do_set_mode(
        SmartGridMode::Blocking,
        false,
        Err("GPIO lines not initialised".to_string()),
        1_000,
        None,
    );
    match out.reply {
        Err(ApplyModeError::Gpio(e)) => assert!(e.contains("not initialised")),
        other => panic!("expected a GPIO error, got {other:?}"),
    }
    assert_eq!(core.gpio.read_mode(), SmartGridMode::Normal);
}

#[test]
fn test_accepting_controller_set_mode_updates_bookkeeping() {
    let mut controller = GpioController::new(20, 21, false);
    assert_eq!(controller.read_mode(), SmartGridMode::Normal);
    assert!(controller.mode_changed_at().is_none());
    controller.set_mode(SmartGridMode::Blocking, Ok(()), 5_000).unwrap();
    assert_eq!(controller.read_mode(), SmartGridMode::Blocking);
    assert_eq!(controller.mode_changed_at(), Some(5_000));
}

#[test]
fn test_accepting_controller_same_mode_keeps_timestamp() {
    let mut controller = GpioController::new(20, 21, false);
    controller.set_mode(SmartGridMode::Blocking, Ok(()), 5_000).unwrap();
    let first = controller.mode_changed_at().unwrap();
    controller.set_mode(SmartGridMode::Blocking, Ok(()), 9_000).unwrap();
    assert_eq!(controller.mode_changed_at().unwrap(), first);
}

#[test]
fn failed_line_write_leaves_controller_unchanged() {
    let mut controller = GpioController::new(20, 21, false);
    controller.set_mode(SmartGridMode::LowPrice, Ok(()), 1_000).unwrap();
    let err = controller
        .set_mode(SmartGridMode::Blocking, Err("GPIO request not initialised".to_string()), 2_000)
        .unwrap_err();
    assert!(err.contains("not initialised"));
    assert_eq!(controller.read_mode(), SmartGridMode::LowPrice);
    assert_eq!(controller.mode_changed_at(), Some(1_000));
    controller.set_mode(SmartGridMode::Blocking, Ok(()), 3_000).unwrap();
    assert_eq!(controller.read_mode(), SmartGridMode::Blocking);
    assert_eq!(controller.mode_changed_at(), Some(3_000));
}

#[test]
fn set_mode_if_not_superseded_rejects_stale_generation() {
    let mut gpio = GpioController::new(20, 21, false);
    gpio.record_mode_written(SmartGridMode::Blocking, 1);
    let snapshot = gpio.mode_generation();
    gpio.bump_mode_generation();
    let applied = gpio.set_mode_if_not_superseded(SmartGridMode::Normal, snapshot, Ok(()), 2);
    assert_eq!(applied, Ok(false));
    assert_eq!(gpio.read_mode(), SmartGridMode::Blocking);
}

#[test]
fn supersession_rejects_resume_after_manual_change() {
    let mut gpio = GpioController::new(20, 21, false);
    let scheduled_generation = gpio.mode_generation();
    gpio.bump_mode_generation();
    let outcome = gpio.set_mode_if_not_superseded(SmartGridMode::Normal, scheduled_generation, Ok(()), 3);
    assert_eq!(outcome, Ok(false));
    assert!(gpio.mode_changed_at().is_none());
}

#[test]
fn gpio_levels_follow_board_polarity() {
    assert!(gpio_level(false, true));
    assert!(!gpio_level(true, true));
    let g = GpioController::new(20, 21, true);
    assert_eq!(g.gpio_levels(SmartGridMode::Blocking), (false, true));
}

#[test]
fn blocking_with_schedule_starts_timer_and_resume_clears_it() {
    let mut core = SmartGridCore::new(GpioController::new(20, 21, false), config());
    let out = core.do_set_mode(SmartGridMode::Blocking, true, Ok(()), 100, Some(7_000));
    assert!(matches!(out.reply, Ok(Some(7_000))));
    let (fires_at, generation) = out.start_timer.expect("timer started");
    assert_eq!(fires_at, 7_000);
    assert_eq!(core.scheduled_resume_at(), Some(7_000));
    assert!(core.resume_is_current(generation));

    let fired = core.on_resume_fire(fires_at, generation, Ok(()), 7_000);
    assert_eq!(fired, ResumeFireOutcome::Applied);
    assert_eq!(core.gpio.read_mode(), SmartGridMode::Normal);
    assert_eq!(core.scheduled_resume_at(), None);
}

#[test]
fn manual_change_supersedes_pending_resume() {
    let mut core = SmartGridCore::new(GpioController::new(20, 21, false), config());
    let out = core.do_set_mode(SmartGridMode::Blocking, true, Ok(()), 100, Some(7_000));
    let (fires_at, generation) = out.start_timer.unwrap();
    let second = core.do_set_mode(SmartGridMode::LowPrice, false, Ok(()), 200, None);
    assert_eq!(second.cancelled, Some(7_000));
    assert!(!core.resume_is_current(generation));
    let fired = core.on_resume_fire(fires_at, generation, Ok(()), 7_000);
    assert_eq!(fired, ResumeFireOutcome::Superseded);
    assert_eq!(core.gpio.read_mode(), SmartGridMode::LowPrice);
}

#[test]
fn normal_mode_never_schedules_and_cancel_is_idempotent() {
    let mut core = SmartGridCore::new(GpioController::new(20, 21, false), config());
    let out = core.do_set_mode(SmartGridMode::Normal, true, Ok(()), 100, Some(7_000));
    assert!(matches!(out.reply, Ok(None)));
    assert!(out.start_timer.is_none());
    assert_eq!(core.cancel_scheduled_resume(), None);
    assert_eq!(core.cancel_scheduled_resume(), None);
}

#[test]
fn smartgrid_error_messages() {
    assert_eq!(SmartGridError::ActorGone.to_message(), "SmartGrid actor unavailable");
    assert_eq!(
        SmartGridError::Apply(ApplyModeError::Gpio("boom".to_string())).to_message(),
        "GPIO error: boom"
    );
    assert_eq!(SmartGridError::Internal("x".to_string()).to_message(), "x");
}
