use ctc_server::modbus::actor::{
    attempt_outcome, cache_from_scan, check_raw_against_bounds, inter_request_wait, is_transient, write_outcome, ModbusErrorKind, check_visibility_against, check_writable,
    needs_bounds_check, retry_step, step_is_valid, visibility_register_value, AttemptOutcome,
    OperationStats, RawCheck, RetryStep, VisibilityError, WriteRefusal, VISIBILITY_REG_COUNT,
    VISIBILITY_REG_END, VISIBILITY_REG_START,
};
use ctc_server::modbus::bms_parameters::{
    all_ctc_parameters, get_ctc_parameter_by_id, get_custom_ctc_parameter_by_addr,
};
use ctc_server::modbus::keepalive::{mode_code, mode_from_code, SmartGridKeepalive};
use ctc_server::modbus::{
    mask_has_bit, Access, CTCModbusParameter, HeatSystemStatus, HotWaterMode, SmartGridMode,
    SMARTGRID_KEEPALIVE_INTERVAL_SECS,
};
use std::str::FromStr;

fn dummy_param(visible: u16, bit: u8) -> CTCModbusParameter {
    CTCModbusParameter {
        id: 1000,
        signed: false,
        access: Access::R,
        reg_max: None,
        reg_min: None,
        reg_step: None,
        visible,
        bit,
        factor_num: 1,
        factor_den: 1,
        description: "dummy",
    }
}

fn param_with(access: Access, signed: bool, num: u16, den: u16) -> CTCModbusParameter {
    CTCModbusParameter {
        id: 2000,
        signed,
        access,
        reg_max: None,
        reg_min: None,
        reg_step: None,
        visible: 0,
        bit: 0,
        factor_num: num,
        factor_den: den,
        description: "test",
    }
}

#[test]
fn test_hot_water_mode_conversions() {
    assert_eq!(u16::from(HotWaterMode::Economy), 0);
    assert_eq!(u16::from(HotWaterMode::Normal), 1);
    assert_eq!(u16::from(HotWaterMode::Comfort), 2);
    assert_eq!(u16::from(HotWaterMode::Manual), 3);

    assert_eq!(HotWaterMode::try_from(0), Ok(HotWaterMode::Economy));
    assert_eq!(HotWaterMode::try_from(1), Ok(HotWaterMode::Normal));
    assert_eq!(HotWaterMode::try_from(2), Ok(HotWaterMode::Comfort));
    assert_eq!(HotWaterMode::try_from(3), Ok(HotWaterMode::Manual));
    assert!(HotWaterMode::try_from(4).is_err());
}

#[test]
fn mod_test_hot_water_mode_conversions() {
    assert_eq!(u16::from(HotWaterMode::Economy), 0);
    assert_eq!(u16::from(HotWaterMode::Normal), 1);
    assert_eq!(u16::from(HotWaterMode::Comfort), 2);
    assert_eq!(u16::from(HotWaterMode::Manual), 3);

    assert_eq!(HotWaterMode::try_from(0), Ok(HotWaterMode::Economy));
    assert_eq!(HotWaterMode::try_from(1), Ok(HotWaterMode::Normal));
    assert_eq!(HotWaterMode::try_from(2), Ok(HotWaterMode::Comfort));
    assert_eq!(HotWaterMode::try_from(3), Ok(HotWaterMode::Manual));
    assert!(HotWaterMode::try_from(4).is_err());
}

#[test]
fn test_heat_system_status_conversions() {
    assert_eq!(u16::from(HeatSystemStatus::HeatingOff), 0);
    assert_eq!(u16::from(HeatSystemStatus::Vacation), 1);
    assert_eq!(u16::from(HeatSystemStatus::NightReduction), 2);
    assert_eq!(u16::from(HeatSystemStatus::On), 3);

    assert_eq!(HeatSystemStatus::try_from(0), Ok(HeatSystemStatus::HeatingOff));
    assert_eq!(HeatSystemStatus::try_from(1), Ok(HeatSystemStatus::Vacation));
    assert_eq!(HeatSystemStatus::try_from(2), Ok(HeatSystemStatus::NightReduction));
    assert_eq!(HeatSystemStatus::try_from(3), Ok(HeatSystemStatus::On));
    assert!(HeatSystemStatus::try_from(4).is_err());
}

#[test]
fn mod_test_heat_system_status_conversions() {
    assert_eq!(u16::from(HeatSystemStatus::HeatingOff), 0);
    assert_eq!(u16::from(HeatSystemStatus::Vacation), 1);
    assert_eq!(u16::from(HeatSystemStatus::NightReduction), 2);
    assert_eq!(u16::from(HeatSystemStatus::On), 3);

    assert_eq!(HeatSystemStatus::try_from(0), Ok(HeatSystemStatus::HeatingOff));
    assert_eq!(HeatSystemStatus::try_from(1), Ok(HeatSystemStatus::Vacation));
    assert_eq!(HeatSystemStatus::try_from(2), Ok(HeatSystemStatus::NightReduction));
    assert_eq!(HeatSystemStatus::try_from(3), Ok(HeatSystemStatus::On));
    assert!(HeatSystemStatus::try_from(4).is_err());
}

#[test]
fn test_smartgrid_mode_to_register() {
    assert_eq!(SmartGridMode::Normal.to_register_value(), 0x0000);
    assert_eq!(SmartGridMode::Blocking.to_register_value(), 0x0040);
    assert_eq!(SmartGridMode::LowPrice.to_register_value(), 0x0080);
    assert_eq!(SmartGridMode::Overcapacity.to_register_value(), 0x00C0);
}

#[test]
fn test_smartgrid_mode_from_register() {
    assert_eq!(SmartGridMode::from_register_value(0x0000), Ok(SmartGridMode::Normal));
    assert_eq!(SmartGridMode::from_register_value(0x0040), Ok(SmartGridMode::Blocking));
    assert_eq!(SmartGridMode::from_register_value(0x0080), Ok(SmartGridMode::LowPrice));
    assert_eq!(SmartGridMode::from_register_value(0x00C0), Ok(SmartGridMode::Overcapacity));
    assert_eq!(SmartGridMode::from_register_value(0x003F), Ok(SmartGridMode::Normal));
    assert_eq!(SmartGridMode::from_register_value(0x007F), Ok(SmartGridMode::Blocking));
}

#[test]
fn test_smartgrid_mode_from_str() {
    assert_eq!(SmartGridMode::from_str("normal"), Ok(SmartGridMode::Normal));
    assert_eq!(SmartGridMode::from_str("Normal"), Ok(SmartGridMode::Normal));
    assert_eq!(SmartGridMode::from_str("blocking"), Ok(SmartGridMode::Blocking));
    assert_eq!(SmartGridMode::from_str("Blocking"), Ok(SmartGridMode::Blocking));
    assert_eq!(SmartGridMode::from_str("lowprice"), Ok(SmartGridMode::LowPrice));
    assert_eq!(SmartGridMode::from_str("low_price"), Ok(SmartGridMode::LowPrice));
    assert_eq!(SmartGridMode::from_str("overcapacity"), Ok(SmartGridMode::Overcapacity));
    assert_eq!(SmartGridMode::from_str("over_capacity"), Ok(SmartGridMode::Overcapacity));
    assert!(SmartGridMode::from_str("invalid").is_err());
}

#[test]
fn test_smartgrid_mode_display() {
    assert_eq!(SmartGridMode::Normal.to_string(), "Normal");
    assert_eq!(SmartGridMode::Blocking.to_string(), "Blocking");
    assert_eq!(SmartGridMode::LowPrice.to_string(), "LowPrice");
    assert_eq!(SmartGridMode::Overcapacity.to_string(), "Overcapacity");
}

#[test]
fn test_step_validation_from_minimum() {
    let min = 152_u16;
    let step = 5_u16;
    assert!(step_is_valid(min, min, step), "152 should be valid (offset 0 from min 152)");
    assert!(step_is_valid(157, min, step), "157 should be valid (offset 5 from min 152)");
    assert!(step_is_valid(162, min, step), "162 should be valid (offset 10 from min 152)");
    assert!(!step_is_valid(153, min, step), "153 should be invalid (offset 1 from min 152)");
    assert!(!step_is_valid(154, min, step), "154 should be invalid (offset 2 from min 152)");
}

#[test]
fn test_step_validation_from_zero() {
    let min = 0_u16;
    let step = 10_u16;
    assert!(step_is_valid(0, min, step), "0 should be valid");
    assert!(step_is_valid(10, min, step), "10 should be valid");
    assert!(step_is_valid(50, min, step), "50 should be valid");
    assert!(!step_is_valid(5, min, step), "5 should be invalid");
    assert!(!step_is_valid(15, min, step), "15 should be invalid");
}

#[test]
fn test_step_validation_various_scenarios() {
    let min = 100_u16;
    let step = 3_u16;
    assert!(step_is_valid(100, min, step), "100 should be valid");
    assert!(step_is_valid(103, min, step), "103 should be valid");
    assert!(step_is_valid(106, min, step), "106 should be valid");
    assert!(!step_is_valid(101, min, step), "101 should be invalid");
    assert!(!step_is_valid(102, min, step), "102 should be invalid");

    let min = 7_u16;
    let step = 1_u16;
    assert!(step_is_valid(7, min, step), "7 should be valid");
    assert!(step_is_valid(8, min, step), "8 should be valid");
    assert!(step_is_valid(100, min, step), "100 should be valid");
}

#[test]
fn step_zero_accepts_only_the_minimum() {
    assert!(step_is_valid(40, 40, 0));
    assert!(!step_is_valid(41, 40, 0));
}

#[test]
fn check_visibility_falls_back_to_optimistic_when_cache_missing() {
    let param = dummy_param(VISIBILITY_REG_START + 5, 3);
    assert_eq!(check_visibility_against(None, &param), Ok(true));
}

#[test]
fn check_visibility_zero_visible_register_always_visible() {
    let param = dummy_param(0, 0);
    assert_eq!(check_visibility_against(None, &param), Ok(true));
    let cache = vec![0u16; VISIBILITY_REG_COUNT];
    assert_eq!(check_visibility_against(Some(&cache), &param), Ok(true));
}

#[test]
fn check_visibility_respects_cache_when_populated() {
    let param = dummy_param(VISIBILITY_REG_START, 3);
    let mut cache = vec![0u16; VISIBILITY_REG_COUNT];
    assert_eq!(check_visibility_against(Some(&cache), &param), Ok(false));
    cache[0] = 1 << 3;
    assert_eq!(check_visibility_against(Some(&cache), &param), Ok(true));
}

#[test]
fn check_visibility_out_of_range_only_errors_when_cache_present() {
    let param = dummy_param(VISIBILITY_REG_END + 1, 0);
    assert_eq!(check_visibility_against(None, &param), Ok(true));
    let cache = vec![0u16; VISIBILITY_REG_COUNT];
    assert_eq!(
        check_visibility_against(Some(&cache), &param),
        Err(VisibilityError::InvalidVisibilityRegister(VISIBILITY_REG_END + 1))
    );
}

#[test]
fn visibility_register_value_reads_cache_slot() {
    let mut cache = vec![0u16; VISIBILITY_REG_COUNT];
    cache[48] = 0xBEEF;
    assert_eq!(visibility_register_value(&cache, 62548), Ok(0xBEEF));
    assert_eq!(
        visibility_register_value(&cache, 62549),
        Err(VisibilityError::InvalidVisibilityRegister(62549))
    );
}

#[test]
fn cache_from_scan_requires_full_scan() {
    assert!(cache_from_scan(vec![0u16; VISIBILITY_REG_COUNT]).is_some());
    assert!(cache_from_scan(vec![0u16; 3]).is_none());
}

#[test]
fn mask_bits_are_read_low_first() {
    assert!(mask_has_bit(0x0200, 9));
    assert!(!mask_has_bit(0x0200, 8));
    assert!(!mask_has_bit(0xFFFF, 16));
}

#[test]
fn scaled_tenths_rounds_half_away_from_zero() {
    // factor 0.1: raw 225 -> 22.5 -> 225 tenths
    let p = param_with(Access::R, true, 1, 10);
    assert_eq!(p.scaled_tenths(225), 225);
    // signed: 0xFFF6 = -10 -> -1.0 -> -10 tenths
    assert_eq!(p.scaled_tenths(0xFFF6), -10);
    // factor 1.0 unsigned: 22 -> 220 tenths
    let q = param_with(Access::R, false, 1, 1);
    assert_eq!(q.scaled_tenths(22), 220);
    // factor 0.01: raw 5 -> 0.05 -> rounds to 0.1 -> 1 tenth
    let r = param_with(Access::R, false, 1, 100);
    assert_eq!(r.scaled_tenths(5), 1);
    assert_eq!(r.scaled_tenths(4), 0);
    assert_eq!(q.scaled_tenths_vector(&[1, 2, 3]), vec![10, 20, 30]);
    assert_eq!(q.raw_as_i32(0xFFFF), 65535);
    assert_eq!(p.raw_as_i32(0xFFFF), -1);
}

#[test]
fn write_checks_follow_access() {
    let ro = param_with(Access::R, false, 1, 1);
    assert_eq!(check_writable(&ro), Err(WriteRefusal::ReadOnly { register: 2000 }));
    let rw = param_with(Access::RW, false, 1, 1);
    assert_eq!(check_writable(&rw), Ok(()));
    assert!(needs_bounds_check(&rw));
    let wo = param_with(Access::W, false, 1, 1);
    assert!(!needs_bounds_check(&wo));
}

#[test]
fn raw_bounds_checks_range_then_step() {
    assert_eq!(check_raw_against_bounds(157, 300, 152, 5), RawCheck::Accepted);
    assert_eq!(check_raw_against_bounds(151, 300, 152, 5), RawCheck::OutOfRange { min: 152, max: 300 });
    assert_eq!(check_raw_against_bounds(301, 300, 152, 5), RawCheck::OutOfRange { min: 152, max: 300 });
    assert_eq!(check_raw_against_bounds(153, 300, 152, 5), RawCheck::InvalidStep { min: 152, step: 5 });
}

#[test]
fn retry_policy_gives_up_after_max_retries() {
    assert_eq!(retry_step(0, 3, AttemptOutcome::Success), RetryStep::Done);
    assert_eq!(retry_step(0, 3, AttemptOutcome::TransientError), RetryStep::Retry { next_attempt: 1 });
    assert_eq!(retry_step(3, 3, AttemptOutcome::TimedOut), RetryStep::GiveUp);
    assert_eq!(retry_step(0, 3, AttemptOutcome::PermanentError), RetryStep::GiveUp);
}

#[test]
fn operation_stats_flag_critical_failures() {
    let mut s = OperationStats::new(2);
    assert!(!s.record_failure());
    assert!(s.record_failure());
    s.record_success();
    assert_eq!(s.consecutive_failures, 0);
    assert_eq!(s.total_operations, 1);
    assert_eq!(s.total_failures, 2);
}

#[test]
fn catalog_lookup_finds_room_temperature() {
    let p = get_ctc_parameter_by_id(62203).expect("room temperature is in the catalog");
    assert_eq!(p.id, 62203);
    assert!(get_ctc_parameter_by_id(1).is_none());
    assert!(!all_ctc_parameters().is_empty());
}

#[test]
fn custom_parameter_is_read_only_and_always_visible() {
    let p = get_custom_ctc_parameter_by_addr(65001, 1, 10);
    assert_eq!(p.id, 65001);
    assert_eq!(p.access, Access::R);
    assert!(p.signed);
    assert_eq!(p.visible, 0);
    assert_eq!(p.description, "Custom CTC Parameter");
}

#[test]
fn test_smartgrid_keepalive_creation() {
    let keepalive = SmartGridKeepalive::new(SmartGridMode::Normal, Some(60));
    assert_eq!(keepalive.get_mode(), SmartGridMode::Normal);
    assert_eq!(keepalive.interval_secs, 60);
    let default = SmartGridKeepalive::new(SmartGridMode::Normal, None);
    assert_eq!(default.interval_secs, SMARTGRID_KEEPALIVE_INTERVAL_SECS);
}

#[test]
fn test_smartgrid_keepalive_set_mode() {
    let mut keepalive = SmartGridKeepalive::new(SmartGridMode::Normal, Some(60));
    keepalive.set_mode(SmartGridMode::Blocking);
    assert_eq!(keepalive.get_mode(), SmartGridMode::Blocking);
    keepalive.set_mode(SmartGridMode::LowPrice);
    assert_eq!(keepalive.get_mode(), SmartGridMode::LowPrice);
    keepalive.set_mode(SmartGridMode::Overcapacity);
    assert_eq!(keepalive.get_mode(), SmartGridMode::Overcapacity);
}

#[test]
fn keepalive_codes_round_trip_and_default_to_normal() {
    assert_eq!(mode_code(SmartGridMode::LowPrice), 0x80);
    assert_eq!(mode_from_code(0xC0), SmartGridMode::Overcapacity);
    assert_eq!(mode_from_code(0x13), SmartGridMode::Normal);
}

#[test]
fn transient_errors_are_retried_permanent_ones_are_not() {
    assert!(is_transient(ModbusErrorKind::ReadError));
    assert!(!is_transient(ModbusErrorKind::OutOfRange));
    assert_eq!(attempt_outcome(ModbusErrorKind::Timeout), AttemptOutcome::TimedOut);
    assert_eq!(attempt_outcome(ModbusErrorKind::ReadOnly), AttemptOutcome::PermanentError);
    assert_eq!(retry_step(0, 3, attempt_outcome(ModbusErrorKind::ReadOnly)), RetryStep::GiveUp);
}

#[test]
fn inter_request_gap_waits_only_the_remainder() {
    assert_eq!(inter_request_wait(50, None), 0);
    assert_eq!(inter_request_wait(50, Some(20)), 30);
    assert_eq!(inter_request_wait(50, Some(80)), 0);
    assert_eq!(inter_request_wait(0, Some(0)), 0);
}

fn room_settemp() -> CTCModbusParameter {
    get_ctc_parameter_by_id(61509).expect("room setpoint is cataloged")
}

fn heatsystem_status() -> CTCModbusParameter {
    get_ctc_parameter_by_id(62246).expect("heating system status is cataloged")
}

// Scaled values are exact counts of tenths: 10.5 is 105 tenths.

#[test]
fn test_get_scaled_value_pos() {
    assert_eq!(room_settemp().scaled_tenths(105), 105);
}

#[test]
fn test_get_scaled_value_neg() {
    assert_eq!(room_settemp().scaled_tenths(65431), -105);
}

#[test]
fn test_get_scaled_value_vector_0_1() {
    assert_eq!(room_settemp().scaled_tenths_vector(&[221, 222, 223]), vec![221, 222, 223]);
}

#[test]
fn test_get_scaled_value_vector_1_0() {
    assert_eq!(heatsystem_status().scaled_tenths_vector(&[22, 23, 24]), vec![220, 230, 240]);
}

#[test]
fn mod_test_get_scaled_value_vector_0_1() {
    assert_eq!(room_settemp().scaled_tenths_vector(&[221, 222, 223]), vec![221, 222, 223]);
}

#[test]
fn mod_test_get_scaled_value_vector_1_0() {
    assert_eq!(heatsystem_status().scaled_tenths_vector(&[22, 23, 24]), vec![220, 230, 240]);
}

#[test]
fn test_get_scaled_value_0_1() {
    assert_eq!(room_settemp().scaled_tenths(221), 221);
}

#[test]
fn test_get_scaled_value_signed() {
    assert_eq!(room_settemp().scaled_tenths(32767), 32767);
}

#[test]
fn test_get_scaled_value_signed_negative() {
    assert_eq!(room_settemp().scaled_tenths(32768), -32768);
}

#[test]
fn test_get_scaled_value_different_factor() {
    assert_eq!(room_settemp().scaled_tenths(100), 100);
}

#[test]
fn test_get_scaled_value_one_factor() {
    assert_eq!(heatsystem_status().scaled_tenths(10), 100);
}

#[test]
fn test_get_scaled_value_zero() {
    assert_eq!(heatsystem_status().scaled_tenths(0), 0);
}

#[test]
fn write_outcome_follows_visibility_and_read_back() {
    assert_eq!(write_outcome(Ok(true), 5, None), Ok(()));
    assert_eq!(write_outcome(Ok(true), 5, Some(5)), Ok(()));
    assert_eq!(write_outcome(Ok(true), 5, Some(6)), Err(ModbusErrorKind::VerificationError));
    assert_eq!(write_outcome(Ok(false), 5, Some(5)), Err(ModbusErrorKind::ParameterNotVisible));
    assert_eq!(
        write_outcome(Err(VisibilityError::InvalidVisibilityRegister(1)), 5, None),
        Err(ModbusErrorKind::InvalidVisibilityRegister)
    );
}

#[test]
fn mode_names_parse_in_any_case() {
    assert_eq!(SmartGridMode::parse("NORMAL"), Ok(SmartGridMode::Normal));
    assert_eq!(SmartGridMode::parse("LowPrice"), Ok(SmartGridMode::LowPrice));
}
