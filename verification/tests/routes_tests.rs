use ctc_server::routes::activity::{
    brine_on, dhw_on, heating_on, lane_from_idx, merged_times, segment, ActivitySegment, Lane,
};
use ctc_server::routes::{
    api_error_for, api_error_for_reply, check_resume_at, check_set_smartgrid, ctc_read_parameter,
    ctc_write_parameter, map_smartgrid_error, parameter_visibility_answer,
    parameter_visibility_step, power_save_active, power_save_mode, resume_decision, series_window,
    step_response_limit, window_hours, ActorReply, ApiError, VisibilityStep,
};
use ctc_server::modbus::actor::ModbusErrorKind;
use ctc_server::smartgrid::actor::{ApplyModeError, SmartGridError};
use ctc_server::smartgrid::mode::SmartGridMode;
use ctc_server::timefmt::iso;

fn s(t: i64, v: u16) -> (i64, Option<u16>) {
    (t, Some(v))
}

#[test]
fn empty_series_yields_empty() {
    let out = segment(&[], &[], &[], 0, 0);
    assert!(out.is_empty());
}

#[test]
fn single_dhw_run_emits_one_segment() {
    let sys = vec![s(10, 5), s(100, 7)];
    let hp = vec![s(10, 3), s(100, 1)];
    let out = segment(&sys, &hp, &[], 0, 100);
    assert_eq!(out.len(), 1);
    assert_eq!(out[0].lane, Lane::Dhw);
}

#[test]
fn overlapping_heating_and_brine_emit_separate_segments() {
    let sys = vec![s(10, 4), s(100, 7)];
    let hp = vec![s(10, 3), s(100, 1)];
    let bp = vec![(10, true), (100, false)];
    let out = segment(&sys, &hp, &bp, 0, 100);
    assert_eq!(out.len(), 2);
    let lanes: Vec<Lane> = out.iter().map(|s| s.lane).collect();
    assert!(lanes.contains(&Lane::Heating));
    assert!(lanes.contains(&Lane::Brine));
}

#[test]
fn open_run_closes_at_now() {
    let sys = vec![s(10, 5)];
    let hp = vec![s(10, 3)];
    let out = segment(&sys, &hp, &[], 0, 500);
    assert_eq!(out.len(), 1);
    assert_eq!(out[0].lane, Lane::Dhw);
    assert_eq!(out[0].end, 500);
    assert!(iso(out[0].end).contains(':'));
}

#[test]
fn brine_runs_independent_of_compressor() {
    let bp = vec![(10, true), (60, false)];
    let out = segment(&[], &[], &bp, 0, 60);
    assert_eq!(out.len(), 1);
    assert_eq!(out[0].lane, Lane::Brine);
}

#[test]
fn segment_begins_at_window_open_when_cycle_already_active() {
    let from: i64 = 0;
    let now: i64 = 1000;
    let sys = vec![s(100, 4), s(500, 7)];
    let hp = vec![s(100, 3), s(500, 1)];
    let out = segment(&sys, &hp, &[], from, now);
    assert_eq!(out.len(), 1, "exactly one heating segment");
    assert_eq!(out[0].lane, Lane::Heating);
    assert_eq!(out[0].start, from);
    assert_eq!(iso(out[0].start), iso(from));
}

#[test]
fn segment_starts_at_transition_not_from_when_cycle_begins_in_window() {
    let sys = vec![s(100, 7), s(500, 4), s(900, 7)];
    let hp = vec![s(100, 1), s(500, 3), s(900, 1)];
    let out = segment(&sys, &hp, &[], 0, 1000);
    assert_eq!(out.len(), 1);
    assert_eq!(out[0].lane, Lane::Heating);
    assert_eq!(out[0].start, 500);
    assert_eq!(out[0].end, 900);
}

#[test]
fn segments_close_in_lane_order_within_a_tick() {
    // Heating and brine both stop at t=50; heating is listed first.
    let sys = vec![s(10, 10), s(50, 7)];
    let hp = vec![s(10, 4), s(50, 1)];
    let bp = vec![(10, true), (50, false)];
    let out = segment(&sys, &hp, &bp, 0, 80);
    assert_eq!(
        out,
        vec![
            ActivitySegment { lane: Lane::Heating, start: 0, end: 50 },
            ActivitySegment { lane: Lane::Dhw, start: 0, end: 50 },
            ActivitySegment { lane: Lane::Brine, start: 0, end: 50 },
        ]
    );
}

#[test]
fn lane_predicates() {
    assert!(heating_on(Some(0), Some(3)));
    assert!(!heating_on(Some(5), Some(3)));
    assert!(!heating_on(None, Some(3)));
    assert!(dhw_on(Some(10), Some(5)));
    assert!(!dhw_on(Some(10), Some(6)));
    assert!(brine_on(Some(true)));
    assert!(!brine_on(None));
    assert_eq!(lane_from_idx(0), Lane::Heating);
    assert_eq!(lane_from_idx(1), Lane::Dhw);
    assert_eq!(lane_from_idx(7), Lane::Brine);
}

#[test]
fn merged_times_are_sorted_and_unique() {
    let sys = vec![s(10, 1), s(30, 1)];
    let hp = vec![s(10, 1), s(20, 1), s(20, 2)];
    let bp = vec![(5, true), (30, false)];
    assert_eq!(merged_times(&sys, &hp, &bp), vec![5, 10, 20, 30]);
}

#[test]
fn iso_formats_whole_seconds_utc() {
    assert_eq!(iso(0), "1970-01-01T00:00:00Z");
    assert_eq!(iso(1_431_648_000), "2015-05-15T00:00:00Z");
    assert_eq!(iso(i64::MAX), "1970-01-01T00:00:00Z");
}

#[test]
fn modbus_errors_map_to_api_errors() {
    assert_eq!(api_error_for(ModbusErrorKind::ReadError), ApiError::InternalError);
    assert_eq!(api_error_for(ModbusErrorKind::Timeout), ApiError::Timeout);
    assert_eq!(api_error_for(ModbusErrorKind::ReadOnly), ApiError::BadRequest);
    assert_eq!(api_error_for(ModbusErrorKind::OutOfRange), ApiError::BadRequest);
    assert_eq!(api_error_for(ModbusErrorKind::VerificationError), ApiError::InternalError);
    assert_eq!(api_error_for(ModbusErrorKind::InvalidVisibilityRegister), ApiError::NotFound);
    assert_eq!(api_error_for(ModbusErrorKind::VisibilityNotScanned), ApiError::InternalError);
    assert_eq!(api_error_for_reply(ActorReply::ChannelClosed), ApiError::ServiceUnavailable);
    assert_eq!(api_error_for_reply(ActorReply::TimedOut), ApiError::Timeout);
    assert_eq!(api_error_for_reply(ActorReply::Unexpected), ApiError::InternalError);
    assert_eq!(api_error_for_reply(ActorReply::Failed(ModbusErrorKind::ReadOnly)), ApiError::BadRequest);
}

#[test]
fn smartgrid_errors_map_to_api_errors() {
    assert_eq!(map_smartgrid_error(SmartGridError::ActorGone), ApiError::ServiceUnavailable);
    assert_eq!(
        map_smartgrid_error(SmartGridError::Apply(ApplyModeError::Gpio("x".to_string()))),
        ApiError::InternalError
    );
    assert_eq!(map_smartgrid_error(SmartGridError::Internal("y".to_string())), ApiError::InternalError);
}

#[test]
fn series_window_covers_requested_hours() {
    assert_eq!(window_hours(None), 24);
    assert_eq!(window_hours(Some(0)), 1);
    assert_eq!(window_hours(Some(99)), 24);
    assert_eq!(series_window(10_000, 1), Ok((6_400, 10_000, 10_001)));
    assert_eq!(series_window(u64::MAX, 1), Err(ApiError::InternalError));
}

#[test]
fn resume_at_grace_and_parse_errors() {
    let now: u128 = 1_700_000_000_000_000_000;
    assert_eq!(check_resume_at(None, now), Ok(None));
    assert_eq!(check_resume_at(Some("not a time"), now), Err(ApiError::BadRequest));
    // 2023-11-14T22:13:20Z is exactly `now`.
    assert_eq!(check_resume_at(Some("2023-11-14T22:13:20Z"), now), Ok(Some(now)));
    // 59 s in the past is within grace; 60 s is stale.
    assert_eq!(
        check_resume_at(Some("2023-11-14T22:12:21Z"), now),
        Ok(Some(now - 59_000_000_000))
    );
    assert_eq!(check_resume_at(Some("2023-11-14T22:12:20Z"), now), Err(ApiError::BadRequest));
}

#[test]
fn set_smartgrid_checks_in_order() {
    let now: u128 = 1_700_000_000_000_000_000;
    assert_eq!(check_set_smartgrid(false, "blocking", None, now), Err(ApiError::ServiceUnavailable));
    assert_eq!(check_set_smartgrid(true, "sideways", None, now), Err(ApiError::BadRequest));
    assert_eq!(
        check_set_smartgrid(true, "BLOCKING", None, now),
        Ok((SmartGridMode::Blocking, None))
    );
    assert_eq!(
        check_set_smartgrid(true, "blocking", Some("2000-01-01T00:00:00Z"), now),
        Err(ApiError::BadRequest)
    );
}

#[test]
fn parameter_visibility_steps() {
    match parameter_visibility_step(60000) {
        Ok(VisibilityStep::Answer(a)) => {
            assert_eq!(a.address, 60000);
            assert_eq!(a.visible, None);
            assert_eq!(a.note, Some("Parameter not in BMS catalog - visibility unknown"));
        }
        _ => panic!("unknown parameter should be answered at once"),
    }
    match parameter_visibility_step(62203) {
        Ok(VisibilityStep::ReadRegister { param, register }) => {
            assert_eq!(register, param.visible);
            assert_eq!(register, 62543);
            let ans = parameter_visibility_answer(62203, &param, 1 << param.bit);
            assert_eq!(ans.visible, Some(true));
            assert_eq!(ans.visibility_register, Some(62543));
            let no = parameter_visibility_answer(62203, &param, 0);
            assert_eq!(no.visible, Some(false));
        }
        _ => panic!("room temperature needs its visibility register read"),
    }
}

#[test]
fn generic_register_endpoint_parameters() {
    let custom = ctc_read_parameter(65001, Some(true), 1, 10).unwrap();
    assert_eq!(custom.id, 65001);
    assert_eq!(custom.description, "Custom CTC Parameter");
    assert_eq!(ctc_read_parameter(60000, None, 1, 1).unwrap_err(), ApiError::BadRequest);
    assert_eq!(ctc_read_parameter(62203, Some(false), 1, 1).unwrap().id, 62203);
    assert_eq!(ctc_write_parameter(60000, true).unwrap_err(), ApiError::BadRequest);
    assert_eq!(ctc_write_parameter(62203, false).unwrap_err(), ApiError::BadRequest);
}

#[test]
fn power_save_and_limits() {
    assert_eq!(power_save_mode(true), SmartGridMode::Blocking);
    assert_eq!(power_save_mode(false), SmartGridMode::Normal);
    assert!(power_save_active(SmartGridMode::Blocking));
    assert!(!power_save_active(SmartGridMode::LowPrice));
    assert_eq!(step_response_limit(None), 6);
    assert_eq!(step_response_limit(Some(0)), 1);
    assert_eq!(step_response_limit(Some(1000)), 50);
}

#[test]
fn resume_at_far_future_is_accepted() {
    let now: u128 = 1_700_000_000_000_000_000;
    // Past 2262-04-11, beyond an i64 count of nanoseconds.
    let r = check_resume_at(Some("2300-01-01T00:00:00Z"), now).unwrap().unwrap();
    assert_eq!(r, 10_413_792_000u128 * 1_000_000_000);
    assert!(check_set_smartgrid(true, "blocking", Some("9999-12-31T23:59:59Z"), now).is_ok());
}

#[test]
fn resume_decision_on_parsed_instants() {
    let now: u128 = 100_000_000_000;
    assert_eq!(resume_decision(None, now), Err(ApiError::BadRequest));
    assert_eq!(resume_decision(Some((100, 5)), now), Ok(Some(100_000_000_005)));
    assert_eq!(resume_decision(Some((41, 0)), now), Ok(Some(41_000_000_000)));
    assert_eq!(resume_decision(Some((40, 0)), now), Err(ApiError::BadRequest));
    assert_eq!(resume_decision(Some((-1, 0)), 0), Ok(Some(0)));
}

#[test]
fn lane_runs_come_in_order_inside_the_window() {
    let bp = vec![(5, true), (20, false), (30, true), (40, false), (50, true)];
    let out = segment(&[], &[], &bp, 0, 60);
    assert_eq!(
        out,
        vec![
            ActivitySegment { lane: Lane::Brine, start: 0, end: 20 },
            ActivitySegment { lane: Lane::Brine, start: 30, end: 40 },
            ActivitySegment { lane: Lane::Brine, start: 50, end: 60 },
        ]
    );
    for w in out.windows(2) {
        assert!(w[0].end < w[1].start);
    }
    assert!(out.iter().all(|g| 0 <= g.start && g.start <= g.end && g.end <= 60));
    assert_eq!(out.iter().filter(|g| g.end == 60).count(), 1);
}
