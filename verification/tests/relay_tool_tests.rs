use ctc_server::relay_tool::{
    assign_terminal, check_relay_args, classify_logic_level, cycle_transitions, header_pin,
    loop_modes, mode_from_control_register, mode_of_lowered, mode_from_sgmode, parse_mode, relay_levels,
    terminal_for_mode, HeatPumpStatus, RelayConfig, SmartGridMode,
};

#[test]
fn bits_round_trip() {
    for m in loop_modes() {
        assert_eq!(SmartGridMode::from_bits(m.to_bits()), m);
    }
    assert_eq!(SmartGridMode::from_bits(0b111), SmartGridMode::Overcapacity);
    assert_eq!(SmartGridMode::LowPrice.name(), "LowPrice");
    assert_eq!(SmartGridMode::Blocking.to_string(), "Blocking");
    assert_eq!(SmartGridMode::LowPrice.terminal_states(), (false, true));
}

#[test]
fn parse_mode_accepts_aliases() {
    assert_eq!(parse_mode("block"), Ok(SmartGridMode::Blocking));
    assert_eq!(parse_mode("LOW"), Ok(SmartGridMode::LowPrice));
    assert_eq!(parse_mode("highcap"), Ok(SmartGridMode::Overcapacity));
    assert_eq!(parse_mode("normal"), Ok(SmartGridMode::Normal));
    assert_eq!(
        parse_mode("x"),
        Err("Invalid mode 'x'. Valid: normal, blocking, lowprice, overcapacity".to_string())
    );
}

#[test]
fn registers_decode_modes() {
    assert_eq!(mode_from_control_register(0x0040), SmartGridMode::Blocking);
    assert_eq!(mode_from_control_register(0xFF3F), SmartGridMode::Normal);
    assert_eq!(mode_from_control_register(0x00C0), SmartGridMode::Overcapacity);
    assert_eq!(mode_from_sgmode(2), SmartGridMode::LowPrice);
    assert_eq!(mode_from_sgmode(9), SmartGridMode::Normal);
}

#[test]
fn relay_levels_follow_polarity() {
    let cfg = RelayConfig::default();
    assert!(!cfg.active_low);
    assert_eq!((cfg.gpio_k25, cfg.gpio_k26), (20, 21));
    assert_eq!(relay_levels(&cfg, SmartGridMode::Blocking), (true, false));
    let low = RelayConfig { active_low: true, ..cfg };
    assert_eq!(relay_levels(&low, SmartGridMode::Blocking), (false, true));
}

#[test]
fn discovery_decisions() {
    assert_eq!(classify_logic_level(SmartGridMode::Overcapacity, SmartGridMode::Normal), Some(true));
    assert_eq!(classify_logic_level(SmartGridMode::Normal, SmartGridMode::Overcapacity), Some(false));
    assert_eq!(classify_logic_level(SmartGridMode::Blocking, SmartGridMode::Normal), None);
    assert_eq!(terminal_for_mode(SmartGridMode::Blocking), Some(true));
    assert_eq!(terminal_for_mode(SmartGridMode::LowPrice), Some(false));
    assert_eq!(terminal_for_mode(SmartGridMode::Normal), None);
    let m = assign_terminal(Some(true), 20, (None, None));
    let m = assign_terminal(Some(false), 21, m);
    assert_eq!(m, (Some(20), Some(21)));
    assert_eq!(assign_terminal(None, 21, m), m);
    assert_eq!(header_pin(20), 38);
    assert_eq!(header_pin(21), 40);
}

#[test]
fn relay_command_needs_a_relay() {
    assert_eq!(
        check_relay_args(None, None),
        Err("At least one of --k25 or --k26 must be specified".to_string())
    );
    assert_eq!(check_relay_args(Some(true), None), Ok(()));
}

#[test]
fn mode_sequences() {
    assert_eq!(loop_modes().len(), 4);
    let t = cycle_transitions();
    assert_eq!(t[3], (SmartGridMode::Overcapacity, SmartGridMode::Normal));
}

#[test]
fn heat_pump_status_codes() {
    assert_eq!(HeatPumpStatus::from(3), HeatPumpStatus::CompressorOnHeating);
    assert_eq!(HeatPumpStatus::from(33), HeatPumpStatus::ChargeDhw);
    assert_eq!(HeatPumpStatus::from(9), HeatPumpStatus::Unknown);
    assert_eq!(HeatPumpStatus::from(6).to_string(), "Compressor off (BLOCKED)");
    assert_eq!(HeatPumpStatus::Unknown.to_string(), "Unknown");
}

#[test]
fn lowered_names_and_aliases() {
    assert_eq!(mode_of_lowered("high"), Some(SmartGridMode::Overcapacity));
    assert_eq!(mode_of_lowered("High"), None);
}
