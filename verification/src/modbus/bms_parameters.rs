//! The CTC BMS parameter catalog (register addresses, access, visibility
//! bits and scaling factors) and lookups into it.

use vstd::prelude::*;
use super::{Access, CTCModbusParameter};

verus! {

/// Lowest valid alarm reference value (inclusive) for the text buffer transfer register.
pub const ALARM_REF_MIN: u16 = 0;

/// Highest valid alarm reference value (inclusive) for the text buffer transfer register.
pub const ALARM_REF_MAX: u16 = 9999;

/// Offset added to an info index to form its reference value (info N = `INFO_REF_OFFSET` + N).
pub const INFO_REF_OFFSET: u16 = 10000;

/// Highest valid info reference value (inclusive) for the text buffer transfer register.
pub const INFO_REF_MAX: u16 = 19999;

/// A signed read-write parameter whose max/min/step registers are `base`,
/// `base + 1` and `base + 2`.
pub open spec fn spec_rw(
    id: u16,
    access: Access,
    base: u16,
    visible: u16,
    bit: u8,
    num: u16,
    den: u16,
    description: &'static str,
) -> CTCModbusParameter {
    CTCModbusParameter {
        id,
        signed: true,
        access,
        reg_max: Some(base),
        reg_min: Some((base + 1) as u16),
        reg_step: Some((base + 2) as u16),
        visible,
        bit,
        factor_num: num,
        factor_den: den,
        description,
    }
}

/// A read-only parameter without min/max/step registers.
pub open spec fn spec_ro(
    id: u16,
    signed: bool,
    visible: u16,
    bit: u8,
    num: u16,
    den: u16,
    description: &'static str,
) -> CTCModbusParameter {
    CTCModbusParameter {
        id,
        signed,
        access: Access::R,
        reg_max: None,
        reg_min: None,
        reg_step: None,
        visible,
        bit,
        factor_num: num,
        factor_den: den,
        description,
    }
}

/// An unsigned, always-visible write-only register with unit factor.
pub open spec fn spec_wo(id: u16, description: &'static str) -> CTCModbusParameter {
    CTCModbusParameter {
        id,
        signed: false,
        access: Access::W,
        reg_max: None,
        reg_min: None,
        reg_step: None,
        visible: 0,
        bit: 0,
        factor_num: 1,
        factor_den: 1,
        description,
    }
}

fn rw(
    id: u16,
    access: Access,
    base: u16,
    visible: u16,
    bit: u8,
    num: u16,
    den: u16,
    description: &'static str,
) -> (r: CTCModbusParameter)
    requires
        base <= 0xfffd,
    ensures
        r == spec_rw(id, access, base, visible, bit, num, den, description),
{
    CTCModbusParameter {
        id,
        signed: true,
        access,
        reg_max: Some(base),
        reg_min: Some(base + 1),
        reg_step: Some(base + 2),
        visible,
        bit,
        factor_num: num,
        factor_den: den,
        description,
    }
}

fn ro(
    id: u16,
    signed: bool,
    visible: u16,
    bit: u8,
    num: u16,
    den: u16,
    description: &'static str,
) -> (r: CTCModbusParameter)
    ensures
        r == spec_ro(id, signed, visible, bit, num, den, description),
{
    CTCModbusParameter {
        id,
        signed,
        access: Access::R,
        reg_max: None,
        reg_min: None,
        reg_step: None,
        visible,
        bit,
        factor_num: num,
        factor_den: den,
        description,
    }
}

fn wo(id: u16, description: &'static str) -> (r: CTCModbusParameter)
    ensures
        r == spec_wo(id, description),
{
    CTCModbusParameter {
        id,
        signed: false,
        access: Access::W,
        reg_max: None,
        reg_min: None,
        reg_step: None,
        visible: 0,
        bit: 0,
        factor_num: 1,
        factor_den: 1,
        description,
    }
}

/// The catalog, in the order of the BMS register document.
pub open spec fn catalog() -> Seq<CTCModbusParameter> {
    seq![
        /* HEATSYSTEM_ROOM_SETTEMP */ spec_rw(61509, Access::RW, 60027, 62500, 9, 1, 10, "Heating system 1: Set room temperature"),
        /* HEATSYSTEM_INCLINATION */ spec_rw(61513, Access::RW, 60039, 62500, 13, 1, 10, "Heating system 1: Change inclination"),
        /* HEATSYSTEM_ADJUSTMENT */ spec_rw(61517, Access::RW, 60051, 62501, 1, 1, 10, "Heating system 1: Change adjustment"),
        /* HEATSYSTEM_FLOW_MAX_TEMP */ spec_rw(61534, Access::RW, 60102, 62502, 2, 1, 10, "Heating system 1: Max Primary flow °C"),
        /* HEATSYSTEM_FLOW_MIN_TEMP */ spec_rw(61538, Access::RW, 60114, 62502, 6, 1, 10, "Heating system 1: Min primary flow °C"),
        /* HEATSYSTEM_HEATING_MODE */ spec_rw(61542, Access::RW, 60126, 62502, 10, 1, 1, "Heating system 1: Heating mode"),
        /* HEATSYSTEM_HEAT_OFF_TEMP */ spec_rw(61546, Access::RW, 60138, 62502, 14, 1, 10, "Heating system 1: Heating off, out °C"),
        /* HEATSYSTEM_HEAT_OFF_TIME */ spec_rw(61550, Access::RW, 60150, 62503, 2, 1, 1, "Heating system 1: Heating off time"),
        /* HEATSYSTEM_ROOM_TEMP_NIGHT_REDUCTION */ spec_rw(61554, Access::RW, 60162, 62503, 6, 1, 10, "Heating system 1: Room temp night reduction"),
        /* HEATSYSTEM_OUTDOOR_NIGHT_REDUCTION */ spec_rw(61562, Access::RW, 60186, 62503, 14, 1, 10, "Heating system 1: Outdoor temp night reduction"),
        /* HEATSYSTEM_ALARM_LOW_ROOM_TEMP */ spec_rw(61566, Access::RW, 60198, 62504, 2, 1, 10, "Heating system 1: Alarm low room temperature"),
        /* HEATSYSTEM_FLOW_SETPOINT */ spec_ro(62007, true, 62531, 11, 1, 10, "Heating system 1: Temperature setpoint primary flow"),
        /* HEATSYSTEM_FLOW_TEMP */ spec_ro(62011, true, 62531, 15, 1, 10, "Heating system 1: Primary flow temperature"),
        /* HEATSYSTEM_STATUS */ spec_ro(62246, false, 62546, 10, 1, 1, "Heating system 1 status"),
        /* CTC_RETURN_TEMP */ spec_ro(62015, true, 62532, 3, 1, 10, "Return temp"),
        /* CTC_HOT_WATER_MODE */ spec_rw(61500, Access::RW, 60000, 62500, 0, 1, 1, "Hot water mode"),
        /* CTC_ROOM_TEMP */ spec_ro(62203, true, 62543, 15, 1, 10, "Current room temp 1"),
        /* CTC_OUTDOOR_TEMP */ spec_ro(62000, true, 62531, 4, 1, 10, "Outdoor temperature"),
        /* CTC_VACCATION_DAYS */ spec_rw(61508, Access::RW, 60024, 62500, 8, 1, 1, "Number of vacation days timer"),
        /* CTC_STOP_TEMP_DHW */ spec_ro(62001, true, 62531, 5, 1, 10, "Stop temperature DHW"),
        /* CTC_DELAY_MIXING_VALVE */ spec_ro(62004, true, 62531, 8, 1, 1, "Delay mixing valve"),
        /* CTC_SYSTEM_STATUS */ spec_ro(62005, false, 62531, 9, 1, 1, "System status"),
        /* CTC_RADIATOR_WATER */ spec_ro(62006, true, 62531, 10, 1, 10, "Radiator water"),
        /* CTC_PRODUCT_TYPE */ spec_ro(62253, true, 62547, 1, 1, 1, "Product type"),
        /* CTC_HOT_WATER_STOP_TEMP */ spec_rw(61501, Access::RW, 60003, 62500, 1, 1, 10, "Manual stop temperature hot water"),
        /* CTC_EXTRA_HOT_WATER_TIMER */ spec_rw(61503, Access::RW, 60009, 62500, 3, 1, 2, "Extra hot water timer"),
        /* CTC_MAX_TIME_HEATING_HP */ spec_rw(61504, Access::RW, 60012, 62500, 4, 1, 1, "Maximum time heating heat pump"),
        /* CTC_MAX_TIME_HOT_WATER */ spec_rw(61505, Access::RW, 60015, 62500, 5, 1, 1, "Maximum time hot water"),
        /* CTC_SETPOINT_LOWER_TANK */ spec_ro(62274, true, 62548, 6, 1, 10, "Setpoint lower tank"),
        /* CTC_ACTUAL_TEMP_DHW */ spec_ro(62276, true, 62548, 8, 1, 10, "Actual temperature DHW"),
        /* CTC_MAX_IMMERSION_HEATER_DHW */ spec_rw(61591, Access::RW, 60273, 62505, 11, 1, 10, "Max immersion heater DHW kW"),
        /* CTC_DELAY_MIXING_VALVE_SETTING */ spec_rw(61629, Access::RW, 60387, 62508, 1, 1, 1, "Delay mixing valve setting"),
        /* HEATPUMP_BLOCKED */ spec_rw(61521, Access::RW, 60063, 62501, 5, 1, 1, "Heat pump 1 (A1): Blocked"),
        /* HEATPUMP_STATUS */ spec_ro(62017, false, 62532, 5, 1, 1, "Heat pump 1 (A1): Status"),
        /* HEATPUMP_INLET_TEMP */ spec_ro(62027, true, 62532, 15, 1, 10, "Heat pump 1 (A1) HP in"),
        /* HEATPUMP_OUTLET_TEMP */ spec_ro(62037, true, 62533, 9, 1, 10, "Heat pump 1 (A1) HP out"),
        /* HEATPUMP_DISCHARGE_TEMP */ spec_ro(62047, true, 62534, 3, 1, 10, "Heat pump 1 (A1): Discharge temperature"),
        /* HEATPUMP_SUCTION_TEMP */ spec_ro(62057, true, 62534, 13, 1, 10, "Heat pump 1 (A1): Suction gas temperature"),
        /* HEATPUMP_HIGH_PRESSURE */ spec_ro(62067, true, 62535, 7, 1, 10, "Heat pump 1 (A1): High pressure"),
        /* HEATPUMP_LOW_PRESSURE */ spec_ro(62077, true, 62536, 1, 1, 10, "Heat pump 1 (A1): Low Pressure"),
        /* HEATPUMP_BRINE_INLET_TEMP */ spec_ro(62087, true, 62536, 11, 1, 10, "Heat pump 1 (A1): Brine in"),
        /* HEATPUMP_BRINE_OUTLET_TEMP */ spec_ro(62097, true, 62537, 5, 1, 10, "Heat pump 1 (A1): Brine out"),
        /* HEATPUMP_CHARGE_PUMP */ spec_ro(62107, true, 62537, 15, 1, 10, "Heat pump 1 (A1): Charge pump"),
        /* HEATPUMP_BRINE_PUMP */ spec_ro(62117, true, 62538, 9, 1, 10, "Heat pump 1 (A1): Brine pump"),
        /* HEATPUMP_SOFTWARE_VERSION */ spec_ro(62157, true, 62541, 1, 1, 1, "Heat pump 1 (A1): Software version"),
        /* HEATPUMP_TYPE */ spec_ro(62254, true, 62547, 2, 1, 1, "Heat pump 1 (A1) Type"),
        /* HEATPUMP_COMPRESSOR_MODEL */ spec_ro(62264, true, 62547, 12, 1, 1, "Heat pump 1 (A1) compressor model"),
        /* CTC_POWER_IMMERSION_HEATER */ spec_ro(62168, true, 62541, 12, 1, 10, "Power kW immersion heater"),
        /* CTC_CURRENT_L1 */ spec_ro(62171, true, 62541, 15, 1, 10, "Current L1"),
        /* CTC_CURRENT_L2 */ spec_ro(62172, true, 62542, 0, 1, 10, "Current L2"),
        /* CTC_CURRENT_L3 */ spec_ro(62173, true, 62542, 1, 1, 10, "Current L3"),
        /* CTC_STAT_TOTAL_OPERATION_LSB */ spec_ro(62186, true, 62542, 14, 1, 1, "Total operation hours LSB"),
        /* CTC_STAT_IMMERSION_HEATER_KWH */ spec_ro(62191, true, 62543, 3, 1, 1, "Immersion heater kWh"),
        /* CTC_FUNCTION_TEST */ spec_ro(62192, true, 62543, 4, 1, 1, "Function test"),
        /* CTC_COMPRESSOR_OPERATION_TIME_LSB */ spec_ro(62214, true, 62544, 10, 1, 1, "Compressor 1 operating time LSB"),
        /* CTC_COMPRESSOR_LAST_24H */ spec_ro(62234, true, 62545, 14, 1, 1, "Compressor 1 last 24h"),
        /* CTC_SOFTWARE_VERSION_MONTH_DAY */ spec_ro(62244, true, 62546, 8, 1, 1, "Software version display month day"),
        /* CTC_SOFTWARE_VERSION_YEAR */ spec_ro(62245, true, 62546, 9, 1, 1, "Software version display year"),
        /* CTC_ALARM_INFO_COUNT */ spec_ro(65001, false, 0, 0, 1, 1, "Active alarm and info count"),
        /* CTC_ALARM_INFO_BUFFER */ spec_wo(65100, "Transfer alarm/info reference to text buffer"),
    ]
}

/// All catalog parameters.
pub fn all_ctc_parameters() -> (r: Vec<CTCModbusParameter>)
    ensures
        r@ == catalog(),
        forall|i: int| 0 <= i < r.len() ==> #[trigger] r[i].wf(),
{
    let v = vec![
        /* HEATSYSTEM_ROOM_SETTEMP */ rw(61509, Access::RW, 60027, 62500, 9, 1, 10, "Heating system 1: Set room temperature"),
        /* HEATSYSTEM_INCLINATION */ rw(61513, Access::RW, 60039, 62500, 13, 1, 10, "Heating system 1: Change inclination"),
        /* HEATSYSTEM_ADJUSTMENT */ rw(61517, Access::RW, 60051, 62501, 1, 1, 10, "Heating system 1: Change adjustment"),
        /* HEATSYSTEM_FLOW_MAX_TEMP */ rw(61534, Access::RW, 60102, 62502, 2, 1, 10, "Heating system 1: Max Primary flow °C"),
        /* HEATSYSTEM_FLOW_MIN_TEMP */ rw(61538, Access::RW, 60114, 62502, 6, 1, 10, "Heating system 1: Min primary flow °C"),
        /* HEATSYSTEM_HEATING_MODE */ rw(61542, Access::RW, 60126, 62502, 10, 1, 1, "Heating system 1: Heating mode"),
        /* HEATSYSTEM_HEAT_OFF_TEMP */ rw(61546, Access::RW, 60138, 62502, 14, 1, 10, "Heating system 1: Heating off, out °C"),
        /* HEATSYSTEM_HEAT_OFF_TIME */ rw(61550, Access::RW, 60150, 62503, 2, 1, 1, "Heating system 1: Heating off time"),
        /* HEATSYSTEM_ROOM_TEMP_NIGHT_REDUCTION */ rw(61554, Access::RW, 60162, 62503, 6, 1, 10, "Heating system 1: Room temp night reduction"),
        /* HEATSYSTEM_OUTDOOR_NIGHT_REDUCTION */ rw(61562, Access::RW, 60186, 62503, 14, 1, 10, "Heating system 1: Outdoor temp night reduction"),
        /* HEATSYSTEM_ALARM_LOW_ROOM_TEMP */ rw(61566, Access::RW, 60198, 62504, 2, 1, 10, "Heating system 1: Alarm low room temperature"),
        /* HEATSYSTEM_FLOW_SETPOINT */ ro(62007, true, 62531, 11, 1, 10, "Heating system 1: Temperature setpoint primary flow"),
        /* HEATSYSTEM_FLOW_TEMP */ ro(62011, true, 62531, 15, 1, 10, "Heating system 1: Primary flow temperature"),
        /* HEATSYSTEM_STATUS */ ro(62246, false, 62546, 10, 1, 1, "Heating system 1 status"),
        /* CTC_RETURN_TEMP */ ro(62015, true, 62532, 3, 1, 10, "Return temp"),
        /* CTC_HOT_WATER_MODE */ rw(61500, Access::RW, 60000, 62500, 0, 1, 1, "Hot water mode"),
        /* CTC_ROOM_TEMP */ ro(62203, true, 62543, 15, 1, 10, "Current room temp 1"),
        /* CTC_OUTDOOR_TEMP */ ro(62000, true, 62531, 4, 1, 10, "Outdoor temperature"),
        /* CTC_VACCATION_DAYS */ rw(61508, Access::RW, 60024, 62500, 8, 1, 1, "Number of vacation days timer"),
        /* CTC_STOP_TEMP_DHW */ ro(62001, true, 62531, 5, 1, 10, "Stop temperature DHW"),
        /* CTC_DELAY_MIXING_VALVE */ ro(62004, true, 62531, 8, 1, 1, "Delay mixing valve"),
        /* CTC_SYSTEM_STATUS */ ro(62005, false, 62531, 9, 1, 1, "System status"),
        /* CTC_RADIATOR_WATER */ ro(62006, true, 62531, 10, 1, 10, "Radiator water"),
        /* CTC_PRODUCT_TYPE */ ro(62253, true, 62547, 1, 1, 1, "Product type"),
        /* CTC_HOT_WATER_STOP_TEMP */ rw(61501, Access::RW, 60003, 62500, 1, 1, 10, "Manual stop temperature hot water"),
        /* CTC_EXTRA_HOT_WATER_TIMER */ rw(61503, Access::RW, 60009, 62500, 3, 1, 2, "Extra hot water timer"),
        /* CTC_MAX_TIME_HEATING_HP */ rw(61504, Access::RW, 60012, 62500, 4, 1, 1, "Maximum time heating heat pump"),
        /* CTC_MAX_TIME_HOT_WATER */ rw(61505, Access::RW, 60015, 62500, 5, 1, 1, "Maximum time hot water"),
        /* CTC_SETPOINT_LOWER_TANK */ ro(62274, true, 62548, 6, 1, 10, "Setpoint lower tank"),
        /* CTC_ACTUAL_TEMP_DHW */ ro(62276, true, 62548, 8, 1, 10, "Actual temperature DHW"),
        /* CTC_MAX_IMMERSION_HEATER_DHW */ rw(61591, Access::RW, 60273, 62505, 11, 1, 10, "Max immersion heater DHW kW"),
        /* CTC_DELAY_MIXING_VALVE_SETTING */ rw(61629, Access::RW, 60387, 62508, 1, 1, 1, "Delay mixing valve setting"),
        /* HEATPUMP_BLOCKED */ rw(61521, Access::RW, 60063, 62501, 5, 1, 1, "Heat pump 1 (A1): Blocked"),
        /* HEATPUMP_STATUS */ ro(62017, false, 62532, 5, 1, 1, "Heat pump 1 (A1): Status"),
        /* HEATPUMP_INLET_TEMP */ ro(62027, true, 62532, 15, 1, 10, "Heat pump 1 (A1) HP in"),
        /* HEATPUMP_OUTLET_TEMP */ ro(62037, true, 62533, 9, 1, 10, "Heat pump 1 (A1) HP out"),
        /* HEATPUMP_DISCHARGE_TEMP */ ro(62047, true, 62534, 3, 1, 10, "Heat pump 1 (A1): Discharge temperature"),
        /* HEATPUMP_SUCTION_TEMP */ ro(62057, true, 62534, 13, 1, 10, "Heat pump 1 (A1): Suction gas temperature"),
        /* HEATPUMP_HIGH_PRESSURE */ ro(62067, true, 62535, 7, 1, 10, "Heat pump 1 (A1): High pressure"),
        /* HEATPUMP_LOW_PRESSURE */ ro(62077, true, 62536, 1, 1, 10, "Heat pump 1 (A1): Low Pressure"),
        /* HEATPUMP_BRINE_INLET_TEMP */ ro(62087, true, 62536, 11, 1, 10, "Heat pump 1 (A1): Brine in"),
        /* HEATPUMP_BRINE_OUTLET_TEMP */ ro(62097, true, 62537, 5, 1, 10, "Heat pump 1 (A1): Brine out"),
        /* HEATPUMP_CHARGE_PUMP */ ro(62107, true, 62537, 15, 1, 10, "Heat pump 1 (A1): Charge pump"),
        /* HEATPUMP_BRINE_PUMP */ ro(62117, true, 62538, 9, 1, 10, "Heat pump 1 (A1): Brine pump"),
        /* HEATPUMP_SOFTWARE_VERSION */ ro(62157, true, 62541, 1, 1, 1, "Heat pump 1 (A1): Software version"),
        /* HEATPUMP_TYPE */ ro(62254, true, 62547, 2, 1, 1, "Heat pump 1 (A1) Type"),
        /* HEATPUMP_COMPRESSOR_MODEL */ ro(62264, true, 62547, 12, 1, 1, "Heat pump 1 (A1) compressor model"),
        /* CTC_POWER_IMMERSION_HEATER */ ro(62168, true, 62541, 12, 1, 10, "Power kW immersion heater"),
        /* CTC_CURRENT_L1 */ ro(62171, true, 62541, 15, 1, 10, "Current L1"),
        /* CTC_CURRENT_L2 */ ro(62172, true, 62542, 0, 1, 10, "Current L2"),
        /* CTC_CURRENT_L3 */ ro(62173, true, 62542, 1, 1, 10, "Current L3"),
        /* CTC_STAT_TOTAL_OPERATION_LSB */ ro(62186, true, 62542, 14, 1, 1, "Total operation hours LSB"),
        /* CTC_STAT_IMMERSION_HEATER_KWH */ ro(62191, true, 62543, 3, 1, 1, "Immersion heater kWh"),
        /* CTC_FUNCTION_TEST */ ro(62192, true, 62543, 4, 1, 1, "Function test"),
        /* CTC_COMPRESSOR_OPERATION_TIME_LSB */ ro(62214, true, 62544, 10, 1, 1, "Compressor 1 operating time LSB"),
        /* CTC_COMPRESSOR_LAST_24H */ ro(62234, true, 62545, 14, 1, 1, "Compressor 1 last 24h"),
        /* CTC_SOFTWARE_VERSION_MONTH_DAY */ ro(62244, true, 62546, 8, 1, 1, "Software version display month day"),
        /* CTC_SOFTWARE_VERSION_YEAR */ ro(62245, true, 62546, 9, 1, 1, "Software version display year"),
        /* CTC_ALARM_INFO_COUNT */ ro(65001, false, 0, 0, 1, 1, "Active alarm and info count"),
        /* CTC_ALARM_INFO_BUFFER */ wo(65100, "Transfer alarm/info reference to text buffer"),
    ];
    assert(v@ =~= catalog());
    v
}

/// True when `p` is the first entry of `s` with id `id`.
pub open spec fn is_first_with_id(s: Seq<CTCModbusParameter>, id: u16, p: CTCModbusParameter) -> bool {
    exists|i: int|
        0 <= i < s.len() && s[i] == p && p.id == id && forall|j: int|
            0 <= j < i ==> (#[trigger] s[j]).id != id
}

pub open spec fn has_id(s: Seq<CTCModbusParameter>, id: u16) -> bool {
    exists|i: int| 0 <= i < s.len() && (#[trigger] s[i]).id == id
}

/// First entry of `params` whose register id is `id`.
pub fn find_by_id(params: &Vec<CTCModbusParameter>, id: u16) -> (r: Option<CTCModbusParameter>)
    ensures
        r is Some <==> has_id(params@, id),
        r matches Some(p) ==> is_first_with_id(params@, id, p),
{
    let mut i: usize = 0;
    while i < params.len()
        invariant
            i <= params.len(),
            forall|j: int| 0 <= j < i ==> (#[trigger] params@[j]).id != id,
        decreases params.len() - i,
    {
        if params[i].id == id {
            assert(params@[i as int].id == id);
            return Some(params[i]);
        }
        i += 1;
    }
    None
}

/// Catalog parameter with register id `id`, if the catalog has one.
pub fn get_ctc_parameter_by_id(id: u16) -> (r: Option<CTCModbusParameter>)
    ensures
        r is Some <==> has_id(catalog(), id),
        r matches Some(p) ==> is_first_with_id(catalog(), id, p) && p.wf(),
{
    let all = all_ctc_parameters();
    let r = find_by_id(&all, id);
    proof {
        if let Some(p) = r {
            let i = choose|i: int|
                0 <= i < all@.len() && all@[i] == p && p.id == id && forall|j: int|
                    0 <= j < i ==> (#[trigger] all@[j]).id != id;
            assert(all[i].wf());
        }
    }
    r
}

/// Descriptor for an arbitrary register outside the catalog: read-only,
/// signed, always visible, with scaling factor `factor_num / factor_den`.
pub fn get_custom_ctc_parameter_by_addr(addr: u16, factor_num: u16, factor_den: u16) -> (r: CTCModbusParameter)
    ensures
        r == spec_ro(addr, true, 0, 0, factor_num, factor_den, "Custom CTC Parameter"),
{
    ro(addr, true, 0, 0, factor_num, factor_den, "Custom CTC Parameter")
}

} // verus!
