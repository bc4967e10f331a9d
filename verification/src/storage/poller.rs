//! What the sensor poller reads each tick: the register behind every cached
//! sensor, and the reverse lookup used by the generic register route to
//! serve cached sensors without a bus read.

use vstd::prelude::*;
use super::{Sensor, sensor_order};
use crate::modbus::CTCModbusParameter;
use crate::modbus::bms_parameters::{catalog, get_ctc_parameter_by_id, is_first_with_id, has_id};

verus! {

/// Register address that the poller reads for `s`.
pub open spec fn spec_sensor_register(s: Sensor) -> u16 {
    match s {
        Sensor::Room => 62203,
        Sensor::Outdoor => 62000,
        Sensor::Flow => 62011,
        Sensor::Return => 62015,
        Sensor::FlowSp => 62007,
        Sensor::HpIn => 62027,
        Sensor::HpOut => 62037,
        Sensor::Discharge => 62047,
        Sensor::Suction => 62057,
        Sensor::HighP => 62067,
        Sensor::LowP => 62077,
        Sensor::BrineIn => 62087,
        Sensor::BrineOut => 62097,
        Sensor::ChargePump => 62107,
        Sensor::BrinePump => 62117,
        Sensor::DhwUpper => 62276,
        Sensor::Lower => 62006,
        Sensor::SystemStatus => 62005,
        Sensor::HpStatus => 62017,
    }
}

/// The sensor whose register is `addr`, if any.
pub open spec fn spec_sensor_for_addr(addr: u16) -> Option<Sensor> {
    if exists|s: Sensor| spec_sensor_register(s) == addr {
        Some(choose|s: Sensor| spec_sensor_register(s) == addr)
    } else {
        None
    }
}

/// Register address that the poller reads for `s`.
pub fn sensor_register(s: Sensor) -> (r: u16)
    ensures
        r == spec_sensor_register(s),
{
    match s {
        Sensor::Room => 62203,
        Sensor::Outdoor => 62000,
        Sensor::Flow => 62011,
        Sensor::Return => 62015,
        Sensor::FlowSp => 62007,
        Sensor::HpIn => 62027,
        Sensor::HpOut => 62037,
        Sensor::Discharge => 62047,
        Sensor::Suction => 62057,
        Sensor::HighP => 62067,
        Sensor::LowP => 62077,
        Sensor::BrineIn => 62087,
        Sensor::BrineOut => 62097,
        Sensor::ChargePump => 62107,
        Sensor::BrinePump => 62117,
        Sensor::DhwUpper => 62276,
        Sensor::Lower => 62006,
        Sensor::SystemStatus => 62005,
        Sensor::HpStatus => 62017,
    }
}

/// The catalog parameter that the poller reads for `s` (the first catalog
/// entry at the sensor's register).
pub fn sensor_parameter(s: Sensor) -> (r: Option<CTCModbusParameter>)
    ensures
        has_id(catalog(), spec_sensor_register(s)) ==> r is Some && is_first_with_id(
            catalog(),
            spec_sensor_register(s),
            r->0,
        ),
        !has_id(catalog(), spec_sensor_register(s)) ==> r is None,
{
    get_ctc_parameter_by_id(sensor_register(s))
}

/// Map a Modbus register address to the sensor that caches it, if any.
pub fn sensor_for_addr(addr: u16) -> (r: Option<Sensor>)
    ensures
        r == spec_sensor_for_addr(addr),
        r matches Some(s) ==> spec_sensor_register(s) == addr,
{
    proof {
        sensor_registers_distinct();
    }
    let all = Sensor::all();
    let mut i: usize = 0;
    while i < all.len()
        invariant
            all@ == sensor_order(),
            i <= all.len(),
            forall|j: int| 0 <= j < i ==> spec_sensor_register(#[trigger] all@[j]) != addr,
        decreases all.len() - i,
    {
        if sensor_register(all[i]) == addr {
            let s = all[i];
            assert(spec_sensor_register(s) == addr);
            return Some(s);
        }
        i += 1;
    }
    proof {
        assert forall|s: Sensor| spec_sensor_register(s) != addr by {
            super::sensor_ids_distinct(s, s);
            let k = super::spec_sensor_id(s) - 1;
            assert(all@[k] == s);
        }
    }
    None
}

/// The catalog description of the quantity each sensor records.
pub open spec fn sensor_quantity(s: Sensor) -> Seq<char> {
    match s {
        Sensor::Room => "Current room temp 1"@,
        Sensor::Outdoor => "Outdoor temperature"@,
        Sensor::Flow => "Heating system 1: Primary flow temperature"@,
        Sensor::Return => "Return temp"@,
        Sensor::FlowSp => "Heating system 1: Temperature setpoint primary flow"@,
        Sensor::HpIn => "Heat pump 1 (A1) HP in"@,
        Sensor::HpOut => "Heat pump 1 (A1) HP out"@,
        Sensor::Discharge => "Heat pump 1 (A1): Discharge temperature"@,
        Sensor::Suction => "Heat pump 1 (A1): Suction gas temperature"@,
        Sensor::HighP => "Heat pump 1 (A1): High pressure"@,
        Sensor::LowP => "Heat pump 1 (A1): Low Pressure"@,
        Sensor::BrineIn => "Heat pump 1 (A1): Brine in"@,
        Sensor::BrineOut => "Heat pump 1 (A1): Brine out"@,
        Sensor::ChargePump => "Heat pump 1 (A1): Charge pump"@,
        Sensor::BrinePump => "Heat pump 1 (A1): Brine pump"@,
        Sensor::DhwUpper => "Actual temperature DHW"@,
        Sensor::Lower => "Radiator water"@,
        Sensor::SystemStatus => "System status"@,
        Sensor::HpStatus => "Heat pump 1 (A1): Status"@,
    }
}

/// Every sensor reads the catalog register of the quantity it records: the
/// catalog entry at the sensor's register describes that quantity (Flow the
/// primary flow temperature, Return the return temperature, and so on for
/// every sensor).
pub proof fn sensor_reads_its_quantity(s: Sensor)
    ensures
        exists|i: int|
            0 <= i < catalog().len() && (#[trigger] catalog()[i]).id == spec_sensor_register(s)
                && catalog()[i].description@ == sensor_quantity(s),
{
    match s {
        Sensor::Room => {
            assert(catalog()[16].id == spec_sensor_register(s) && catalog()[16].description@
                == sensor_quantity(s));
        },
        Sensor::Outdoor => {
            assert(catalog()[17].id == spec_sensor_register(s) && catalog()[17].description@
                == sensor_quantity(s));
        },
        Sensor::Flow => {
            assert(catalog()[12].id == spec_sensor_register(s) && catalog()[12].description@
                == sensor_quantity(s));
        },
        Sensor::Return => {
            assert(catalog()[14].id == spec_sensor_register(s) && catalog()[14].description@
                == sensor_quantity(s));
        },
        Sensor::FlowSp => {
            assert(catalog()[11].id == spec_sensor_register(s) && catalog()[11].description@
                == sensor_quantity(s));
        },
        Sensor::HpIn => {
            assert(catalog()[34].id == spec_sensor_register(s) && catalog()[34].description@
                == sensor_quantity(s));
        },
        Sensor::HpOut => {
            assert(catalog()[35].id == spec_sensor_register(s) && catalog()[35].description@
                == sensor_quantity(s));
        },
        Sensor::Discharge => {
            assert(catalog()[36].id == spec_sensor_register(s) && catalog()[36].description@
                == sensor_quantity(s));
        },
        Sensor::Suction => {
            assert(catalog()[37].id == spec_sensor_register(s) && catalog()[37].description@
                == sensor_quantity(s));
        },
        Sensor::HighP => {
            assert(catalog()[38].id == spec_sensor_register(s) && catalog()[38].description@
                == sensor_quantity(s));
        },
        Sensor::LowP => {
            assert(catalog()[39].id == spec_sensor_register(s) && catalog()[39].description@
                == sensor_quantity(s));
        },
        Sensor::BrineIn => {
            assert(catalog()[40].id == spec_sensor_register(s) && catalog()[40].description@
                == sensor_quantity(s));
        },
        Sensor::BrineOut => {
            assert(catalog()[41].id == spec_sensor_register(s) && catalog()[41].description@
                == sensor_quantity(s));
        },
        Sensor::ChargePump => {
            assert(catalog()[42].id == spec_sensor_register(s) && catalog()[42].description@
                == sensor_quantity(s));
        },
        Sensor::BrinePump => {
            assert(catalog()[43].id == spec_sensor_register(s) && catalog()[43].description@
                == sensor_quantity(s));
        },
        Sensor::DhwUpper => {
            assert(catalog()[29].id == spec_sensor_register(s) && catalog()[29].description@
                == sensor_quantity(s));
        },
        Sensor::Lower => {
            assert(catalog()[22].id == spec_sensor_register(s) && catalog()[22].description@
                == sensor_quantity(s));
        },
        Sensor::SystemStatus => {
            assert(catalog()[21].id == spec_sensor_register(s) && catalog()[21].description@
                == sensor_quantity(s));
        },
        Sensor::HpStatus => {
            assert(catalog()[33].id == spec_sensor_register(s) && catalog()[33].description@
                == sensor_quantity(s));
        },
    }
}

/// Distinct sensors read distinct registers, so the reverse lookup is
/// exact: looking up a sensor's register gives back that sensor.
pub proof fn sensor_registers_distinct()
    ensures
        forall|a: Sensor, b: Sensor|
            #[trigger] spec_sensor_register(a) == #[trigger] spec_sensor_register(b) ==> a == b,
        forall|s: Sensor| #[trigger] spec_sensor_for_addr(spec_sensor_register(s)) == Some(s),
{
    assert forall|s: Sensor| #[trigger] spec_sensor_for_addr(spec_sensor_register(s)) == Some(s) by {
        let addr = spec_sensor_register(s);
        assert(exists|t: Sensor| spec_sensor_register(t) == addr);
        let c = choose|t: Sensor| spec_sensor_register(t) == addr;
        assert(spec_sensor_register(c) == addr);
    }
}

} // verus!
