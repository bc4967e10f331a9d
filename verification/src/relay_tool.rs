//! Decisions of the `SmartGrid` relay test tool: the mode encoding of the
//! control register and of the SGMode status register, the relay levels
//! for a mode, and how the discovery run reads its observations. The HTTP
//! queries, GPIO writes and waits are driven by the application.

use vstd::prelude::*;
use vstd::string::*;
use crate::text::{ascii_lower, is_ascii_text, lowercase, to_lowercase};

verus! {

/// GPIO pin wired to the first relay (header pin 38).
pub const GPIO_PIN_1: u32 = 20;

/// GPIO pin wired to the second relay (header pin 40).
pub const GPIO_PIN_2: u32 = 21;

/// `SmartGrid` modes by K25/K26 terminal state.
#[derive(Debug, Clone, Copy, PartialEq, Eq, Structural)]
pub enum SmartGridMode {
    /// 0b00: both open.
    Normal,
    /// 0b01: K25 closed, K26 open.
    Blocking,
    /// 0b10: K25 open, K26 closed.
    LowPrice,
    /// 0b11: both closed.
    Overcapacity,
}

pub open spec fn spec_from_bits(bits: u8) -> SmartGridMode {
    let b = bits % 4;
    if b == 0 {
        SmartGridMode::Normal
    } else if b == 1 {
        SmartGridMode::Blocking
    } else if b == 2 {
        SmartGridMode::LowPrice
    } else {
        SmartGridMode::Overcapacity
    }
}

pub open spec fn spec_to_bits(mode: SmartGridMode) -> u8 {
    match mode {
        SmartGridMode::Normal => 0,
        SmartGridMode::Blocking => 1,
        SmartGridMode::LowPrice => 2,
        SmartGridMode::Overcapacity => 3,
    }
}

pub open spec fn spec_terminal_states(mode: SmartGridMode) -> (bool, bool) {
    match mode {
        SmartGridMode::Normal => (false, false),
        SmartGridMode::Blocking => (true, false),
        SmartGridMode::LowPrice => (false, true),
        SmartGridMode::Overcapacity => (true, true),
    }
}

pub open spec fn spec_name(mode: SmartGridMode) -> Seq<char> {
    match mode {
        SmartGridMode::Normal => "Normal"@,
        SmartGridMode::Blocking => "Blocking"@,
        SmartGridMode::LowPrice => "LowPrice"@,
        SmartGridMode::Overcapacity => "Overcapacity"@,
    }
}

impl SmartGridMode {
    /// Mode of the two low bits of `bits`.
    pub fn from_bits(bits: u8) -> (r: Self)
        ensures
            r == spec_from_bits(bits),
    {
        let b = bits & 0x03;
        assert(b == bits % 4) by (bit_vector)
            requires
                b == bits & 0x03,
        ;
        if b == 0 {
            Self::Normal
        } else if b == 1 {
            Self::Blocking
        } else if b == 2 {
            Self::LowPrice
        } else {
            Self::Overcapacity
        }
    }

    /// Two-bit code of the mode.
    pub fn to_bits(self) -> (r: u8)
        ensures
            r == spec_to_bits(self),
    {
        match self {
            Self::Normal => 0,
            Self::Blocking => 1,
            Self::LowPrice => 2,
            Self::Overcapacity => 3,
        }
    }

    /// Display name of the mode.
    pub fn name(self) -> (r: &'static str)
        ensures
            r@ == spec_name(self),
    {
        proof {
            reveal_strlit("Normal");
            reveal_strlit("Blocking");
            reveal_strlit("LowPrice");
            reveal_strlit("Overcapacity");
        }
        match self {
            Self::Normal => "Normal",
            Self::Blocking => "Blocking",
            Self::LowPrice => "LowPrice",
            Self::Overcapacity => "Overcapacity",
        }
    }

    /// The display text of the mode (its name).
    pub fn to_string(&self) -> (r: String)
        ensures
            r@ == spec_name(*self),
    {
        String::from_str(self.name())
    }

    /// Returns (`k25_closed`, `k26_closed`) for this mode.
    pub fn terminal_states(self) -> (r: (bool, bool))
        ensures
            r == spec_terminal_states(self),
    {
        match self {
            Self::Normal => (false, false),
            Self::Blocking => (true, false),
            Self::LowPrice => (false, true),
            Self::Overcapacity => (true, true),
        }
    }
}

/// The two-bit code identifies the mode, and the terminal pattern is the
/// code's bits: K25 is bit 0, K26 is bit 1.
pub proof fn mode_bits_roundtrip(mode: SmartGridMode, bits: u8)
    ensures
        spec_from_bits(spec_to_bits(mode)) == mode,
        spec_to_bits(spec_from_bits(bits)) == bits % 4,
        spec_terminal_states(mode) == (spec_to_bits(mode) % 2 == 1, spec_to_bits(mode) / 2 == 1),
{
}

/// Relay board configuration.
#[derive(Debug, Clone, Copy, PartialEq, Eq, Structural)]
pub struct RelayConfig {
    /// True if a relay closes on a LOW signal (common for optocoupler modules).
    pub active_low: bool,
    /// GPIO pin that controls K25 (Smart A).
    pub gpio_k25: u32,
    /// GPIO pin that controls K26 (Smart B).
    pub gpio_k26: u32,
}

impl Default for RelayConfig {
    /// Active-high board, K25 on the first pin, K26 on the second.
    fn default() -> (r: Self)
        ensures
            r == (RelayConfig { active_low: false, gpio_k25: GPIO_PIN_1, gpio_k26: GPIO_PIN_2 }),
    {
        RelayConfig { active_low: false, gpio_k25: GPIO_PIN_1, gpio_k26: GPIO_PIN_2 }
    }
}

/// GPIO levels `(k25_high, k26_high)` that put the relays in `mode`: a
/// closed terminal is a HIGH pin on an active-high board and a LOW pin on
/// an active-low one.
pub fn relay_levels(config: &RelayConfig, mode: SmartGridMode) -> (r: (bool, bool))
    ensures
        r == (
            spec_terminal_states(mode).0 != config.active_low,
            spec_terminal_states(mode).1 != config.active_low,
        ),
{
    let (k25_closed, k26_closed) = mode.terminal_states();
    let k25_high = if config.active_low { !k25_closed } else { k25_closed };
    let k26_high = if config.active_low { !k26_closed } else { k26_closed };
    (k25_high, k26_high)
}

pub open spec fn spec_parse_mode(s: Seq<char>) -> Option<SmartGridMode> {
    if s == "normal"@ {
        Some(SmartGridMode::Normal)
    } else if s == "blocking"@ || s == "block"@ {
        Some(SmartGridMode::Blocking)
    } else if s == "lowprice"@ || s == "low"@ {
        Some(SmartGridMode::LowPrice)
    } else if s == "overcapacity"@ || s == "high"@ || s == "highcap"@ {
        Some(SmartGridMode::Overcapacity)
    } else {
        None
    }
}

/// The mode named by an already lower-cased name or alias.
pub fn mode_of_lowered(s: &str) -> (r: Option<SmartGridMode>)
    ensures
        r == spec_parse_mode(s@),
{
    proof {
        reveal_strlit("normal");
        reveal_strlit("blocking");
        reveal_strlit("block");
        reveal_strlit("lowprice");
        reveal_strlit("low");
        reveal_strlit("overcapacity");
        reveal_strlit("high");
        reveal_strlit("highcap");
    }
    if crate::text::str_eq(s, "normal") {
        Some(SmartGridMode::Normal)
    } else if crate::text::str_eq(s, "blocking") || crate::text::str_eq(s, "block") {
        Some(SmartGridMode::Blocking)
    } else if crate::text::str_eq(s, "lowprice") || crate::text::str_eq(s, "low") {
        Some(SmartGridMode::LowPrice)
    } else if crate::text::str_eq(s, "overcapacity") || crate::text::str_eq(s, "high")
        || crate::text::str_eq(s, "highcap") {
        Some(SmartGridMode::Overcapacity)
    } else {
        None
    }
}

/// Every mode's display name, in any case, parses to that mode, as do the
/// short aliases: `block` for blocking, `low` for low price, `high` and
/// `highcap` for overcapacity.
pub proof fn relay_mode_names_parse_back(mode: SmartGridMode)
    ensures
        is_ascii_text(spec_name(mode)),
        spec_parse_mode(ascii_lower(spec_name(mode))) == Some(mode),
        spec_parse_mode("block"@) == Some(SmartGridMode::Blocking),
        spec_parse_mode("low"@) == Some(SmartGridMode::LowPrice),
        spec_parse_mode("high"@) == Some(SmartGridMode::Overcapacity),
        spec_parse_mode("highcap"@) == Some(SmartGridMode::Overcapacity),
{
    reveal_strlit("Normal");
    reveal_strlit("Blocking");
    reveal_strlit("LowPrice");
    reveal_strlit("Overcapacity");
    reveal_strlit("normal");
    reveal_strlit("blocking");
    reveal_strlit("block");
    reveal_strlit("lowprice");
    reveal_strlit("low");
    reveal_strlit("overcapacity");
    reveal_strlit("high");
    reveal_strlit("highcap");
    assert("normal"@[0] == 'n' && "blocking"@[0] == 'b' && "block"@[0] == 'b');
    assert("lowprice"@[0] == 'l' && "low"@[0] == 'l' && "overcapacity"@[0] == 'o');
    assert("high"@[0] == 'h' && "highcap"@[0] == 'h');
    // Names that share a first letter differ in length.
    assert("block"@.len() == 5 && "blocking"@.len() == 8);
    assert("low"@.len() == 3 && "lowprice"@.len() == 8);
    assert("high"@.len() == 4 && "highcap"@.len() == 7 && "overcapacity"@.len() == 12);
    match mode {
        SmartGridMode::Normal => {
            assert(ascii_lower("Normal"@) =~= "normal"@);
        },
        SmartGridMode::Blocking => {
            assert(ascii_lower("Blocking"@) =~= "blocking"@);
        },
        SmartGridMode::LowPrice => {
            assert(ascii_lower("LowPrice"@) =~= "lowprice"@);
        },
        SmartGridMode::Overcapacity => {
            assert(ascii_lower("Overcapacity"@) =~= "overcapacity"@);
        },
    }
}

/// Parse a command-line mode name (any case, with the short aliases).
pub fn parse_mode(s: &str) -> (r: Result<SmartGridMode, String>)
    ensures
        match spec_parse_mode(lowercase(s@)) {
            Some(m) => (r matches Ok(x) && x == m),
            None => (r matches Err(e) && e@ == "Invalid mode '"@ + s@
                + "'. Valid: normal, blocking, lowprice, overcapacity"@),
        },
        is_ascii_text(s@) ==> match spec_parse_mode(ascii_lower(s@)) {
            Some(m) => (r matches Ok(x) && x == m),
            None => r is Err,
        },
{
    let lowered = to_lowercase(s);
    match mode_of_lowered(lowered.as_str()) {
        Some(m) => Ok(m),
        None => {
            let mut e = String::from_str("Invalid mode '");
            e.append(s);
            e.append("'. Valid: normal, blocking, lowprice, overcapacity");
            Err(e)
        },
    }
}

/// Mode encoded in bits 6-7 of the control register.
pub fn mode_from_control_register(raw: u16) -> (r: SmartGridMode)
    ensures
        r == spec_from_bits(((raw / 64) % 4) as u8),
{
    let bits = ((raw >> 6) & 0x03) as u8;
    assert(bits == ((raw / 64) % 4) as u8) by (bit_vector)
        requires
            bits == ((raw >> 6) & 0x03) as u8,
    ;
    SmartGridMode::from_bits(bits)
}

/// Mode reported by the SGMode status register: 1 Blocking, 2 LowPrice,
/// 3 Overcapacity; 0 and anything else read as Normal.
pub fn mode_from_sgmode(value: u8) -> (r: SmartGridMode)
    ensures
        r == (if value == 1 {
            SmartGridMode::Blocking
        } else if value == 2 {
            SmartGridMode::LowPrice
        } else if value == 3 {
            SmartGridMode::Overcapacity
        } else {
            SmartGridMode::Normal
        }),
{
    match value {
        1 => SmartGridMode::Blocking,
        2 => SmartGridMode::LowPrice,
        3 => SmartGridMode::Overcapacity,
        _ => SmartGridMode::Normal,
    }
}

/// Logic level of the relay board from the modes seen with both pins LOW
/// and both pins HIGH: `Some(true)` for active-low, `Some(false)` for
/// active-high, `None` when the pair fits neither.
pub fn classify_logic_level(mode_low: SmartGridMode, mode_high: SmartGridMode) -> (r: Option<bool>)
    ensures
        r == (if mode_low == SmartGridMode::Overcapacity && mode_high == SmartGridMode::Normal {
            Some(true)
        } else if mode_low == SmartGridMode::Normal && mode_high == SmartGridMode::Overcapacity {
            Some(false)
        } else {
            None
        }),
{
    if mode_low == SmartGridMode::Overcapacity && mode_high == SmartGridMode::Normal {
        Some(true)
    } else if mode_low == SmartGridMode::Normal && mode_high == SmartGridMode::Overcapacity {
        Some(false)
    } else {
        None
    }
}

/// The terminal a lone active pin drives, from the mode it produced:
/// `Some(true)` for K25 (Blocking), `Some(false)` for K26 (LowPrice).
pub fn terminal_for_mode(mode: SmartGridMode) -> (r: Option<bool>)
    ensures
        r == (match mode {
            SmartGridMode::Blocking => Some(true),
            SmartGridMode::LowPrice => Some(false),
            _ => None::<bool>,
        }),
{
    match mode {
        SmartGridMode::Blocking => Some(true),
        SmartGridMode::LowPrice => Some(false),
        _ => None,
    }
}

/// Record which terminal `gpio` drives in the `(k25, k26)` mapping found so far.
pub fn assign_terminal(found: Option<bool>, gpio: u32, mapping: (Option<u32>, Option<u32>)) -> (r: (
    Option<u32>,
    Option<u32>,
))
    ensures
        r == (match found {
            Some(true) => (Some(gpio), mapping.1),
            Some(false) => (mapping.0, Some(gpio)),
            None => mapping,
        }),
{
    match found {
        Some(true) => (Some(gpio), mapping.1),
        Some(false) => (mapping.0, Some(gpio)),
        None => mapping,
    }
}

/// Header pin of a GPIO line: 38 for GPIO 20, 40 otherwise.
pub fn header_pin(gpio: u32) -> (r: u32)
    ensures
        r == (if gpio == 20 {
            38u32
        } else {
            40u32
        }),
{
    if gpio == 20 {
        38
    } else {
        40
    }
}

/// The relay command needs at least one of its two relays.
pub fn check_relay_args(k25: Option<bool>, k26: Option<bool>) -> (r: Result<(), String>)
    ensures
        (k25 is None && k26 is None) ==> (r matches Err(e) && e@
            == "At least one of --k25 or --k26 must be specified"@),
        !(k25 is None && k26 is None) ==> r is Ok,
{
    if k25.is_none() && k26.is_none() {
        return Err(String::from_str("At least one of --k25 or --k26 must be specified"));
    }
    Ok(())
}

/// The modes the loop command steps through, in order.
pub fn loop_modes() -> (r: Vec<SmartGridMode>)
    ensures
        r@ == seq![
            SmartGridMode::Normal,
            SmartGridMode::Blocking,
            SmartGridMode::LowPrice,
            SmartGridMode::Overcapacity,
        ],
{
    vec![
        SmartGridMode::Normal,
        SmartGridMode::Blocking,
        SmartGridMode::LowPrice,
        SmartGridMode::Overcapacity,
    ]
}

/// The transitions the cycle command measures, in order: each mode to the
/// next, ending back at Normal.
pub fn cycle_transitions() -> (r: Vec<(SmartGridMode, SmartGridMode)>)
    ensures
        r@ == seq![
            (SmartGridMode::Normal, SmartGridMode::Blocking),
            (SmartGridMode::Blocking, SmartGridMode::LowPrice),
            (SmartGridMode::LowPrice, SmartGridMode::Overcapacity),
            (SmartGridMode::Overcapacity, SmartGridMode::Normal),
        ],
{
    vec![
        (SmartGridMode::Normal, SmartGridMode::Blocking),
        (SmartGridMode::Blocking, SmartGridMode::LowPrice),
        (SmartGridMode::LowPrice, SmartGridMode::Overcapacity),
        (SmartGridMode::Overcapacity, SmartGridMode::Normal),
    ]
}

// region: --- heat pump status

/// Heat pump status codes of register 62017.
#[derive(Debug, Clone, Copy, PartialEq, Eq, Structural)]
pub enum HeatPumpStatus {
    CompressorOffStartDelay,
    CompressorOffReadyToStart,
    CompressorWaitUntilFlow,
    CompressorOnHeating,
    DefrostActive,
    CompressorOnCooling,
    CompressorOffBlocked,
    CompressorOffAlarm,
    FunctionTest,
    HpNotDefined,
    CompressorNotEnabled,
    CommunicationError,
    ChargeDhw,
    Unknown,
}

pub open spec fn spec_heat_pump_status(val: u16) -> HeatPumpStatus {
    if val == 0 {
        HeatPumpStatus::CompressorOffStartDelay
    } else if val == 1 {
        HeatPumpStatus::CompressorOffReadyToStart
    } else if val == 2 {
        HeatPumpStatus::CompressorWaitUntilFlow
    } else if val == 3 {
        HeatPumpStatus::CompressorOnHeating
    } else if val == 4 {
        HeatPumpStatus::DefrostActive
    } else if val == 5 {
        HeatPumpStatus::CompressorOnCooling
    } else if val == 6 {
        HeatPumpStatus::CompressorOffBlocked
    } else if val == 7 {
        HeatPumpStatus::CompressorOffAlarm
    } else if val == 8 {
        HeatPumpStatus::FunctionTest
    } else if val == 30 {
        HeatPumpStatus::HpNotDefined
    } else if val == 31 {
        HeatPumpStatus::CompressorNotEnabled
    } else if val == 32 {
        HeatPumpStatus::CommunicationError
    } else if val == 33 {
        HeatPumpStatus::ChargeDhw
    } else {
        HeatPumpStatus::Unknown
    }
}

pub open spec fn spec_status_text(s: HeatPumpStatus) -> Seq<char> {
    match s {
        HeatPumpStatus::CompressorOffStartDelay => "Compressor off (start delay)"@,
        HeatPumpStatus::CompressorOffReadyToStart => "Compressor off (ready to start)"@,
        HeatPumpStatus::CompressorWaitUntilFlow => "Compressor wait until flow"@,
        HeatPumpStatus::CompressorOnHeating => "Compressor on (heating)"@,
        HeatPumpStatus::DefrostActive => "Defrost active"@,
        HeatPumpStatus::CompressorOnCooling => "Compressor on (cooling)"@,
        HeatPumpStatus::CompressorOffBlocked => "Compressor off (BLOCKED)"@,
        HeatPumpStatus::CompressorOffAlarm => "Compressor off (alarm)"@,
        HeatPumpStatus::FunctionTest => "Function test"@,
        HeatPumpStatus::HpNotDefined => "HP not defined"@,
        HeatPumpStatus::CompressorNotEnabled => "Compressor not enabled"@,
        HeatPumpStatus::CommunicationError => "Communication error"@,
        HeatPumpStatus::ChargeDhw => "Charge DHW"@,
        HeatPumpStatus::Unknown => "Unknown"@,
    }
}

impl From<u16> for HeatPumpStatus {
    fn from(val: u16) -> (r: Self) {
        match val {
            0 => Self::CompressorOffStartDelay,
            1 => Self::CompressorOffReadyToStart,
            2 => Self::CompressorWaitUntilFlow,
            3 => Self::CompressorOnHeating,
            4 => Self::DefrostActive,
            5 => Self::CompressorOnCooling,
            6 => Self::CompressorOffBlocked,
            7 => Self::CompressorOffAlarm,
            8 => Self::FunctionTest,
            30 => Self::HpNotDefined,
            31 => Self::CompressorNotEnabled,
            32 => Self::CommunicationError,
            33 => Self::ChargeDhw,
            _ => Self::Unknown,
        }
    }
}

impl vstd::std_specs::convert::FromSpecImpl<u16> for HeatPumpStatus {
    open spec fn obeys_from_spec() -> bool {
        true
    }

    open spec fn from_spec(val: u16) -> Self {
        spec_heat_pump_status(val)
    }
}

impl HeatPumpStatus {
    /// Human-readable description of the status.
    pub fn to_string(&self) -> (r: String)
        ensures
            r@ == spec_status_text(*self),
    {
        let s: &'static str = match self {
            Self::CompressorOffStartDelay => "Compressor off (start delay)",
            Self::CompressorOffReadyToStart => "Compressor off (ready to start)",
            Self::CompressorWaitUntilFlow => "Compressor wait until flow",
            Self::CompressorOnHeating => "Compressor on (heating)",
            Self::DefrostActive => "Defrost active",
            Self::CompressorOnCooling => "Compressor on (cooling)",
            Self::CompressorOffBlocked => "Compressor off (BLOCKED)",
            Self::CompressorOffAlarm => "Compressor off (alarm)",
            Self::FunctionTest => "Function test",
            Self::HpNotDefined => "HP not defined",
            Self::CompressorNotEnabled => "Compressor not enabled",
            Self::CommunicationError => "Communication error",
            Self::ChargeDhw => "Charge DHW",
            Self::Unknown => "Unknown",
        };
        String::from_str(s)
    }
}

// endregion: --- heat pump status

} // verus!
