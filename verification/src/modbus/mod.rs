//! CTC BMS register model: parameter descriptors, operating-mode enums and
//! the `SmartGrid` control-register encoding.

pub mod actor;
pub mod bms_parameters;
pub mod keepalive;

use vstd::prelude::*;
use vstd::string::*;
use crate::text::{ascii_lower, is_ascii_text, lowercase, str_eq, to_lowercase};

verus! {

/// Access type of a BMS register.
#[derive(Debug, Clone, Copy, PartialEq, Eq, Structural)]
pub enum Access {
    R,
    RW,
    W,
}

/// A BMS register descriptor.
///
/// The scaling factor is held as the exact fraction `factor_num / factor_den`
/// (the catalog uses 1/10, 1/2 and 1/1), so that scaling to the one-decimal
/// display value is exact integer arithmetic.
#[derive(Debug, Clone, Copy)]
pub struct CTCModbusParameter {
    /// Register holding the parameter value.
    pub id: u16,
    /// Whether the raw register value is a two's-complement `i16`.
    pub signed: bool,
    pub access: Access,
    /// Register holding the maximum raw value (min and step follow it).
    pub reg_max: Option<u16>,
    pub reg_min: Option<u16>,
    pub reg_step: Option<u16>,
    /// Visibility register (62500..=62548), or 0 for "always visible".
    pub visible: u16,
    /// Bit within the visibility register.
    pub bit: u8,
    pub factor_num: u16,
    pub factor_den: u16,
    pub description: &'static str,
}

/// Value of bit `bit` of `mask` (false for bit positions past 15).
pub open spec fn bit_set(mask: u16, bit: u8) -> bool {
    bit < 16 && (mask as int / pow2_u16(bit as nat)) % 2 == 1
}

pub open spec fn pow2_u16(n: nat) -> int
    decreases n,
{
    if n == 0 { 1 } else { 2 * pow2_u16((n - 1) as nat) }
}

/// The raw register value interpreted as the parameter's integer.
pub open spec fn spec_raw_as_int(raw: u16, signed: bool) -> int {
    if signed && raw >= 0x8000 { raw as int - 0x10000 } else { raw as int }
}

/// `n / d` rounded to the nearest integer, halves away from zero.
pub open spec fn spec_div_round(n: int, d: int) -> int
    recommends
        d > 0,
{
    if n >= 0 {
        (2 * n + d) / (2 * d)
    } else {
        -((2 * (-n) + d) / (2 * d))
    }
}

impl CTCModbusParameter {
    pub open spec fn wf(&self) -> bool {
        self.factor_den > 0
    }

    /// The scaled value in tenths: `round(raw * factor * 10)`.
    pub open spec fn spec_scaled_tenths(&self, raw: u16) -> int {
        spec_div_round(
            spec_raw_as_int(raw, self.signed) * self.factor_num * 10,
            self.factor_den as int,
        )
    }

    /// Determines if the parameter is read-only.
    pub fn is_read_only(&self) -> (r: bool)
        ensures
            r == (self.access == Access::R),
    {
        self.access == Access::R
    }

    /// True if bit `self.bit` is set in the visibility mask `value`.
    pub fn is_visible(&self, value: u16) -> (r: bool)
        ensures
            r == bit_set(value, self.bit),
    {
        mask_has_bit(value, self.bit)
    }

    /// The raw register value interpreted as a signed or unsigned integer.
    pub fn raw_as_i32(&self, raw: u16) -> (r: i32)
        ensures
            r == spec_raw_as_int(raw, self.signed),
    {
        if self.signed && raw >= 0x8000 {
            raw as i32 - 0x10000
        } else {
            raw as i32
        }
    }

    /// The scaled value rounded to one decimal place, as a count of tenths.
    pub fn scaled_tenths(&self, raw: u16) -> (r: i64)
        requires
            self.wf(),
        ensures
            r == self.spec_scaled_tenths(raw),
    {
        let v = self.raw_as_i32(raw) as i64;
        let f = self.factor_num as i64;
        assert(-0x8000 * 0xffff <= v * f <= 0xffff * 0xffff) by (nonlinear_arith)
            requires
                -0x8000 <= v <= 0xffff,
                0 <= f <= 0xffff,
        ;
        let n: i64 = v * f * 10;
        let d: i64 = self.factor_den as i64;
        if n >= 0 {
            (2 * n + d) / (2 * d)
        } else {
            -((2 * (-n) + d) / (2 * d))
        }
    }

    /// Scaled values (in tenths) of a slice of raw register values.
    pub fn scaled_tenths_vector(&self, values: &[u16]) -> (r: Vec<i64>)
        requires
            self.wf(),
        ensures
            r.len() == values.len(),
            forall|i: int| 0 <= i < values.len() ==> r[i] == self.spec_scaled_tenths(values[i]),
    {
        let mut out: Vec<i64> = Vec::new();
        let mut i: usize = 0;
        while i < values.len()
            invariant
                self.wf(),
                i <= values.len(),
                out.len() == i,
                forall|j: int| 0 <= j < i ==> out[j] == self.spec_scaled_tenths(values[j]),
            decreases values.len() - i,
        {
            out.push(self.scaled_tenths(values[i]));
            i += 1;
        }
        out
    }
}

/// True if bit `bit` of `mask` is set.
pub fn mask_has_bit(mask: u16, bit: u8) -> (r: bool)
    ensures
        r == bit_set(mask, bit),
{
    if bit >= 16 {
        return false;
    }
    let mut m: u16 = mask;
    let mut k: u8 = 0;
    while k < bit
        invariant
            k <= bit < 16,
            m as int == mask as int / pow2_u16(k as nat),
        decreases bit - k,
    {
        proof {
            lemma_pow2_pos(k as nat);
            vstd::arithmetic::div_mod::lemma_div_denominator(
                mask as int,
                pow2_u16(k as nat),
                2,
            );
        }
        m = m / 2;
        k = k + 1;
    }
    m % 2 == 1
}

pub proof fn lemma_pow2_pos(n: nat)
    ensures
        pow2_u16(n) > 0,
    decreases n,
{
    if n > 0 {
        lemma_pow2_pos((n - 1) as nat);
    }
}

// region: --- Hot Water Mode

#[derive(PartialEq, Eq, Debug, Structural)]
pub enum HotWaterMode {
    Economy,
    Normal,
    Comfort,
    Manual,
}

pub open spec fn spec_hot_water_code(mode: HotWaterMode) -> u16 {
    match mode {
        HotWaterMode::Economy => 0,
        HotWaterMode::Normal => 1,
        HotWaterMode::Comfort => 2,
        HotWaterMode::Manual => 3,
    }
}

pub open spec fn spec_hot_water_from(value: u16) -> Result<HotWaterMode, &'static str> {
    if value == 0 {
        Ok(HotWaterMode::Economy)
    } else if value == 1 {
        Ok(HotWaterMode::Normal)
    } else if value == 2 {
        Ok(HotWaterMode::Comfort)
    } else if value == 3 {
        Ok(HotWaterMode::Manual)
    } else {
        Err("Invalid HotWaterMode value")
    }
}

impl From<HotWaterMode> for u16 {
    fn from(mode: HotWaterMode) -> (r: u16) {
        match mode {
            HotWaterMode::Economy => 0,
            HotWaterMode::Normal => 1,
            HotWaterMode::Comfort => 2,
            HotWaterMode::Manual => 3,
        }
    }
}

impl vstd::std_specs::convert::FromSpecImpl<HotWaterMode> for u16 {
    open spec fn obeys_from_spec() -> bool {
        true
    }

    open spec fn from_spec(mode: HotWaterMode) -> u16 {
        spec_hot_water_code(mode)
    }
}

impl TryFrom<u16> for HotWaterMode {
    type Error = &'static str;

    fn try_from(value: u16) -> (r: Result<Self, Self::Error>) {
        match value {
            0 => Ok(HotWaterMode::Economy),
            1 => Ok(HotWaterMode::Normal),
            2 => Ok(HotWaterMode::Comfort),
            3 => Ok(HotWaterMode::Manual),
            _ => Err("Invalid HotWaterMode value"),
        }
    }
}

impl vstd::std_specs::convert::TryFromSpecImpl<u16> for HotWaterMode {
    open spec fn obeys_try_from_spec() -> bool {
        true
    }

    open spec fn try_from_spec(value: u16) -> Result<Self, Self::Error> {
        spec_hot_water_from(value)
    }
}

impl HotWaterMode {
    /// Display name of the mode.
    pub fn to_string(&self) -> (r: String)
        ensures
            r@ == spec_hot_water_name(*self)@,
    {
        match self {
            HotWaterMode::Economy => String::from_str("Economy"),
            HotWaterMode::Normal => String::from_str("Normal"),
            HotWaterMode::Comfort => String::from_str("Comfort"),
            HotWaterMode::Manual => String::from_str("Manual"),
        }
    }
}

pub open spec fn spec_hot_water_name(mode: HotWaterMode) -> &'static str {
    match mode {
        HotWaterMode::Economy => "Economy",
        HotWaterMode::Normal => "Normal",
        HotWaterMode::Comfort => "Comfort",
        HotWaterMode::Manual => "Manual",
    }
}

/// Decoding a hot-water mode's register code gives the mode back, and every
/// accepted code is the code of the mode it decodes to.
pub proof fn hot_water_code_roundtrip(mode: HotWaterMode, value: u16)
    ensures
        spec_hot_water_from(spec_hot_water_code(mode)) == Ok::<HotWaterMode, &'static str>(mode),
        spec_hot_water_from(value) is Ok ==> spec_hot_water_code(
            spec_hot_water_from(value)->Ok_0,
        ) == value,
        spec_hot_water_from(value) is Ok <==> value <= 3,
{
}

// endregion: --- Hot Water Mode

// region: --- Heating system 1 status

#[derive(PartialEq, Eq, Debug, Structural)]
pub enum HeatSystemStatus {
    HeatingOff,
    Vacation,
    NightReduction,
    On,
}

pub open spec fn spec_heat_status_code(status: HeatSystemStatus) -> u16 {
    match status {
        HeatSystemStatus::HeatingOff => 0,
        HeatSystemStatus::Vacation => 1,
        HeatSystemStatus::NightReduction => 2,
        HeatSystemStatus::On => 3,
    }
}

pub open spec fn spec_heat_status_from(value: u16) -> Result<HeatSystemStatus, &'static str> {
    if value == 0 {
        Ok(HeatSystemStatus::HeatingOff)
    } else if value == 1 {
        Ok(HeatSystemStatus::Vacation)
    } else if value == 2 {
        Ok(HeatSystemStatus::NightReduction)
    } else if value == 3 {
        Ok(HeatSystemStatus::On)
    } else {
        Err("Invalid HeatSystemStatus value")
    }
}

impl From<HeatSystemStatus> for u16 {
    fn from(status: HeatSystemStatus) -> (r: u16) {
        match status {
            HeatSystemStatus::HeatingOff => 0,
            HeatSystemStatus::Vacation => 1,
            HeatSystemStatus::NightReduction => 2,
            HeatSystemStatus::On => 3,
        }
    }
}

impl vstd::std_specs::convert::FromSpecImpl<HeatSystemStatus> for u16 {
    open spec fn obeys_from_spec() -> bool {
        true
    }

    open spec fn from_spec(status: HeatSystemStatus) -> u16 {
        spec_heat_status_code(status)
    }
}

impl TryFrom<u16> for HeatSystemStatus {
    type Error = &'static str;

    fn try_from(value: u16) -> (r: Result<Self, Self::Error>) {
        match value {
            0 => Ok(HeatSystemStatus::HeatingOff),
            1 => Ok(HeatSystemStatus::Vacation),
            2 => Ok(HeatSystemStatus::NightReduction),
            3 => Ok(HeatSystemStatus::On),
            _ => Err("Invalid HeatSystemStatus value"),
        }
    }
}

impl vstd::std_specs::convert::TryFromSpecImpl<u16> for HeatSystemStatus {
    open spec fn obeys_try_from_spec() -> bool {
        true
    }

    open spec fn try_from_spec(value: u16) -> Result<Self, Self::Error> {
        spec_heat_status_from(value)
    }
}

pub open spec fn spec_heat_status_name(status: HeatSystemStatus) -> &'static str {
    match status {
        HeatSystemStatus::HeatingOff => "Heating off",
        HeatSystemStatus::Vacation => "Vacation",
        HeatSystemStatus::NightReduction => "Night reduction",
        HeatSystemStatus::On => "On",
    }
}

impl HeatSystemStatus {
    /// Display name of the status.
    pub fn to_string(&self) -> (r: String)
        ensures
            r@ == spec_heat_status_name(*self)@,
    {
        match self {
            HeatSystemStatus::HeatingOff => String::from_str("Heating off"),
            HeatSystemStatus::Vacation => String::from_str("Vacation"),
            HeatSystemStatus::NightReduction => String::from_str("Night reduction"),
            HeatSystemStatus::On => String::from_str("On"),
        }
    }
}

/// Decoding a heating-system status code gives the status back, and every
/// accepted code is the code of the status it decodes to.
pub proof fn heat_status_code_roundtrip(status: HeatSystemStatus, value: u16)
    ensures
        spec_heat_status_from(spec_heat_status_code(status)) == Ok::<HeatSystemStatus, &'static str>(status),
        spec_heat_status_from(value) is Ok ==> spec_heat_status_code(
            spec_heat_status_from(value)->Ok_0,
        ) == value,
        spec_heat_status_from(value) is Ok <==> value <= 3,
{
}

// endregion: --- Heating system 1 status

} // verus!

verus! {

// region: --- SmartGrid Control

/// `SmartGrid` control modes for register 1100 (bits 6-7: 0x00, 0x40, 0x80, 0xC0).
#[derive(Debug, Clone, Copy, PartialEq, Eq, Structural)]
pub enum SmartGridMode {
    /// Normal operation (0b0000_0000)
    Normal,
    /// Blocking - stop heating/cooling (0b0100_0000)
    Blocking,
    /// Low Price - prioritize operation when energy is cheap (0b1000_0000)
    LowPrice,
    /// Overcapacity - maximum operation when excess energy available (0b1100_0000)
    Overcapacity,
}

pub open spec fn spec_register_value(mode: SmartGridMode) -> u16 {
    match mode {
        SmartGridMode::Normal => 0x00,
        SmartGridMode::Blocking => 0x40,
        SmartGridMode::LowPrice => 0x80,
        SmartGridMode::Overcapacity => 0xC0,
    }
}

/// The mode encoded in bits 6-7 of a control-register value.
pub open spec fn spec_mode_from_bits67(value: u16) -> SmartGridMode {
    let b = (value as int / 64) % 4;
    if b == 0 {
        SmartGridMode::Normal
    } else if b == 1 {
        SmartGridMode::Blocking
    } else if b == 2 {
        SmartGridMode::LowPrice
    } else {
        SmartGridMode::Overcapacity
    }
}

pub open spec fn spec_terminal_states(mode: SmartGridMode) -> (bool, bool) {
    match mode {
        SmartGridMode::Normal => (false, false),
        SmartGridMode::Blocking => (true, false),
        SmartGridMode::LowPrice => (false, true),
        SmartGridMode::Overcapacity => (true, true),
    }
}

pub open spec fn spec_from_terminals(k25_closed: bool, k26_closed: bool) -> SmartGridMode {
    if !k25_closed && !k26_closed {
        SmartGridMode::Normal
    } else if k25_closed && !k26_closed {
        SmartGridMode::Blocking
    } else if !k25_closed && k26_closed {
        SmartGridMode::LowPrice
    } else {
        SmartGridMode::Overcapacity
    }
}

pub open spec fn spec_mode_name(mode: SmartGridMode) -> &'static str {
    match mode {
        SmartGridMode::Normal => "Normal",
        SmartGridMode::Blocking => "Blocking",
        SmartGridMode::LowPrice => "LowPrice",
        SmartGridMode::Overcapacity => "Overcapacity",
    }
}

/// The mode a lower-cased mode string names, if any.
pub open spec fn spec_parse_lowered(s: Seq<char>) -> Result<SmartGridMode, &'static str> {
    if s == "normal"@ {
        Ok(SmartGridMode::Normal)
    } else if s == "blocking"@ {
        Ok(SmartGridMode::Blocking)
    } else if s == "lowprice"@ || s == "low_price"@ || s == "low-price"@ {
        Ok(SmartGridMode::LowPrice)
    } else if s == "overcapacity"@ || s == "over_capacity"@ || s == "over-capacity"@ {
        Ok(SmartGridMode::Overcapacity)
    } else {
        Err("Invalid SmartGrid mode string")
    }
}

impl SmartGridMode {
    /// Convert `SmartGridMode` to u16 for Modbus register write.
    pub fn to_register_value(self) -> (r: u16)
        ensures
            r == spec_register_value(self),
    {
        match self {
            SmartGridMode::Normal => 0x00,
            SmartGridMode::Blocking => 0x40,
            SmartGridMode::LowPrice => 0x80,
            SmartGridMode::Overcapacity => 0xC0,
        }
    }

    /// Parse `SmartGridMode` from a u16 register value, looking only at bits 6-7.
    ///
    /// Every value decodes (the two bits always name one of the four modes), so
    /// the error arm is never taken; it is kept for the register API's shape.
    pub fn from_register_value(value: u16) -> (r: Result<Self, &'static str>)
        ensures
            r == Ok::<SmartGridMode, &'static str>(spec_mode_from_bits67(value)),
    {
        let masked: u16 = value & 0x00C0;
        assert(masked == value & 0x00C0);
        assert((value & 0x00C0) as int == ((value as int / 64) % 4) * 64) by (bit_vector);
        if masked == 0x00 {
            Ok(Self::Normal)
        } else if masked == 0x40 {
            Ok(Self::Blocking)
        } else if masked == 0x80 {
            Ok(Self::LowPrice)
        } else {
            Ok(Self::Overcapacity)
        }
    }

    /// Create mode from K25/K26 terminal closed states.
    pub fn from_terminals(k25_closed: bool, k26_closed: bool) -> (r: Self)
        ensures
            r == spec_from_terminals(k25_closed, k26_closed),
    {
        match (k25_closed, k26_closed) {
            (false, false) => Self::Normal,
            (true, false) => Self::Blocking,
            (false, true) => Self::LowPrice,
            (true, true) => Self::Overcapacity,
        }
    }

    /// Required K25/K26 terminal states for this mode: (`k25_closed`, `k26_closed`).
    pub fn terminal_states(self) -> (r: (bool, bool))
        ensures
            r == spec_terminal_states(self),
    {
        match self {
            Self::Normal => (false, false),
            Self::Blocking => (true, false),
            Self::LowPrice => (false, true),
            Self::Overcapacity => (true, true),
        }
    }

    /// Display name of the mode.
    pub fn to_string(&self) -> (r: String)
        ensures
            r@ == spec_mode_name(*self)@,
    {
        match self {
            Self::Normal => String::from_str("Normal"),
            Self::Blocking => String::from_str("Blocking"),
            Self::LowPrice => String::from_str("LowPrice"),
            Self::Overcapacity => String::from_str("Overcapacity"),
        }
    }

    /// Parse an already lower-cased mode string.
    pub fn parse_lowered(s: &str) -> (r: Result<Self, &'static str>)
        ensures
            r == spec_parse_lowered(s@),
    {
        if str_eq(s, "normal") {
            Ok(Self::Normal)
        } else if str_eq(s, "blocking") {
            Ok(Self::Blocking)
        } else if str_eq(s, "lowprice") || str_eq(s, "low_price") || str_eq(s, "low-price") {
            Ok(Self::LowPrice)
        } else if str_eq(s, "overcapacity") || str_eq(s, "over_capacity") || str_eq(
            s,
            "over-capacity",
        ) {
            Ok(Self::Overcapacity)
        } else {
            Err("Invalid SmartGrid mode string")
        }
    }

    /// Parse a mode name, ignoring case.
    pub fn parse(s: &str) -> (r: Result<Self, &'static str>)
        ensures
            r == spec_parse_lowered(lowercase(s@)),
            is_ascii_text(s@) ==> r == spec_parse_lowered(ascii_lower(s@)),
    {
        let lowered = to_lowercase(s);
        Self::parse_lowered(lowered.as_str())
    }
}

impl std::str::FromStr for SmartGridMode {
    type Err = &'static str;

    fn from_str(s: &str) -> (r: Result<Self, Self::Err>)
        ensures
            r == spec_parse_lowered(lowercase(s@)),
            is_ascii_text(s@) ==> r == spec_parse_lowered(ascii_lower(s@)),
    {
        Self::parse(s)
    }
}

/// Writing a mode to the control register and decoding the register gives the
/// mode back; the terminal encoding is a bijection.
pub proof fn smartgrid_register_roundtrip(mode: SmartGridMode, k25: bool, k26: bool)
    ensures
        spec_mode_from_bits67(spec_register_value(mode)) == mode,
        spec_from_terminals(spec_terminal_states(mode).0, spec_terminal_states(mode).1) == mode,
        spec_terminal_states(spec_from_terminals(k25, k26)) == (k25, k26),
{
}

/// The control-register value of a mode is its terminal pattern as bits:
/// bit 6 (0x40) is K25 closed and bit 7 (0x80) is K26 closed, so Normal is
/// 0x00, Blocking 0x40, LowPrice 0x80 and Overcapacity 0xC0.
pub proof fn register_bits_are_terminals(mode: SmartGridMode)
    ensures
        spec_register_value(mode) == (if spec_terminal_states(mode).0 {
            0x40int
        } else {
            0int
        }) + (if spec_terminal_states(mode).1 {
            0x80int
        } else {
            0int
        }),
        mode == SmartGridMode::Normal <==> spec_register_value(mode) == 0x00,
        mode == SmartGridMode::Blocking <==> spec_register_value(mode) == 0x40,
        mode == SmartGridMode::LowPrice <==> spec_register_value(mode) == 0x80,
        mode == SmartGridMode::Overcapacity <==> spec_register_value(mode) == 0xC0,
{
}

/// Only bits 6-7 of the control register decide the decoded mode.
pub proof fn smartgrid_register_ignores_other_bits(value: u16)
    ensures
        spec_mode_from_bits67(value) == spec_mode_from_bits67(value & 0x00C0),
{
    assert((value & 0x00C0) as int == ((value as int / 64) % 4) * 64) by (bit_vector);
}

/// `SmartGrid` control register address (Control Parameters).
pub const SMARTGRID_CONTROL_REGISTER: u16 = 1100;

/// `SmartGrid` keepalive interval: the register must be refreshed every 5
/// minutes; 240 seconds leaves a safety margin.
pub const SMARTGRID_KEEPALIVE_INTERVAL_SECS: u64 = 240;

// endregion: --- SmartGrid Control

} // verus!
