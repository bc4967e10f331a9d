//! `SmartGrid` operating modes as driven through the K24/K25 relay terminals.

use vstd::prelude::*;
use vstd::string::*;
use crate::text::{ascii_lower, is_ascii_text, lowercase, to_lowercase};

verus! {

/// `SmartGrid` control modes.
#[derive(Debug, Clone, Copy, PartialEq, Eq, Structural)]
pub enum SmartGridMode {
    /// Normal operation - no external grid signal applied
    Normal,
    /// Blocking - stop heating/cooling to reduce grid load
    Blocking,
    /// Low Price - prioritize operation when energy is cheap
    LowPrice,
    /// Overcapacity - maximum operation when excess energy available
    Overcapacity,
}

pub open spec fn spec_terminal_states(mode: SmartGridMode) -> (bool, bool) {
    match mode {
        SmartGridMode::Normal => (false, false),
        SmartGridMode::Blocking => (true, false),
        SmartGridMode::LowPrice => (false, true),
        SmartGridMode::Overcapacity => (true, true),
    }
}

pub open spec fn spec_mode_name(mode: SmartGridMode) -> &'static str {
    match mode {
        SmartGridMode::Normal => "Normal",
        SmartGridMode::Blocking => "Blocking",
        SmartGridMode::LowPrice => "LowPrice",
        SmartGridMode::Overcapacity => "Overcapacity",
    }
}

pub open spec fn spec_parse_lowered(s: Seq<char>) -> Result<SmartGridMode, &'static str> {
    if s == "normal"@ {
        Ok(SmartGridMode::Normal)
    } else if s == "blocking"@ {
        Ok(SmartGridMode::Blocking)
    } else if s == "lowprice"@ || s == "low_price"@ || s == "low-price"@ {
        Ok(SmartGridMode::LowPrice)
    } else if s == "overcapacity"@ || s == "over_capacity"@ || s == "over-capacity"@ {
        Ok(SmartGridMode::Overcapacity)
    } else {
        Err("Invalid SmartGrid mode string")
    }
}

impl SmartGridMode {
    /// Required K24/K25 terminal states for this mode: (`k24_closed`, `k25_closed`).
    pub fn terminal_states(self) -> (r: (bool, bool))
        ensures
            r == spec_terminal_states(self),
    {
        match self {
            Self::Normal => (false, false),
            Self::Blocking => (true, false),
            Self::LowPrice => (false, true),
            Self::Overcapacity => (true, true),
        }
    }

    /// Display name of the mode.
    pub fn to_string(&self) -> (r: String)
        ensures
            r@ == spec_mode_name(*self)@,
    {
        match self {
            Self::Normal => String::from_str("Normal"),
            Self::Blocking => String::from_str("Blocking"),
            Self::LowPrice => String::from_str("LowPrice"),
            Self::Overcapacity => String::from_str("Overcapacity"),
        }
    }

    /// Parse an already lower-cased mode string.
    pub fn parse_lowered(s: &str) -> (r: Result<Self, &'static str>)
        ensures
            r == spec_parse_lowered(s@),
    {
        match crate::modbus::SmartGridMode::parse_lowered(s) {
            Ok(crate::modbus::SmartGridMode::Normal) => Ok(Self::Normal),
            Ok(crate::modbus::SmartGridMode::Blocking) => Ok(Self::Blocking),
            Ok(crate::modbus::SmartGridMode::LowPrice) => Ok(Self::LowPrice),
            Ok(crate::modbus::SmartGridMode::Overcapacity) => Ok(Self::Overcapacity),
            Err(e) => Err(e),
        }
    }

    /// Parse a mode name, ignoring case.
    pub fn parse(s: &str) -> (r: Result<Self, &'static str>)
        ensures
            r == spec_parse_lowered(lowercase(s@)),
            is_ascii_text(s@) ==> r == spec_parse_lowered(ascii_lower(s@)),
    {
        let lowered = to_lowercase(s);
        Self::parse_lowered(lowered.as_str())
    }
}

impl std::str::FromStr for SmartGridMode {
    type Err = &'static str;

    fn from_str(s: &str) -> (r: Result<Self, Self::Err>)
        ensures
            r == spec_parse_lowered(lowercase(s@)),
            is_ascii_text(s@) ==> r == spec_parse_lowered(ascii_lower(s@)),
    {
        Self::parse(s)
    }
}

/// The display name of every mode is ASCII and parses back to the mode, in
/// any case (so `Normal`, `normal` and `NORMAL` all name `Normal`).
pub proof fn mode_name_parses_back(mode: SmartGridMode)
    ensures
        is_ascii_text(spec_mode_name(mode)@),
        spec_parse_lowered(ascii_lower(spec_mode_name(mode)@)) == Ok::<SmartGridMode, &'static str>(
            mode,
        ),
{
    reveal_strlit("Normal");
    reveal_strlit("Blocking");
    reveal_strlit("LowPrice");
    reveal_strlit("Overcapacity");
    reveal_strlit("normal");
    reveal_strlit("blocking");
    reveal_strlit("lowprice");
    reveal_strlit("overcapacity");
    reveal_strlit("low_price");
    reveal_strlit("low-price");
    reveal_strlit("over_capacity");
    reveal_strlit("over-capacity");
    // Distinct names differ in their first character.
    assert("normal"@[0] == 'n' && "blocking"@[0] == 'b' && "lowprice"@[0] == 'l');
    assert("low_price"@[0] == 'l' && "low-price"@[0] == 'l' && "overcapacity"@[0] == 'o');
    match mode {
        SmartGridMode::Normal => {
            assert(spec_mode_name(mode)@ == "Normal"@);
            assert(ascii_lower("Normal"@) =~= "normal"@);
            assert(spec_parse_lowered("normal"@) == Ok::<SmartGridMode, &'static str>(mode));
        },
        SmartGridMode::Blocking => {
            assert(spec_mode_name(mode)@ == "Blocking"@);
            assert(ascii_lower("Blocking"@) =~= "blocking"@);
            assert(spec_parse_lowered("blocking"@) == Ok::<SmartGridMode, &'static str>(mode));
        },
        SmartGridMode::LowPrice => {
            assert(spec_mode_name(mode)@ == "LowPrice"@);
            assert(ascii_lower("LowPrice"@) =~= "lowprice"@);
            assert(spec_parse_lowered("lowprice"@) == Ok::<SmartGridMode, &'static str>(mode));
        },
        SmartGridMode::Overcapacity => {
            assert(spec_mode_name(mode)@ == "Overcapacity"@);
            assert(ascii_lower("Overcapacity"@) =~= "overcapacity"@);
            assert(spec_parse_lowered("overcapacity"@) == Ok::<SmartGridMode, &'static str>(mode));
        },
    }
}

/// Each mode's terminal pattern is distinct: the relay states identify the mode.
pub proof fn terminal_states_injective(a: SmartGridMode, b: SmartGridMode)
    ensures
        spec_terminal_states(a) == spec_terminal_states(b) ==> a == b,
{
}

} // verus!
