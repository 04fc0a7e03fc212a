//! The modes the daemon and its clients talk about, with their names.
use vstd::prelude::*;
use vstd::string::*;

use crate::text::{lowercase, str_eq, to_lowercase};

verus! {

/// The fan policy a user asks for.
#[derive(Clone, Copy, Debug, PartialEq, Eq, Structural)]
pub enum FanMode {
    /// Fans always at full speed.
    Max,
    /// Full speed while the machine runs hot, BIOS control otherwise.
    Auto,
    /// The BIOS decides.
    Bios,
}

/// What the fan hardware is set to.
#[derive(Clone, Copy, Debug, PartialEq, Eq, Structural)]
pub enum HardwareFanMode {
    Max,
    Bios,
}

/// The platform performance profile.
#[derive(Clone, Copy, Debug, PartialEq, Eq, Structural)]
pub enum PerformanceMode {
    PowerSaver,
    Balanced,
    Performance,
}

/// What a client knows of the daemon's state.
#[derive(Clone, Debug)]
pub struct SystemState {
    pub fan_mode: FanMode,
    pub performance_mode: PerformanceMode,
    pub temperature: Option<i32>,
    pub error_message: Option<String>,
}

/// How a fan mode is displayed.
pub open spec fn fan_mode_text(m: FanMode) -> Seq<char> {
    match m {
        FanMode::Max => seq!['M', 'a', 'x'],
        FanMode::Auto => seq!['A', 'u', 't', 'o'],
        FanMode::Bios => seq!['B', 'i', 'o', 's'],
    }
}

/// The lowercase name by which a fan mode is asked for.
pub open spec fn fan_mode_key(m: FanMode) -> Seq<char> {
    match m {
        FanMode::Max => seq!['m', 'a', 'x'],
        FanMode::Auto => seq!['a', 'u', 't', 'o'],
        FanMode::Bios => seq!['b', 'i', 'o', 's'],
    }
}

/// The fan mode a word names, whatever its letter case.
pub open spec fn parse_fan_mode(s: Seq<char>) -> Option<FanMode> {
    let l = lowercase(s);
    if l == fan_mode_key(FanMode::Max) {
        Some(FanMode::Max)
    } else if l == fan_mode_key(FanMode::Auto) {
        Some(FanMode::Auto)
    } else if l == fan_mode_key(FanMode::Bios) {
        Some(FanMode::Bios)
    } else {
        None
    }
}

/// How a hardware fan mode is written in the daemon's status.
pub open spec fn hardware_mode_text(m: HardwareFanMode) -> Seq<char> {
    match m {
        HardwareFanMode::Max => seq!['M', 'a', 'x'],
        HardwareFanMode::Bios => seq!['B', 'i', 'o', 's'],
    }
}

/// The value written to the fan control file for a hardware mode.
pub open spec fn pwm_text(m: HardwareFanMode) -> Seq<char> {
    match m {
        HardwareFanMode::Max => seq!['0'],
        HardwareFanMode::Bios => seq!['2'],
    }
}

/// How a performance mode is displayed, and the name by which it is asked for.
pub open spec fn performance_mode_text(m: PerformanceMode) -> Seq<char> {
    match m {
        PerformanceMode::PowerSaver => seq!['p', 'o', 'w', 'e', 'r', '-', 's', 'a', 'v', 'e', 'r'],
        PerformanceMode::Balanced => seq!['b', 'a', 'l', 'a', 'n', 'c', 'e', 'd'],
        PerformanceMode::Performance => seq![
            'p',
            'e',
            'r',
            'f',
            'o',
            'r',
            'm',
            'a',
            'n',
            'c',
            'e',
        ],
    }
}

/// The performance mode a word names, whatever its letter case.
pub open spec fn parse_performance_mode(s: Seq<char>) -> Option<PerformanceMode> {
    let l = lowercase(s);
    if l == performance_mode_text(PerformanceMode::PowerSaver) {
        Some(PerformanceMode::PowerSaver)
    } else if l == performance_mode_text(PerformanceMode::Balanced) {
        Some(PerformanceMode::Balanced)
    } else if l == performance_mode_text(PerformanceMode::Performance) {
        Some(PerformanceMode::Performance)
    } else {
        None
    }
}

impl FanMode {
    /// The display name: `Max`, `Auto` or `Bios`.
    pub fn as_str(&self) -> (r: &'static str)
        ensures
            r@ == fan_mode_text(*self),
    {
        proof {
            reveal_strlit("Max");
            reveal_strlit("Auto");
            reveal_strlit("Bios");
        }
        match self {
            FanMode::Max => "Max",
            FanMode::Auto => "Auto",
            FanMode::Bios => "Bios",
        }
    }

    /// The display name as an owned string.
    pub fn to_display(&self) -> (r: String)
        ensures
            r@ == fan_mode_text(*self),
    {
        String::from_str(self.as_str())
    }

    /// The lowercase name: `max`, `auto` or `bios`.
    fn key(&self) -> (r: &'static str)
        ensures
            r@ == fan_mode_key(*self),
    {
        proof {
            reveal_strlit("max");
            reveal_strlit("auto");
            reveal_strlit("bios");
        }
        let r = match self {
            FanMode::Max => "max",
            FanMode::Auto => "auto",
            FanMode::Bios => "bios",
        };
        assert(r@ =~= fan_mode_key(*self));
        r
    }

    /// Reads a fan mode from its name, in any letter case.
    pub fn parse(s: &str) -> (r: Option<FanMode>)
        ensures
            r == parse_fan_mode(s@),
    {
        let l = to_lowercase(s);
        let ls = l.as_str();
        assert(lowercase(s@) == l@);
        if str_eq(ls, FanMode::Max.key()) {
            Some(FanMode::Max)
        } else if str_eq(ls, FanMode::Auto.key()) {
            Some(FanMode::Auto)
        } else if str_eq(ls, FanMode::Bios.key()) {
            Some(FanMode::Bios)
        } else {
            None
        }
    }
}

impl HardwareFanMode {
    /// The name the daemon's status gives it: `Max` or `Bios`.
    pub fn as_str(&self) -> (r: &'static str)
        ensures
            r@ == hardware_mode_text(*self),
    {
        proof {
            reveal_strlit("Max");
            reveal_strlit("Bios");
        }
        match self {
            HardwareFanMode::Max => "Max",
            HardwareFanMode::Bios => "Bios",
        }
    }

    /// The value for the fan control file: `0` for full speed, `2` for
    /// BIOS control.
    pub fn pwm_value(&self) -> (r: &'static str)
        ensures
            r@ == pwm_text(*self),
    {
        proof {
            reveal_strlit("0");
            reveal_strlit("2");
        }
        match self {
            HardwareFanMode::Max => "0",
            HardwareFanMode::Bios => "2",
        }
    }
}

impl PerformanceMode {
    /// The display name: `power-saver`, `balanced` or `performance`.
    pub fn as_str(&self) -> (r: &'static str)
        ensures
            r@ == performance_mode_text(*self),
    {
        proof {
            reveal_strlit("power-saver");
            reveal_strlit("balanced");
            reveal_strlit("performance");
        }
        let r = match self {
            PerformanceMode::PowerSaver => "power-saver",
            PerformanceMode::Balanced => "balanced",
            PerformanceMode::Performance => "performance",
        };
        assert(r@ =~= performance_mode_text(*self));
        r
    }

    /// The display name as an owned string.
    pub fn to_display(&self) -> (r: String)
        ensures
            r@ == performance_mode_text(*self),
    {
        String::from_str(self.as_str())
    }

    /// Reads a performance mode from its name, in any letter case.
    pub fn parse(s: &str) -> (r: Option<PerformanceMode>)
        ensures
            r == parse_performance_mode(s@),
    {
        let l = to_lowercase(s);
        let ls = l.as_str();
        assert(lowercase(s@) == l@);
        let p = PerformanceMode::PowerSaver.as_str();
        let b = PerformanceMode::Balanced.as_str();
        let f = PerformanceMode::Performance.as_str();
        if str_eq(ls, p) {
            Some(PerformanceMode::PowerSaver)
        } else if str_eq(ls, b) {
            Some(PerformanceMode::Balanced)
        } else if str_eq(ls, f) {
            Some(PerformanceMode::Performance)
        } else {
            None
        }
    }
}

} // verus!
