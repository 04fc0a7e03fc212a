//! The daemon's state and the decisions it takes on it.
use vstd::prelude::*;
use vstd::string::*;

use crate::config::AppConfig;
use crate::text::{
    chars_of, lowercase, split_whitespace, str_eq, to_lowercase, trim, trimmed, word_spans,
};
use crate::types::{
    parse_performance_mode, performance_mode_text, FanMode, HardwareFanMode, PerformanceMode,
};

verus! {

/// Everything the daemon keeps between requests and temperature checks.
/// Times are nanoseconds on the daemon's monotonic clock.
pub struct DaemonState {
    /// The fan mode the user asked for.
    pub user_mode: FanMode,
    /// What the fan hardware was last set to.
    pub actual_mode: HardwareFanMode,
    /// The performance mode last asked for or found at startup.
    pub performance_mode: PerformanceMode,
    /// The platform's own names for power-saver, balanced and performance.
    pub performance_profile_choices: Option<[String; 3]>,
    /// When full speed was last written.
    pub last_fan_write: Option<u64>,
    pub consecutive_high_temps: u32,
    pub consecutive_low_temps: u32,
    pub temp_monitoring_active: bool,
    /// The last temperature read, in millidegrees Celsius.
    pub current_temp: Option<i32>,
    pub config: AppConfig,
}

/// The state the daemon starts in.
pub open spec fn initial_state(config: AppConfig) -> DaemonState {
    DaemonState {
        user_mode: FanMode::Auto,
        actual_mode: HardwareFanMode::Bios,
        performance_mode: PerformanceMode::Performance,
        performance_profile_choices: None,
        last_fan_write: None,
        consecutive_high_temps: 0,
        consecutive_low_temps: 0,
        temp_monitoring_active: false,
        current_temp: None,
        config,
    }
}

impl DaemonState {
    pub fn new(config: &AppConfig) -> (r: DaemonState)
        ensures
            r == initial_state(*config),
    {
        DaemonState {
            user_mode: FanMode::Auto,
            actual_mode: HardwareFanMode::Bios,
            performance_mode: PerformanceMode::Performance,
            performance_profile_choices: None,
            last_fan_write: None,
            consecutive_high_temps: 0,
            consecutive_low_temps: 0,
            temp_monitoring_active: false,
            current_temp: None,
            config: *config,
        }
    }
}

/// A temperature in millidegrees is above the high threshold.
pub open spec fn is_high(config: AppConfig, temp: i32) -> bool {
    temp > config.temp_threshold_high * 1000
}

/// A temperature in millidegrees is at or below the low threshold.
pub open spec fn is_low(config: AppConfig, temp: i32) -> bool {
    temp <= config.temp_threshold_low * 1000
}

/// What the hardware is set to when the user asks for `mode`, given the
/// temperature read for Auto (`None` when it could not be read).
pub open spec fn fan_target(config: AppConfig, mode: FanMode, temperature: Option<i32>) -> HardwareFanMode {
    match mode {
        FanMode::Max => HardwareFanMode::Max,
        FanMode::Auto => match temperature {
            Some(t) => if is_high(config, t) {
                HardwareFanMode::Max
            } else {
                HardwareFanMode::Bios
            },
            None => HardwareFanMode::Bios,
        },
        FanMode::Bios => HardwareFanMode::Bios,
    }
}

/// The state after the user asks for `mode` at time `now`.
pub open spec fn after_fan_mode_set(
    s: DaemonState,
    mode: FanMode,
    temperature: Option<i32>,
    now: u64,
) -> DaemonState {
    DaemonState {
        user_mode: mode,
        actual_mode: fan_target(s.config, mode, temperature),
        consecutive_high_temps: 0,
        last_fan_write: if mode == FanMode::Max {
            Some(now)
        } else {
            None
        },
        temp_monitoring_active: mode == FanMode::Auto,
        ..s
    }
}

/// Applies a fan mode asked for by the user and says what to write to the
/// hardware. `temperature` is the reading taken for Auto; the other modes
/// ignore it.
pub fn set_fan_mode(state: &mut DaemonState, new_mode: FanMode, temperature: Option<i32>, now: u64) -> (r: HardwareFanMode)
    requires
        old(state).config.high_threshold_in_range(),
    ensures
        r == fan_target(old(state).config, new_mode, temperature),
        *final(state) == after_fan_mode_set(*old(state), new_mode, temperature, now),
{
    let threshold = state.config.temp_threshold_high * 1000;
    let actual = match new_mode {
        FanMode::Max => HardwareFanMode::Max,
        FanMode::Auto => match temperature {
            Some(t) => if t > threshold {
                HardwareFanMode::Max
            } else {
                HardwareFanMode::Bios
            },
            None => HardwareFanMode::Bios,
        },
        FanMode::Bios => HardwareFanMode::Bios,
    };
    state.user_mode = new_mode;
    state.actual_mode = actual;
    state.consecutive_high_temps = 0;
    match new_mode {
        FanMode::Max => {
            state.last_fan_write = Some(now);
            state.temp_monitoring_active = false;
        },
        FanMode::Auto => {
            state.temp_monitoring_active = true;
            state.last_fan_write = None;
        },
        FanMode::Bios => {
            state.temp_monitoring_active = false;
            state.last_fan_write = None;
        },
    }
    actual
}

/// The position of a mode among the platform's profile choices.
pub open spec fn choice_index(mode: PerformanceMode) -> int {
    match mode {
        PerformanceMode::PowerSaver => 0,
        PerformanceMode::Balanced => 1,
        PerformanceMode::Performance => 2,
    }
}

/// The platform profile written for a performance mode: the platform's own
/// name for it when known, else the mode's name.
pub open spec fn profile_for(mode: PerformanceMode, choices: Option<[String; 3]>) -> Seq<char> {
    match choices {
        Some(c) => c@[choice_index(mode)]@,
        None => performance_mode_text(mode),
    }
}

pub fn map_mode_to_profile(mode: PerformanceMode, choices: &Option<[String; 3]>) -> (r: String)
    ensures
        r@ == profile_for(mode, *choices),
{
    match choices {
        Some(c) => match mode {
            PerformanceMode::PowerSaver => c[0].clone(),
            PerformanceMode::Balanced => c[1].clone(),
            PerformanceMode::Performance => c[2].clone(),
        },
        None => mode.to_display(),
    }
}

/// Applies a performance mode asked for by the user and gives the profile
/// to write.
pub fn set_performance_mode(state: &mut DaemonState, new_mode: PerformanceMode) -> (r: String)
    ensures
        *final(state) == (DaemonState { performance_mode: new_mode, ..*old(state) }),
        r@ == profile_for(new_mode, old(state).performance_profile_choices),
{
    state.performance_mode = new_mode;
    map_mode_to_profile(new_mode, &state.performance_profile_choices)
}

/// The platform's profile names, read from the list of choices it offers:
/// its first three words, when it has three.
pub fn parse_profile_choices(contents: &str) -> (r: Option<[String; 3]>)
    ensures
        r is Some <==> split_whitespace(contents@).len() >= 3,
        r matches Some(c) ==> forall|i: int|
            0 <= i < 3 ==> #[trigger] c@[i]@ == split_whitespace(contents@)[i],
{
    let v = chars_of(contents);
    let spans = word_spans(&v);
    if spans.len() < 3 {
        return None;
    }
    let (a0, b0) = spans[0];
    let (a1, b1) = spans[1];
    let (a2, b2) = spans[2];
    let w0 = String::from_str(contents.substring_char(a0, b0));
    let w1 = String::from_str(contents.substring_char(a1, b1));
    let w2 = String::from_str(contents.substring_char(a2, b2));
    let r = [w0, w1, w2];
    assert(r@[0]@ == split_whitespace(contents@)[0]);
    assert(r@[1]@ == split_whitespace(contents@)[1]);
    assert(r@[2]@ == split_whitespace(contents@)[2]);
    Some(r)
}

/// The performance mode a platform profile file names: one of the
/// platform's own names, compared without letter case, else a mode's name.
pub open spec fn profile_mode(contents: Seq<char>, choices: Option<[String; 3]>) -> Option<
    PerformanceMode,
> {
    let current = lowercase(trim(contents));
    match choices {
        Some(c) => if current == lowercase(c@[0]@) {
            Some(PerformanceMode::PowerSaver)
        } else if current == lowercase(c@[1]@) {
            Some(PerformanceMode::Balanced)
        } else if current == lowercase(c@[2]@) {
            Some(PerformanceMode::Performance)
        } else {
            parse_performance_mode(current)
        },
        None => parse_performance_mode(current),
    }
}

/// Reads the current performance mode from the platform profile file's contents.
pub fn mode_from_profile(contents: &str, choices: &Option<[String; 3]>) -> (r: Option<
    PerformanceMode,
>)
    ensures
        r == profile_mode(contents@, *choices),
{
    let t = trimmed(contents);
    let current = to_lowercase(t.as_str());
    let cur = current.as_str();
    match choices {
        Some(c) => {
            let l0 = to_lowercase(c[0].as_str());
            if str_eq(cur, l0.as_str()) {
                return Some(PerformanceMode::PowerSaver);
            }
            let l1 = to_lowercase(c[1].as_str());
            if str_eq(cur, l1.as_str()) {
                return Some(PerformanceMode::Balanced);
            }
            let l2 = to_lowercase(c[2].as_str());
            if str_eq(cur, l2.as_str()) {
                return Some(PerformanceMode::Performance);
            }
            PerformanceMode::parse(cur)
        },
        None => PerformanceMode::parse(cur),
    }
}

impl DaemonState {
    /// Takes in, at startup, the platform's list of profile choices and its
    /// current profile (each `None` when its file could not be read): the
    /// choices are kept, and the current profile gives the performance mode,
    /// `Performance` when it names none.
    pub fn load_performance_profile(&mut self, choices_file: Option<&str>, profile_file: Option<&str>)
        ensures
            *final(self) == (DaemonState {
                performance_profile_choices: final(self).performance_profile_choices,
                performance_mode: final(self).performance_mode,
                ..*old(self)
            }),
            match choices_file {
                Some(c) => {
                    &&& final(self).performance_profile_choices is Some <==> split_whitespace(c@).len() >= 3
                    &&& final(self).performance_profile_choices matches Some(a) ==> forall|i: int|
                        0 <= i < 3 ==> #[trigger] a@[i]@ == split_whitespace(c@)[i]
                },
                None => final(self).performance_profile_choices is None,
            },
            final(self).performance_mode == match profile_file {
                Some(p) => match profile_mode(p@, final(self).performance_profile_choices) {
                    Some(m) => m,
                    None => PerformanceMode::Performance,
                },
                None => PerformanceMode::Performance,
            },
    {
        let choices = match choices_file {
            Some(c) => parse_profile_choices(c),
            None => None,
        };
        let mode = match profile_file {
            Some(p) => match mode_from_profile(p, &choices) {
                Some(m) => m,
                None => PerformanceMode::Performance,
            },
            None => PerformanceMode::Performance,
        };
        self.performance_profile_choices = choices;
        self.performance_mode = mode;
    }
}

} // verus!
