//! The periodic temperature check: after each reading the daemon decides
//! whether to write a fan mode, and records the outcome of that write.
use vstd::prelude::*;

use crate::daemon::{is_high, is_low, DaemonState};
use crate::text::{chars_of, parse_i32, parse_i32_chars, trim, trimmed};
use crate::types::{FanMode, HardwareFanMode};

verus! {

/// A fan mode write decided by a temperature check.
#[derive(Clone, Copy, Debug, PartialEq, Eq, Structural)]
pub enum FanWrite {
    /// Max mode: full speed written again so the BIOS does not take over.
    MaxModeRewrite,
    /// Auto mode with the fans at full speed: full speed written again.
    AutoRewrite,
    /// Auto mode: the machine has run hot long enough, full speed.
    AutoEngage,
    /// Auto mode: the machine has been cool long enough, back to the BIOS.
    AutoRelease,
}

/// The hardware mode a write sets.
pub open spec fn write_target(w: FanWrite) -> HardwareFanMode {
    match w {
        FanWrite::AutoRelease => HardwareFanMode::Bios,
        _ => HardwareFanMode::Max,
    }
}

impl FanWrite {
    pub fn target(&self) -> (r: HardwareFanMode)
        ensures
            r == write_target(*self),
    {
        match self {
            FanWrite::AutoRelease => HardwareFanMode::Bios,
            _ => HardwareFanMode::Max,
        }
    }
}

/// At least `interval` seconds have passed between `last` and `now`
/// (nanoseconds); a clock that seems to run backwards counts as no time.
pub open spec fn interval_passed(last: u64, now: u64, interval: u64) -> bool {
    let elapsed = if now >= last {
        now - last
    } else {
        0
    };
    elapsed >= interval * 1_000_000_000
}

fn check_interval_passed(last: u64, now: u64, interval: u64) -> (r: bool)
    ensures
        r == interval_passed(last, now, interval),
{
    let elapsed: u64 = if now >= last {
        now - last
    } else {
        0
    };
    let r = elapsed / 1_000_000_000 >= interval;
    assert(r == (elapsed >= interval * 1_000_000_000)) by (nonlinear_arith)
        requires
            r == (elapsed / 1_000_000_000 >= interval),
    ;
    r
}

/// In Max mode, whether full speed is due to be written again: only when a
/// rewrite interval is set, and then when nothing was written yet or the
/// interval has passed.
pub open spec fn max_rewrite_due(s: DaemonState, now: u64) -> bool {
    match s.config.max_fan_write_interval {
        Some(i) => match s.last_fan_write {
            Some(l) => interval_passed(l, now, i),
            None => true,
        },
        None => false,
    }
}

/// In Auto mode at full speed, whether full speed is due to be written again.
pub open spec fn auto_rewrite_due(s: DaemonState, now: u64) -> bool {
    match s.config.max_fan_write_interval {
        Some(i) => match s.last_fan_write {
            Some(l) => interval_passed(l, now, i),
            None => false,
        },
        None => false,
    }
}

/// One temperature check: the state after it and the write it asks for.
/// `temperature` is the reading in millidegrees, `None` when no sensor
/// could be read.
pub open spec fn tick(s: DaemonState, temperature: Option<i32>, now: u64) -> (
    DaemonState,
    Option<FanWrite>,
) {
    match temperature {
        None => (s, None),
        Some(t) => {
            let s1 = DaemonState { current_temp: Some(t), ..s };
            if s1.user_mode == FanMode::Max {
                if max_rewrite_due(s1, now) {
                    (s1, Some(FanWrite::MaxModeRewrite))
                } else {
                    (s1, None)
                }
            } else if s1.user_mode == FanMode::Auto && s1.temp_monitoring_active {
                if s1.actual_mode != HardwareFanMode::Max {
                    if is_high(s1.config, t) {
                        let s2 = DaemonState {
                            consecutive_high_temps: (s1.consecutive_high_temps + 1) as u32,
                            ..s1
                        };
                        if s2.consecutive_high_temps >= s2.config.consecutive_high_temp_limit {
                            (s2, Some(FanWrite::AutoEngage))
                        } else {
                            (s2, None)
                        }
                    } else {
                        (DaemonState { consecutive_high_temps: 0, ..s1 }, None)
                    }
                } else if auto_rewrite_due(s1, now) {
                    (s1, Some(FanWrite::AutoRewrite))
                } else if is_low(s1.config, t) {
                    let s2 = DaemonState {
                        consecutive_low_temps: (s1.consecutive_low_temps + 1) as u32,
                        ..s1
                    };
                    if s2.consecutive_low_temps >= s2.config.consecutive_low_temp_limit {
                        (s2, Some(FanWrite::AutoRelease))
                    } else {
                        (s2, None)
                    }
                } else {
                    (DaemonState { consecutive_low_temps: 0, ..s1 }, None)
                }
            } else {
                (s1, None)
            }
        },
    }
}

/// The state after a write decided by a temperature check, by whether it
/// succeeded. A failed write changes nothing.
pub open spec fn after_write(s: DaemonState, w: FanWrite, succeeded: bool, now: u64) -> DaemonState {
    if !succeeded {
        s
    } else {
        match w {
            FanWrite::MaxModeRewrite => DaemonState {
                last_fan_write: Some(now),
                actual_mode: HardwareFanMode::Max,
                ..s
            },
            FanWrite::AutoRewrite => DaemonState { last_fan_write: Some(now), ..s },
            FanWrite::AutoEngage => DaemonState {
                actual_mode: HardwareFanMode::Max,
                last_fan_write: Some(now),
                consecutive_high_temps: 0,
                ..s
            },
            FanWrite::AutoRelease => DaemonState {
                actual_mode: HardwareFanMode::Bios,
                last_fan_write: None,
                consecutive_low_temps: 0,
                ..s
            },
        }
    }
}

/// The counter that a temperature check adds to, if any, can take one more
/// reading.
pub open spec fn tick_has_room(s: DaemonState, temperature: Option<i32>, now: u64) -> bool {
    match temperature {
        Some(t) => {
            let s1 = DaemonState { current_temp: Some(t), ..s };
            s.user_mode == FanMode::Auto && s.temp_monitoring_active ==> if s.actual_mode
                != HardwareFanMode::Max {
                is_high(s.config, t) ==> s.consecutive_high_temps < u32::MAX
            } else {
                !auto_rewrite_due(s1, now) && is_low(s.config, t) ==> s.consecutive_low_temps
                    < u32::MAX
            }
        },
        None => true,
    }
}

impl DaemonState {
    /// Takes in one temperature reading at time `now` and says which fan
    /// mode to write, if any.
    pub fn monitor_tick(&mut self, temperature: Option<i32>, now: u64) -> (r: Option<FanWrite>)
        requires
            old(self).config.thresholds_in_range(),
            tick_has_room(*old(self), temperature, now),
        ensures
            (*final(self), r) == tick(*old(self), temperature, now),
    {
        let t = match temperature {
            None => return None,
            Some(t) => t,
        };
        self.current_temp = Some(t);
        if self.user_mode == FanMode::Max {
            let due = match self.config.max_fan_write_interval {
                Some(i) => match self.last_fan_write {
                    Some(l) => check_interval_passed(l, now, i),
                    None => true,
                },
                None => false,
            };
            if due {
                Some(FanWrite::MaxModeRewrite)
            } else {
                None
            }
        } else if self.user_mode == FanMode::Auto && self.temp_monitoring_active {
            if self.actual_mode != HardwareFanMode::Max {
                if t > self.config.temp_threshold_high * 1000 {
                    self.consecutive_high_temps = self.consecutive_high_temps + 1;
                    if self.consecutive_high_temps >= self.config.consecutive_high_temp_limit {
                        Some(FanWrite::AutoEngage)
                    } else {
                        None
                    }
                } else {
                    self.consecutive_high_temps = 0;
                    None
                }
            } else {
                let due = match self.config.max_fan_write_interval {
                    Some(i) => match self.last_fan_write {
                        Some(l) => check_interval_passed(l, now, i),
                        None => false,
                    },
                    None => false,
                };
                if due {
                    Some(FanWrite::AutoRewrite)
                } else if t <= self.config.temp_threshold_low * 1000 {
                    self.consecutive_low_temps = self.consecutive_low_temps + 1;
                    if self.consecutive_low_temps >= self.config.consecutive_low_temp_limit {
                        Some(FanWrite::AutoRelease)
                    } else {
                        None
                    }
                } else {
                    self.consecutive_low_temps = 0;
                    None
                }
            }
        } else {
            None
        }
    }

    /// Whether the counter that a temperature check would add to can take
    /// one more reading.
    pub fn check_tick_room(&self, temperature: Option<i32>, now: u64) -> (r: bool)
        requires
            self.config.thresholds_in_range(),
        ensures
            r == tick_has_room(*self, temperature, now),
    {
        let t = match temperature {
            None => return true,
            Some(t) => t,
        };
        if !(self.user_mode == FanMode::Auto && self.temp_monitoring_active) {
            return true;
        }
        if self.actual_mode != HardwareFanMode::Max {
            !(t > self.config.temp_threshold_high * 1000) || self.consecutive_high_temps < u32::MAX
        } else {
            let due = match self.config.max_fan_write_interval {
                Some(i) => match self.last_fan_write {
                    Some(l) => check_interval_passed(l, now, i),
                    None => false,
                },
                None => false,
            };
            due || !(t <= self.config.temp_threshold_low * 1000) || self.consecutive_low_temps
                < u32::MAX
        }
    }

    /// Records the outcome of a write that `monitor_tick` asked for.
    pub fn monitor_write_done(&mut self, write: FanWrite, succeeded: bool, now: u64)
        ensures
            *final(self) == after_write(*old(self), write, succeeded, now),
    {
        if succeeded {
            match write {
                FanWrite::MaxModeRewrite => {
                    self.last_fan_write = Some(now);
                    self.actual_mode = HardwareFanMode::Max;
                },
                FanWrite::AutoRewrite => {
                    self.last_fan_write = Some(now);
                },
                FanWrite::AutoEngage => {
                    self.actual_mode = HardwareFanMode::Max;
                    self.last_fan_write = Some(now);
                    self.consecutive_high_temps = 0;
                },
                FanWrite::AutoRelease => {
                    self.actual_mode = HardwareFanMode::Bios;
                    self.last_fan_write = None;
                    self.consecutive_low_temps = 0;
                },
            }
        }
    }
}

/// Why no temperature could be had from the sensors.
#[derive(Clone, Copy, Debug, PartialEq, Eq, Structural)]
pub enum SensorError {
    /// There is no sensor file.
    NoSensor,
    /// No sensor file held a readable temperature.
    NoReading,
}

/// The temperature one sensor file gives: its contents, trimmed, read as
/// an `i32`; `None` when the file could not be read or holds no number.
pub open spec fn sensor_value(contents: Option<String>) -> Option<i32> {
    match contents {
        Some(c) => parse_i32(trim(c@)),
        None => None,
    }
}

/// The highest temperature among the sensor files that give one.
pub open spec fn max_reading(readings: Seq<Option<String>>) -> Option<i32>
    decreases readings.len(),
{
    if readings.len() == 0 {
        None
    } else {
        let rest = max_reading(readings.drop_last());
        match (rest, sensor_value(readings.last())) {
            (Some(a), Some(b)) => Some(if a >= b { a } else { b }),
            (Some(a), None) => Some(a),
            (None, b) => b,
        }
    }
}

/// The temperature the daemon goes by, from the contents of each sensor
/// file (`None` for one that could not be read).
pub open spec fn sensor_temperature(readings: Seq<Option<String>>) -> Result<i32, SensorError> {
    if readings.len() == 0 {
        Err(SensorError::NoSensor)
    } else {
        match max_reading(readings) {
            Some(t) => Ok(t),
            None => Err(SensorError::NoReading),
        }
    }
}

/// The highest temperature in millidegrees that the sensor files give.
pub fn temperature_from_sensors(readings: &Vec<Option<String>>) -> (r: Result<i32, SensorError>)
    ensures
        r == sensor_temperature(readings@),
{
    if readings.len() == 0 {
        return Err(SensorError::NoSensor);
    }
    let mut best: Option<i32> = None;
    let mut i: usize = 0;
    while i < readings.len()
        invariant
            i <= readings@.len(),
            best == max_reading(readings@.take(i as int)),
        decreases readings@.len() - i,
    {
        let value = match &readings[i] {
            Some(c) => {
                let t = trimmed(c.as_str());
                let v = chars_of(t.as_str());
                parse_i32_chars(&v)
            },
            None => None,
        };
        assert(readings@.take(i + 1).drop_last() =~= readings@.take(i as int));
        assert(value == sensor_value(readings@[i as int]));
        best = match (best, value) {
            (Some(a), Some(b)) => Some(if a >= b { a } else { b }),
            (Some(a), None) => Some(a),
            (None, b) => b,
        };
        i = i + 1;
    }
    assert(readings@.take(readings@.len() as int) =~= readings@);
    match best {
        Some(t) => Ok(t),
        None => Err(SensorError::NoReading),
    }
}

} // verus!
