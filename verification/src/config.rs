//! The daemon's settings.
use vstd::prelude::*;

verus! {

/// Thresholds and timings of the fan control daemon.
#[derive(Clone, Copy, Debug, PartialEq, Eq, Structural)]
pub struct AppConfig {
    /// Temperature in Celsius above which Auto mode turns the fans to full speed.
    pub temp_threshold_high: i32,
    /// Temperature in Celsius at or below which Auto mode hands the fans back to the BIOS.
    pub temp_threshold_low: i32,
    /// Readings above the high threshold in a row that turn the fans to full speed.
    pub consecutive_high_temp_limit: u32,
    /// Readings at or below the low threshold in a row that hand the fans back.
    pub consecutive_low_temp_limit: u32,
    /// Seconds between two temperature readings.
    pub temp_check_interval: u64,
    /// Seconds after which full speed is written again, when set.
    pub max_fan_write_interval: Option<u64>,
}

/// The settings used when neither the command line nor the configuration
/// file gives one.
pub open spec fn default_config() -> AppConfig {
    AppConfig {
        temp_threshold_high: 75,
        temp_threshold_low: 70,
        consecutive_high_temp_limit: 3,
        consecutive_low_temp_limit: 3,
        temp_check_interval: 5,
        max_fan_write_interval: None,
    }
}

impl AppConfig {
    /// The high threshold, in millidegrees, fits in an `i32`.
    pub open spec fn high_threshold_in_range(&self) -> bool {
        -2_147_483 <= self.temp_threshold_high <= 2_147_483
    }

    /// Both thresholds, in millidegrees, fit in an `i32`.
    pub open spec fn thresholds_in_range(&self) -> bool {
        &&& -2_147_483 <= self.temp_threshold_high <= 2_147_483
        &&& -2_147_483 <= self.temp_threshold_low <= 2_147_483
    }

    /// Whether both thresholds, in millidegrees, fit in an `i32`.
    pub fn check_thresholds(&self) -> (r: bool)
        ensures
            r == self.thresholds_in_range(),
    {
        -2_147_483 <= self.temp_threshold_high && self.temp_threshold_high <= 2_147_483
            && -2_147_483 <= self.temp_threshold_low && self.temp_threshold_low <= 2_147_483
    }
}

impl Default for AppConfig {
    fn default() -> (r: AppConfig)
        ensures
            r == default_config(),
    {
        AppConfig {
            temp_threshold_high: 75,
            temp_threshold_low: 70,
            consecutive_high_temp_limit: 3,
            consecutive_low_temp_limit: 3,
            temp_check_interval: 5,
            max_fan_write_interval: None,
        }
    }
}

} // verus!
