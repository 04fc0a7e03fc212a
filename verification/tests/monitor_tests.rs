use omenix::config::AppConfig;
use omenix::daemon::{set_fan_mode, DaemonState};
use omenix::monitor::FanWrite;
use omenix::types::{FanMode, HardwareFanMode};

/// One millisecond, in the nanoseconds the daemon's clock counts.
const MS: u64 = 1_000_000;

fn state_in(mode: FanMode, config: AppConfig) -> DaemonState {
    let mut s = DaemonState::new(&config);
    set_fan_mode(&mut s, mode, Some(40_000), 0);
    s
}

#[test]
fn unreadable_temperature_changes_nothing() {
    let mut s = state_in(FanMode::Auto, AppConfig::default());
    s.consecutive_high_temps = 2;
    assert_eq!(s.monitor_tick(None, 100), None);
    assert_eq!(s.current_temp, None);
    assert_eq!(s.consecutive_high_temps, 2);
}

#[test]
fn auto_engages_after_three_high_readings() {
    let mut s = state_in(FanMode::Auto, AppConfig::default());
    assert_eq!(s.monitor_tick(Some(80_000), 5_000), None);
    assert_eq!(s.consecutive_high_temps, 1);
    assert_eq!(s.current_temp, Some(80_000));
    assert_eq!(s.monitor_tick(Some(76_000), 10_000), None);
    assert_eq!(s.consecutive_high_temps, 2);
    assert_eq!(s.monitor_tick(Some(90_000), 15_000), Some(FanWrite::AutoEngage));
    assert_eq!(s.consecutive_high_temps, 3);
    s.monitor_write_done(FanWrite::AutoEngage, true, 15_010);
    assert_eq!(s.actual_mode, HardwareFanMode::Max);
    assert_eq!(s.last_fan_write, Some(15_010));
    assert_eq!(s.consecutive_high_temps, 0);
}

#[test]
fn a_normal_reading_resets_the_high_count() {
    let mut s = state_in(FanMode::Auto, AppConfig::default());
    s.monitor_tick(Some(80_000), 1);
    s.monitor_tick(Some(80_000), 2);
    assert_eq!(s.monitor_tick(Some(75_000), 3), None);
    assert_eq!(s.consecutive_high_temps, 0);
    assert_eq!(s.monitor_tick(Some(80_000), 4), None);
    assert_eq!(s.consecutive_high_temps, 1);
}

#[test]
fn failed_engage_is_tried_again() {
    let mut s = state_in(FanMode::Auto, AppConfig::default());
    s.monitor_tick(Some(80_000), 1);
    s.monitor_tick(Some(80_000), 2);
    assert_eq!(s.monitor_tick(Some(80_000), 3), Some(FanWrite::AutoEngage));
    s.monitor_write_done(FanWrite::AutoEngage, false, 3);
    assert_eq!(s.actual_mode, HardwareFanMode::Bios);
    assert_eq!(s.consecutive_high_temps, 3);
    assert_eq!(s.monitor_tick(Some(80_000), 4), Some(FanWrite::AutoEngage));
    assert_eq!(s.consecutive_high_temps, 4);
}

#[test]
fn auto_releases_after_three_low_readings() {
    let mut s = state_in(FanMode::Auto, AppConfig::default());
    set_fan_mode(&mut s, FanMode::Auto, Some(90_000), 0);
    assert_eq!(s.actual_mode, HardwareFanMode::Max);
    assert_eq!(s.monitor_tick(Some(70_000), 1), None);
    assert_eq!(s.monitor_tick(Some(72_000), 2), None);
    assert_eq!(s.consecutive_low_temps, 0);
    assert_eq!(s.monitor_tick(Some(65_000), 3), None);
    assert_eq!(s.monitor_tick(Some(60_000), 4), None);
    assert_eq!(s.monitor_tick(Some(50_000), 5), Some(FanWrite::AutoRelease));
    s.monitor_write_done(FanWrite::AutoRelease, true, 6);
    assert_eq!(s.actual_mode, HardwareFanMode::Bios);
    assert_eq!(s.last_fan_write, None);
    assert_eq!(s.consecutive_low_temps, 0);
}

#[test]
fn auto_at_full_speed_rewrites_when_interval_passes() {
    let config = AppConfig { max_fan_write_interval: Some(120), ..AppConfig::default() };
    let mut s = state_in(FanMode::Auto, config);
    for t in 1..=3u64 {
        s.monitor_tick(Some(80_000), t * 5_000 * MS);
    }
    s.monitor_write_done(FanWrite::AutoEngage, true, 15_000 * MS);
    assert_eq!(s.monitor_tick(Some(50_000), 135_000 * MS - 1), None);
    assert_eq!(s.consecutive_low_temps, 1);
    assert_eq!(s.monitor_tick(Some(50_000), 135_000 * MS), Some(FanWrite::AutoRewrite));
    assert_eq!(s.consecutive_low_temps, 1);
    s.monitor_write_done(FanWrite::AutoRewrite, true, 135_001 * MS);
    assert_eq!(s.last_fan_write, Some(135_001 * MS));
    assert_eq!(s.actual_mode, HardwareFanMode::Max);
}

#[test]
fn max_mode_rewrites_only_with_an_interval() {
    let mut s = state_in(FanMode::Max, AppConfig::default());
    assert_eq!(s.monitor_tick(Some(30_000), 1_000_000 * MS), None);
    let config = AppConfig { max_fan_write_interval: Some(100), ..AppConfig::default() };
    let mut t = state_in(FanMode::Max, config);
    assert_eq!(t.last_fan_write, Some(0));
    assert_eq!(t.monitor_tick(Some(30_000), 99_999 * MS), None);
    assert_eq!(t.monitor_tick(Some(30_000), 100_000 * MS - 1), None);
    assert_eq!(t.monitor_tick(Some(30_000), 100_000 * MS), Some(FanWrite::MaxModeRewrite));
    t.monitor_write_done(FanWrite::MaxModeRewrite, true, 100_000 * MS);
    assert_eq!(t.last_fan_write, Some(100_000 * MS));
    t.last_fan_write = None;
    assert_eq!(t.monitor_tick(Some(30_000), 5), Some(FanWrite::MaxModeRewrite));
}

#[test]
fn counter_room_is_needed_only_where_a_counter_grows() {
    let mut s = state_in(FanMode::Auto, AppConfig::default());
    s.consecutive_high_temps = u32::MAX;
    assert!(!s.check_tick_room(Some(80_000), 0));
    assert!(s.check_tick_room(Some(50_000), 0));
    assert!(s.check_tick_room(None, 0));
    s.consecutive_low_temps = u32::MAX;
    let mut b = state_in(FanMode::Bios, AppConfig::default());
    b.consecutive_high_temps = u32::MAX;
    assert!(b.check_tick_room(Some(99_000), 0));
}

#[test]
fn bios_mode_never_writes() {
    let mut s = state_in(FanMode::Bios, AppConfig::default());
    for i in 0..10u64 {
        assert_eq!(s.monitor_tick(Some(99_000), i), None);
    }
    assert_eq!(s.consecutive_high_temps, 0);
    assert_eq!(s.actual_mode, HardwareFanMode::Bios);
    assert_eq!(s.current_temp, Some(99_000));
}

#[test]
fn a_backwards_clock_counts_as_no_time() {
    let config = AppConfig { max_fan_write_interval: Some(1), ..AppConfig::default() };
    let mut s = state_in(FanMode::Max, config);
    s.last_fan_write = Some(10_000 * MS);
    assert_eq!(s.monitor_tick(Some(30_000), 5_000 * MS), None);
}
