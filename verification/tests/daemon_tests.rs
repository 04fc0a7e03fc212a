use omenix::config::AppConfig;
use omenix::daemon::{
    map_mode_to_profile, mode_from_profile, parse_profile_choices, set_fan_mode,
    set_performance_mode, DaemonState,
};
use omenix::monitor::{temperature_from_sensors, FanWrite, SensorError};
use omenix::protocol::{
    fan_mode_reply, frame_response, handle_client_request, parse_command, performance_mode_reply,
    status_reply, Command, RequestAction,
};
use omenix::types::{FanMode, HardwareFanMode, PerformanceMode};

fn choices() -> Option<[String; 3]> {
    Some([
        "low-power".to_string(),
        "balanced".to_string(),
        "performance".to_string(),
    ])
}

fn auto_state() -> DaemonState {
    let mut s = DaemonState::new(&AppConfig::default());
    set_fan_mode(&mut s, FanMode::Auto, Some(40_000), 0);
    s
}

#[test]
fn default_config_matches_documented_defaults() {
    let c = AppConfig::default();
    assert_eq!(c.temp_threshold_high, 75);
    assert_eq!(c.temp_threshold_low, 70);
    assert_eq!(c.consecutive_high_temp_limit, 3);
    assert_eq!(c.consecutive_low_temp_limit, 3);
    assert_eq!(c.temp_check_interval, 5);
    assert_eq!(c.max_fan_write_interval, None);
    assert!(c.check_thresholds());
}

#[test]
fn thresholds_out_of_range_are_noticed() {
    let c = AppConfig { temp_threshold_high: 3_000_000, ..AppConfig::default() };
    assert!(!c.check_thresholds());
}

#[test]
fn new_state_starts_in_auto_with_bios_fans() {
    let s = DaemonState::new(&AppConfig::default());
    assert_eq!(s.user_mode, FanMode::Auto);
    assert_eq!(s.actual_mode, HardwareFanMode::Bios);
    assert_eq!(s.performance_mode, PerformanceMode::Performance);
    assert!(s.performance_profile_choices.is_none());
    assert_eq!(s.last_fan_write, None);
    assert_eq!(s.consecutive_high_temps, 0);
    assert_eq!(s.consecutive_low_temps, 0);
    assert!(!s.temp_monitoring_active);
    assert_eq!(s.current_temp, None);
}

#[test]
fn set_fan_mode_max() {
    let mut s = DaemonState::new(&AppConfig::default());
    s.consecutive_high_temps = 2;
    s.consecutive_low_temps = 1;
    let hw = set_fan_mode(&mut s, FanMode::Max, None, 1234);
    assert_eq!(hw, HardwareFanMode::Max);
    assert_eq!(s.user_mode, FanMode::Max);
    assert_eq!(s.actual_mode, HardwareFanMode::Max);
    assert_eq!(s.last_fan_write, Some(1234));
    assert!(!s.temp_monitoring_active);
    assert_eq!(s.consecutive_high_temps, 0);
    assert_eq!(s.consecutive_low_temps, 1);
}

#[test]
fn set_fan_mode_auto_follows_temperature() {
    let mut s = DaemonState::new(&AppConfig::default());
    assert_eq!(set_fan_mode(&mut s, FanMode::Auto, Some(75_001), 5), HardwareFanMode::Max);
    assert_eq!(s.actual_mode, HardwareFanMode::Max);
    assert!(s.temp_monitoring_active);
    assert_eq!(s.last_fan_write, None);
    assert_eq!(set_fan_mode(&mut s, FanMode::Auto, Some(75_000), 5), HardwareFanMode::Bios);
    assert_eq!(set_fan_mode(&mut s, FanMode::Auto, None, 5), HardwareFanMode::Bios);
}

#[test]
fn set_fan_mode_bios() {
    let mut s = DaemonState::new(&AppConfig::default());
    set_fan_mode(&mut s, FanMode::Max, None, 1);
    assert_eq!(set_fan_mode(&mut s, FanMode::Bios, Some(99_000), 2), HardwareFanMode::Bios);
    assert_eq!(s.user_mode, FanMode::Bios);
    assert_eq!(s.last_fan_write, None);
    assert!(!s.temp_monitoring_active);
}

#[test]
fn profile_names_with_and_without_choices() {
    assert_eq!(map_mode_to_profile(PerformanceMode::PowerSaver, &choices()), "low-power");
    assert_eq!(map_mode_to_profile(PerformanceMode::Balanced, &choices()), "balanced");
    assert_eq!(map_mode_to_profile(PerformanceMode::Performance, &None), "performance");
    assert_eq!(map_mode_to_profile(PerformanceMode::PowerSaver, &None), "power-saver");
}

#[test]
fn set_performance_mode_records_and_names_profile() {
    let mut s = DaemonState::new(&AppConfig::default());
    s.performance_profile_choices = choices();
    let v = set_performance_mode(&mut s, PerformanceMode::PowerSaver);
    assert_eq!(v, "low-power");
    assert_eq!(s.performance_mode, PerformanceMode::PowerSaver);
}

#[test]
fn profile_choices_take_the_first_three_words() {
    let c = parse_profile_choices("  low-power quiet\tbalanced performance\n").unwrap();
    assert_eq!(c[0], "low-power");
    assert_eq!(c[1], "quiet");
    assert_eq!(c[2], "balanced");
    assert!(parse_profile_choices("balanced performance\n").is_none());
    assert!(parse_profile_choices("").is_none());
}

#[test]
fn current_profile_is_read_back() {
    assert_eq!(mode_from_profile("low-power\n", &choices()), Some(PerformanceMode::PowerSaver));
    assert_eq!(mode_from_profile("  BALANCED ", &choices()), Some(PerformanceMode::Balanced));
    assert_eq!(mode_from_profile("power-saver", &choices()), Some(PerformanceMode::PowerSaver));
    assert_eq!(mode_from_profile("Performance\n", &None), Some(PerformanceMode::Performance));
    assert_eq!(mode_from_profile("quiet", &choices()), None);
    assert_eq!(mode_from_profile("", &None), None);
}

#[test]
fn startup_profile_loading() {
    let mut s = DaemonState::new(&AppConfig::default());
    s.load_performance_profile(Some("low-power balanced performance\n"), Some("balanced\n"));
    assert_eq!(s.performance_mode, PerformanceMode::Balanced);
    assert_eq!(s.performance_profile_choices.as_ref().unwrap()[0], "low-power");
    let mut t = DaemonState::new(&AppConfig::default());
    t.load_performance_profile(None, None);
    assert_eq!(t.performance_mode, PerformanceMode::Performance);
    assert!(t.performance_profile_choices.is_none());
    let mut u = DaemonState::new(&AppConfig::default());
    u.load_performance_profile(Some("a b"), Some("nonsense"));
    assert_eq!(u.performance_mode, PerformanceMode::Performance);
    assert!(u.performance_profile_choices.is_none());
}

#[test]
fn commands_are_parsed() {
    assert_eq!(parse_command("set max"), Ok(Command::SetFanMode(FanMode::Max)));
    assert_eq!(parse_command("  set   AUTO \n"), Ok(Command::SetFanMode(FanMode::Auto)));
    assert_eq!(parse_command("set Bios"), Ok(Command::SetFanMode(FanMode::Bios)));
    assert_eq!(
        parse_command("set_performance power-saver"),
        Ok(Command::SetPerformanceMode(PerformanceMode::PowerSaver))
    );
    assert_eq!(parse_command("status\n"), Ok(Command::Status));
}

#[test]
fn bad_commands_are_refused() {
    assert_eq!(parse_command("set turbo"), Err("Invalid fan mode".to_string()));
    assert_eq!(
        parse_command("set_performance turbo"),
        Err("Invalid performance mode".to_string())
    );
    let invalid =
        "Invalid command. Use 'set <mode>', 'set_performance <mode>', or 'status'".to_string();
    assert_eq!(parse_command(""), Err(invalid.clone()));
    assert_eq!(parse_command("status now"), Err(invalid.clone()));
    assert_eq!(parse_command("set"), Err(invalid.clone()));
    assert_eq!(parse_command("set max now"), Err(invalid));
}

#[test]
fn requests_lead_to_the_right_actions() {
    let mut s = auto_state();
    match handle_client_request(&mut s, "set auto", 10) {
        RequestAction::ReadTemperature(FanMode::Auto) => {}
        other => panic!("unexpected {:?}", other),
    }
    match handle_client_request(&mut s, "set max", 10) {
        RequestAction::WriteFanMode(FanMode::Max, HardwareFanMode::Max) => {}
        other => panic!("unexpected {:?}", other),
    }
    assert_eq!(s.user_mode, FanMode::Max);
    assert_eq!(s.last_fan_write, Some(10));
    match handle_client_request(&mut s, "set_performance balanced", 11) {
        RequestAction::WritePerformanceProfile(PerformanceMode::Balanced, v) => {
            assert_eq!(v, "balanced")
        }
        other => panic!("unexpected {:?}", other),
    }
    assert_eq!(s.performance_mode, PerformanceMode::Balanced);
    match handle_client_request(&mut s, "status", 12) {
        RequestAction::ReadPerformanceProfile => {}
        other => panic!("unexpected {:?}", other),
    }
    match handle_client_request(&mut s, "reboot", 12) {
        RequestAction::Respond(Err(e)) => assert!(e.starts_with("Invalid command.")),
        other => panic!("unexpected {:?}", other),
    }
    assert_eq!(s.user_mode, FanMode::Max);
}

#[test]
fn replies_are_worded_as_before() {
    assert_eq!(fan_mode_reply(FanMode::Max, Ok(())), Ok("Fan mode set to: Max".to_string()));
    assert_eq!(
        fan_mode_reply(FanMode::Auto, Err("denied".to_string())),
        Err("Failed to write fan mode: denied".to_string())
    );
    assert_eq!(
        performance_mode_reply(PerformanceMode::PowerSaver, Ok(())),
        Ok("Performance mode set to: power-saver".to_string())
    );
    assert_eq!(
        performance_mode_reply(PerformanceMode::Balanced, Err("no file".to_string())),
        Err("Failed to write performance mode: no file".to_string())
    );
}

#[test]
fn status_line() {
    let mut s = auto_state();
    s.current_temp = Some(45_678);
    assert_eq!(
        status_reply(&s, None),
        Ok("Mode: Auto, Actual: Bios, Performance: performance, Temp: 45°C".to_string())
    );
    s.current_temp = None;
    s.performance_profile_choices = choices();
    assert_eq!(
        status_reply(&s, Some("low-power\n")),
        Ok("Mode: Auto, Actual: Bios, Performance: power-saver, Temp: Unknown".to_string())
    );
    s.current_temp = Some(-1_500);
    set_fan_mode(&mut s, FanMode::Max, None, 3);
    assert_eq!(
        status_reply(&s, Some("unknown-profile")),
        Ok("Mode: Max, Actual: Max, Performance: performance, Temp: -1°C".to_string())
    );
    s.current_temp = Some(0);
    assert_eq!(
        status_reply(&s, None),
        Ok("Mode: Max, Actual: Max, Performance: performance, Temp: 0°C".to_string())
    );
}

#[test]
fn framing() {
    assert_eq!(frame_response(&Ok("done".to_string())), "OK: done\n");
    assert_eq!(frame_response(&Err("bad".to_string())), "ERROR: bad\n");
}

#[test]
fn sensors_give_the_highest_temperature() {
    assert_eq!(temperature_from_sensors(&vec![]), Err(SensorError::NoSensor));
    assert_eq!(
        temperature_from_sensors(&vec![None, Some("abc\n".to_string())]),
        Err(SensorError::NoReading)
    );
    assert_eq!(
        temperature_from_sensors(&vec![
            Some("45000\n".to_string()),
            Some("52000".to_string()),
            None,
            Some("x".to_string())
        ]),
        Ok(52_000)
    );
    assert_eq!(temperature_from_sensors(&vec![Some(" +5 ".to_string())]), Ok(5));
    assert_eq!(temperature_from_sensors(&vec![Some("-3000".to_string())]), Ok(-3_000));
    assert_eq!(
        temperature_from_sensors(&vec![Some("2147483648".to_string())]),
        Err(SensorError::NoReading)
    );
    assert_eq!(
        temperature_from_sensors(&vec![Some("-2147483648".to_string())]),
        Ok(i32::MIN)
    );
    assert_eq!(temperature_from_sensors(&vec![Some("-".to_string())]), Err(SensorError::NoReading));
    assert_eq!(temperature_from_sensors(&vec![Some("00042".to_string())]), Ok(42));
}

#[test]
fn fan_write_targets() {
    assert_eq!(FanWrite::AutoEngage.target(), HardwareFanMode::Max);
    assert_eq!(FanWrite::AutoRelease.target(), HardwareFanMode::Bios);
    assert_eq!(FanWrite::MaxModeRewrite.target(), HardwareFanMode::Max);
    assert_eq!(HardwareFanMode::Max.pwm_value(), "0");
    assert_eq!(HardwareFanMode::Bios.pwm_value(), "2");
}
