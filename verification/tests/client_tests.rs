use omenix::client::{ClientError, DaemonClient};
use omenix::config::AppConfig;
use omenix::daemon::{map_mode_to_profile, mode_from_profile, set_fan_mode, DaemonState};
use omenix::protocol::{frame_response, parse_command, status_reply, Command};
use omenix::types::{FanMode, PerformanceMode};

const FAN_MODES: [FanMode; 3] = [FanMode::Max, FanMode::Auto, FanMode::Bios];
const PERFORMANCE_MODES: [PerformanceMode; 3] =
    [PerformanceMode::PowerSaver, PerformanceMode::Balanced, PerformanceMode::Performance];

#[test]
fn commands_sent_by_the_client() {
    let c = DaemonClient::new();
    assert_eq!(c.fan_mode_command(FanMode::Max), "set max");
    assert_eq!(c.fan_mode_command(FanMode::Auto), "set auto");
    assert_eq!(c.fan_mode_command(FanMode::Bios), "set bios");
    assert_eq!(
        c.performance_mode_command(PerformanceMode::PowerSaver),
        "set_performance power-saver"
    );
    assert_eq!(c.status_command(), "status");
}

#[test]
fn the_daemon_understands_every_client_command() {
    let c = DaemonClient::default();
    for m in FAN_MODES {
        assert_eq!(parse_command(&c.fan_mode_command(m)), Ok(Command::SetFanMode(m)));
    }
    for m in PERFORMANCE_MODES {
        assert_eq!(
            parse_command(&c.performance_mode_command(m)),
            Ok(Command::SetPerformanceMode(m))
        );
    }
    assert_eq!(parse_command(&c.status_command()), Ok(Command::Status));
}

#[test]
fn acknowledgements() {
    let c = DaemonClient::new();
    assert!(c.set_fan_mode("OK: Fan mode set to: Max\n").is_ok());
    match c.set_fan_mode("ERROR: Invalid fan mode\n") {
        Err(ClientError::Daemon(m)) => assert_eq!(m, "Daemon error: Invalid fan mode"),
        other => panic!("unexpected {:?}", other),
    }
    assert!(matches!(c.set_fan_mode("hello"), Err(ClientError::UnexpectedResponse)));
    assert!(matches!(c.set_fan_mode(""), Err(ClientError::UnexpectedResponse)));
    assert!(c.set_performance_mode("OK: Performance mode set to: balanced\n").is_ok());
    match c.set_performance_mode("ERROR:   no profile  \n") {
        Err(ClientError::Daemon(m)) => assert_eq!(m, "Daemon error: no profile"),
        other => panic!("unexpected {:?}", other),
    }
}

#[test]
fn status_text_is_trimmed() {
    let c = DaemonClient::new();
    assert_eq!(c.get_status("OK:  Mode: Auto \n").unwrap(), "Mode: Auto");
    match c.get_status("ERROR: busy\n") {
        Err(ClientError::Daemon(m)) => assert_eq!(m, "Error getting status: busy"),
        other => panic!("unexpected {:?}", other),
    }
    assert!(matches!(c.get_status("ok: lowercase"), Err(ClientError::UnexpectedResponse)));
}

#[test]
fn current_state_from_status() {
    let c = DaemonClient::new();
    let st = c
        .get_current_state("OK: Mode: Bios, Actual: Max, Performance: power-saver, Temp: 45°C\n")
        .unwrap();
    assert_eq!(st.fan_mode, FanMode::Bios);
    assert_eq!(st.performance_mode, PerformanceMode::PowerSaver);
    assert_eq!(st.temperature, None);
    assert!(st.error_message.is_none());
    match c.get_current_state("ERROR: down\n") {
        Err(ClientError::Daemon(m)) => assert_eq!(m, "Error getting state: down"),
        other => panic!("unexpected {:?}", other),
    }
}

#[test]
fn daemon_running() {
    let c = DaemonClient::new();
    assert!(!c.is_daemon_running(None));
    assert!(c.is_daemon_running(Some("OK: Mode: Auto\n")));
    assert!(!c.is_daemon_running(Some("ERROR: x\n")));
    assert!(!c.is_daemon_running(Some("nonsense")));
}

#[test]
fn the_client_reads_back_what_the_daemon_reports() {
    let c = DaemonClient::new();
    for user in FAN_MODES {
        for perf in PERFORMANCE_MODES {
            for temp in [None, Some(45_000), Some(-7_000), Some(i32::MAX)] {
                let mut s = DaemonState::new(&AppConfig::default());
                set_fan_mode(&mut s, user, Some(80_000), 0);
                s.performance_mode = perf;
                s.current_temp = temp;
                let reply = status_reply(&s, None);
                let st = c.get_current_state(&frame_response(&reply)).unwrap();
                assert_eq!(st.fan_mode, user);
                assert_eq!(st.performance_mode, perf);
                assert_eq!(c.get_status(&frame_response(&reply)).unwrap(), reply.unwrap());
            }
        }
    }
}

#[test]
fn written_profiles_read_back_as_their_mode() {
    let names = Some(["Low-Power".to_string(), "balanced".to_string(), "Performance".to_string()]);
    for m in PERFORMANCE_MODES {
        assert_eq!(mode_from_profile(&map_mode_to_profile(m, &names), &names), Some(m));
        assert_eq!(mode_from_profile(&map_mode_to_profile(m, &None), &None), Some(m));
    }
}

#[test]
fn fan_mode_names_in_any_case() {
    assert_eq!(FanMode::parse("MAX"), Some(FanMode::Max));
    assert_eq!(FanMode::parse("Auto"), Some(FanMode::Auto));
    assert_eq!(FanMode::parse("bIoS"), Some(FanMode::Bios));
    assert_eq!(FanMode::parse("maximum"), None);
    assert_eq!(PerformanceMode::parse("POWER-SAVER"), Some(PerformanceMode::PowerSaver));
    assert_eq!(PerformanceMode::parse("turbo"), None);
    assert_eq!(FanMode::Bios.to_display(), "Bios");
    assert_eq!(PerformanceMode::Balanced.to_display(), "balanced");
}

#[test]
fn lowercasing_reaches_non_ascii_names() {
    let names = Some(["ÉCO".to_string(), "balanced".to_string(), "performance".to_string()]);
    assert_eq!(mode_from_profile("éco\n", &names), Some(PerformanceMode::PowerSaver));
    assert_eq!(mode_from_profile("Low-Power", &Some(["low-power".to_string(), "b".to_string(), "c".to_string()])), Some(PerformanceMode::PowerSaver));
}
