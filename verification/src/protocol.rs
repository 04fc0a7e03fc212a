//! The text exchanged between clients and the daemon over its socket: the
//! commands, the daemon's handling of them, and its replies.
use vstd::prelude::*;
use vstd::string::*;

use crate::daemon::{
    after_fan_mode_set, fan_target, profile_for, profile_mode, set_fan_mode, set_performance_mode,
    mode_from_profile, DaemonState,
};
use crate::text::{chars_of, int_decimal, push_int_decimal, split_whitespace, str_eq, word_spans};
use crate::types::{
    fan_mode_text, hardware_mode_text, parse_fan_mode, parse_performance_mode,
    performance_mode_text, FanMode, HardwareFanMode, PerformanceMode,
};

verus! {

/// A request a client can make of the daemon.
#[derive(Clone, Copy, Debug, PartialEq, Eq, Structural)]
pub enum Command {
    /// `set <mode>`
    SetFanMode(FanMode),
    /// `set_performance <mode>`
    SetPerformanceMode(PerformanceMode),
    /// `status`
    Status,
}

pub open spec fn word_set() -> Seq<char> {
    seq!['s', 'e', 't']
}

pub open spec fn word_set_performance() -> Seq<char> {
    seq!['s', 'e', 't', '_', 'p', 'e', 'r', 'f', 'o', 'r', 'm', 'a', 'n', 'c', 'e']
}

pub open spec fn word_status() -> Seq<char> {
    seq!['s', 't', 'a', 't', 'u', 's']
}

pub open spec fn invalid_fan_mode_text() -> Seq<char> {
    "Invalid fan mode"@
}

pub open spec fn invalid_performance_mode_text() -> Seq<char> {
    "Invalid performance mode"@
}

pub open spec fn invalid_command_text() -> Seq<char> {
    "Invalid command. Use 'set <mode>', 'set_performance <mode>', or 'status'"@
}

/// The command a request names, read word by word, or the error the daemon
/// answers with.
pub open spec fn command_of(request: Seq<char>) -> Result<Command, Seq<char>> {
    let w = split_whitespace(request);
    if w.len() == 2 && w[0] == word_set() {
        match parse_fan_mode(w[1]) {
            Some(m) => Ok(Command::SetFanMode(m)),
            None => Err(invalid_fan_mode_text()),
        }
    } else if w.len() == 2 && w[0] == word_set_performance() {
        match parse_performance_mode(w[1]) {
            Some(m) => Ok(Command::SetPerformanceMode(m)),
            None => Err(invalid_performance_mode_text()),
        }
    } else if w.len() == 1 && w[0] == word_status() {
        Ok(Command::Status)
    } else {
        Err(invalid_command_text())
    }
}

/// Reads the command in a request.
pub fn parse_command(request: &str) -> (r: Result<Command, String>)
    ensures
        match (r, command_of(request@)) {
            (Ok(c), Ok(d)) => c == d,
            (Err(e), Err(f)) => e@ == f,
            _ => false,
        },
{
    let v = chars_of(request);
    let spans = word_spans(&v);
    let ghost w = split_whitespace(request@);
    proof {
        reveal_strlit("set");
        reveal_strlit("set_performance");
        reveal_strlit("status");
        assert("set"@ =~= word_set());
        assert("set_performance"@ =~= word_set_performance());
        assert("status"@ =~= word_status());
    }
    if spans.len() == 2 {
        let (a0, b0) = spans[0];
        let (a1, b1) = spans[1];
        let first = request.substring_char(a0, b0);
        let second = request.substring_char(a1, b1);
        assert(first@ == w[0]);
        assert(second@ == w[1]);
        if str_eq(first, "set") {
            match FanMode::parse(second) {
                Some(m) => return Ok(Command::SetFanMode(m)),
                None => return Err(String::from_str("Invalid fan mode")),
            }
        } else if str_eq(first, "set_performance") {
            match PerformanceMode::parse(second) {
                Some(m) => return Ok(Command::SetPerformanceMode(m)),
                None => return Err(String::from_str("Invalid performance mode")),
            }
        }
    } else if spans.len() == 1 {
        let (a0, b0) = spans[0];
        let first = request.substring_char(a0, b0);
        assert(first@ == w[0]);
        if str_eq(first, "status") {
            return Ok(Command::Status);
        }
    }
    Err(
        String::from_str(
            "Invalid command. Use 'set <mode>', 'set_performance <mode>', or 'status'",
        ),
    )
}

/// The integer part of `v / d`, rounded toward zero as Rust's `/` does.
pub open spec fn div_toward_zero(v: int, d: int) -> int {
    if v >= 0 {
        v / d
    } else {
        -((-v) / d)
    }
}

pub open spec fn label_mode() -> Seq<char> {
    seq!['M', 'o', 'd', 'e', ':', ' ']
}

pub open spec fn label_actual() -> Seq<char> {
    seq![',', ' ', 'A', 'c', 't', 'u', 'a', 'l', ':', ' ']
}

pub open spec fn label_performance() -> Seq<char> {
    seq![',', ' ', 'P', 'e', 'r', 'f', 'o', 'r', 'm', 'a', 'n', 'c', 'e', ':', ' ']
}

pub open spec fn label_temp() -> Seq<char> {
    seq![',', ' ', 'T', 'e', 'm', 'p', ':', ' ']
}

pub open spec fn unknown_text() -> Seq<char> {
    seq!['U', 'n', 'k', 'n', 'o', 'w', 'n']
}

pub open spec fn degrees_text() -> Seq<char> {
    seq!['°', 'C']
}

/// A temperature in millidegrees, as the status shows it: whole degrees
/// Celsius, or `Unknown`.
pub open spec fn temp_text(temp: Option<i32>) -> Seq<char> {
    match temp {
        Some(t) => int_decimal(div_toward_zero(t as int, 1000)) + degrees_text(),
        None => unknown_text(),
    }
}

/// The status line:
/// `Mode: <user mode>, Actual: <hardware mode>, Performance: <mode>, Temp: <temperature>`.
pub open spec fn status_text(
    user: FanMode,
    actual: HardwareFanMode,
    performance: PerformanceMode,
    temp: Option<i32>,
) -> Seq<char> {
    label_mode() + fan_mode_text(user) + label_actual() + hardware_mode_text(actual)
        + label_performance() + performance_mode_text(performance) + label_temp() + temp_text(
        temp,
    )
}

/// The performance mode the status reports: the one the platform profile
/// file names, else the one last asked for.
pub open spec fn shown_performance(s: DaemonState, profile: Option<Seq<char>>) -> PerformanceMode {
    match profile {
        Some(p) => match profile_mode(p, s.performance_profile_choices) {
            Some(m) => m,
            None => s.performance_mode,
        },
        None => s.performance_mode,
    }
}

/// The daemon's answer to `status`, given the platform profile file's
/// contents (`None` when it could not be read).
pub fn status_reply(state: &DaemonState, profile: Option<&str>) -> (r: Result<String, String>)
    ensures
        r matches Ok(s) && s@ == status_text(
            state.user_mode,
            state.actual_mode,
            shown_performance(*state, match profile {
                Some(p) => Some(p@),
                None => None,
            }),
            state.current_temp,
        ),
{
    let performance = match profile {
        Some(p) => match mode_from_profile(p, &state.performance_profile_choices) {
            Some(m) => m,
            None => state.performance_mode,
        },
        None => state.performance_mode,
    };
    proof {
        reveal_strlit("Mode: ");
        reveal_strlit(", Actual: ");
        reveal_strlit(", Performance: ");
        reveal_strlit(", Temp: ");
        reveal_strlit("Unknown");
        reveal_strlit("°C");
        assert("Mode: "@ =~= label_mode());
        assert(", Actual: "@ =~= label_actual());
        assert(", Performance: "@ =~= label_performance());
        assert(", Temp: "@ =~= label_temp());
        assert("Unknown"@ =~= unknown_text());
        assert("°C"@ =~= degrees_text());
    }
    let mut s = String::new();
    s.append("Mode: ");
    s.append(state.user_mode.as_str());
    s.append(", Actual: ");
    s.append(state.actual_mode.as_str());
    s.append(", Performance: ");
    s.append(performance.as_str());
    s.append(", Temp: ");
    let ghost before_temp = s@;
    match state.current_temp {
        Some(t) => {
            let whole: i64 = if t >= 0 {
                (t / 1000) as i64
            } else {
                0 - ((0 - (t as i64)) / 1000)
            };
            push_int_decimal(&mut s, whole);
            s.append("°C");
        },
        None => {
            s.append("Unknown");
        },
    }
    assert(s@ =~= status_text(
        state.user_mode,
        state.actual_mode,
        performance,
        state.current_temp,
    ));
    Ok(s)
}

/// What the daemon does next with a request.
#[derive(Debug)]
pub enum RequestAction {
    /// Send this reply.
    Respond(Result<String, String>),
    /// Read the temperature, then apply the fan mode with it
    /// (`set_fan_mode`), write the hardware mode, and reply with `fan_mode_reply`.
    ReadTemperature(FanMode),
    /// The state already holds the fan mode: write the hardware mode, then
    /// reply with `fan_mode_reply`.
    WriteFanMode(FanMode, HardwareFanMode),
    /// The state already holds the performance mode: write the profile,
    /// then reply with `performance_mode_reply`.
    WritePerformanceProfile(PerformanceMode, String),
    /// Read the platform profile file, then reply with `status_reply`.
    ReadPerformanceProfile,
}

/// The daemon's handling of a request: the state it leaves and what it
/// does next.
pub open spec fn request_effect(s: DaemonState, request: Seq<char>, now: u64) -> DaemonState {
    match command_of(request) {
        Ok(Command::SetFanMode(m)) => if m == FanMode::Auto {
            s
        } else {
            after_fan_mode_set(s, m, None, now)
        },
        Ok(Command::SetPerformanceMode(m)) => DaemonState { performance_mode: m, ..s },
        _ => s,
    }
}

/// Whether `a` is the next step the daemon takes for `request` in state `s`.
pub open spec fn request_action_is(
    s: DaemonState,
    request: Seq<char>,
    a: RequestAction,
) -> bool {
    match command_of(request) {
        Err(e) => a matches RequestAction::Respond(Err(f)) && f@ == e,
        Ok(Command::SetFanMode(m)) => if m == FanMode::Auto {
            a == RequestAction::ReadTemperature(m)
        } else {
            a == RequestAction::WriteFanMode(m, fan_target(s.config, m, None))
        },
        Ok(Command::SetPerformanceMode(m)) => a matches RequestAction::WritePerformanceProfile(
            n,
            p,
        ) && n == m && p@ == profile_for(m, s.performance_profile_choices),
        Ok(Command::Status) => a == RequestAction::ReadPerformanceProfile,
    }
}

/// Starts handling a client's request at time `now`.
pub fn handle_client_request(state: &mut DaemonState, request: &str, now: u64) -> (r: RequestAction)
    requires
        old(state).config.high_threshold_in_range(),
    ensures
        *final(state) == request_effect(*old(state), request@, now),
        request_action_is(*old(state), request@, r),
{
    match parse_command(request) {
        Err(e) => RequestAction::Respond(Err(e)),
        Ok(Command::SetFanMode(m)) => {
            if m == FanMode::Auto {
                RequestAction::ReadTemperature(m)
            } else {
                let hw = set_fan_mode(state, m, None, now);
                RequestAction::WriteFanMode(m, hw)
            }
        },
        Ok(Command::SetPerformanceMode(m)) => {
            let value = set_performance_mode(state, m);
            RequestAction::WritePerformanceProfile(m, value)
        },
        Ok(Command::Status) => RequestAction::ReadPerformanceProfile,
    }
}

pub open spec fn fan_mode_set_text(mode: FanMode) -> Seq<char> {
    "Fan mode set to: "@ + fan_mode_text(mode)
}

pub open spec fn fan_write_failed_text(e: Seq<char>) -> Seq<char> {
    "Failed to write fan mode: "@ + e
}

/// The reply to a fan mode request once the hardware write is done.
pub fn fan_mode_reply(mode: FanMode, written: Result<(), String>) -> (r: Result<String, String>)
    ensures
        match (written, r) {
            (Ok(_), Ok(s)) => s@ == fan_mode_set_text(mode),
            (Err(e), Err(s)) => s@ == fan_write_failed_text(e@),
            _ => false,
        },
{
    match written {
        Ok(()) => {
            let mut s = String::from_str("Fan mode set to: ");
            s.append(mode.as_str());
            Ok(s)
        },
        Err(e) => {
            let mut s = String::from_str("Failed to write fan mode: ");
            s.append(e.as_str());
            Err(s)
        },
    }
}

pub open spec fn performance_mode_set_text(mode: PerformanceMode) -> Seq<char> {
    "Performance mode set to: "@ + performance_mode_text(mode)
}

pub open spec fn performance_write_failed_text(e: Seq<char>) -> Seq<char> {
    "Failed to write performance mode: "@ + e
}

/// The reply to a performance mode request once the profile is written.
pub fn performance_mode_reply(mode: PerformanceMode, written: Result<(), String>) -> (r: Result<
    String,
    String,
>)
    ensures
        match (written, r) {
            (Ok(_), Ok(s)) => s@ == performance_mode_set_text(mode),
            (Err(e), Err(s)) => s@ == performance_write_failed_text(e@),
            _ => false,
        },
{
    match written {
        Ok(()) => {
            let mut s = String::from_str("Performance mode set to: ");
            s.append(mode.as_str());
            Ok(s)
        },
        Err(e) => {
            let mut s = String::from_str("Failed to write performance mode: ");
            s.append(e.as_str());
            Err(s)
        },
    }
}

pub open spec fn ok_prefix() -> Seq<char> {
    seq!['O', 'K', ':', ' ']
}

pub open spec fn error_prefix() -> Seq<char> {
    seq!['E', 'R', 'R', 'O', 'R', ':', ' ']
}

/// The bytes sent back on the socket for a reply.
pub open spec fn framed(reply: Result<Seq<char>, Seq<char>>) -> Seq<char> {
    match reply {
        Ok(s) => ok_prefix() + s + seq!['\n'],
        Err(e) => error_prefix() + e + seq!['\n'],
    }
}

/// `OK: <reply>` or `ERROR: <reply>`, and a newline.
pub fn frame_response(reply: &Result<String, String>) -> (r: String)
    ensures
        r@ == framed(
            match reply {
                Ok(s) => Ok(s@),
                Err(e) => Err(e@),
            },
        ),
{
    proof {
        reveal_strlit("OK: ");
        reveal_strlit("ERROR: ");
        reveal_strlit("\n");
        assert("OK: "@ =~= ok_prefix());
        assert("ERROR: "@ =~= error_prefix());
    }
    match reply {
        Ok(s) => {
            let mut r = String::from_str("OK: ");
            r.append(s.as_str());
            r.append("\n");
            assert(r@ =~= ok_prefix() + s@ + seq!['\n']);
            r
        },
        Err(e) => {
            let mut r = String::from_str("ERROR: ");
            r.append(e.as_str());
            r.append("\n");
            assert(r@ =~= error_prefix() + e@ + seq!['\n']);
            r
        },
    }
}

} // verus!
