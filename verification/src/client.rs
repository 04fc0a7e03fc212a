//! The client side of the daemon's protocol: the commands a client sends
//! and what it makes of the daemon's replies.
use vstd::prelude::*;
use vstd::string::*;

use crate::text::{contains, lowercase, starts_with, str_contains, str_starts_with, to_lowercase, trim, trimmed};
use crate::types::{
    fan_mode_text, performance_mode_text, FanMode, PerformanceMode, SystemState,
};

verus! {

/// Talks to the daemon.
pub struct DaemonClient;

/// Why a request to the daemon did not succeed.
#[derive(Clone, Debug)]
pub enum ClientError {
    /// The daemon answered with an error; the message says what it was.
    Daemon(String),
    /// The daemon's answer was neither `OK:` nor `ERROR:`.
    UnexpectedResponse,
}

pub open spec fn ok_tag() -> Seq<char> {
    seq!['O', 'K', ':']
}

pub open spec fn error_tag() -> Seq<char> {
    seq!['E', 'R', 'R', 'O', 'R', ':']
}

/// What a raw answer from the daemon says: `Ok` with the trimmed text after
/// `OK:`, `Err` with the trimmed text after `ERROR:`, or `None` when it
/// starts with neither.
pub open spec fn daemon_reply(response: Seq<char>) -> Option<Result<Seq<char>, Seq<char>>> {
    if starts_with(response, ok_tag()) {
        Some(Ok(trim(response.skip(3))))
    } else if starts_with(response, error_tag()) {
        Some(Err(trim(response.skip(6))))
    } else {
        None
    }
}

/// The command that asks for a fan mode: `set ` and the mode's display name
/// in lowercase.
pub open spec fn fan_mode_command_text(mode: FanMode) -> Seq<char> {
    seq!['s', 'e', 't', ' '] + lowercase(fan_mode_text(mode))
}

/// The command that asks for a performance mode.
pub open spec fn performance_mode_command_text(mode: PerformanceMode) -> Seq<char> {
    seq!['s', 'e', 't', '_', 'p', 'e', 'r', 'f', 'o', 'r', 'm', 'a', 'n', 'c', 'e', ' ']
        + performance_mode_text(mode)
}

pub open spec fn status_command_text() -> Seq<char> {
    seq!['s', 't', 'a', 't', 'u', 's']
}

pub open spec fn needle_mode_max() -> Seq<char> {
    seq!['M', 'o', 'd', 'e', ':', ' ', 'M', 'a', 'x']
}

pub open spec fn needle_mode_auto() -> Seq<char> {
    seq!['M', 'o', 'd', 'e', ':', ' ', 'A', 'u', 't', 'o']
}

pub open spec fn needle_performance() -> Seq<char> {
    seq![
        'P',
        'e',
        'r',
        'f',
        'o',
        'r',
        'm',
        'a',
        'n',
        'c',
        'e',
        ':',
        ' ',
        'p',
        'e',
        'r',
        'f',
        'o',
        'r',
        'm',
        'a',
        'n',
        'c',
        'e',
    ]
}

pub open spec fn needle_power_saver() -> Seq<char> {
    seq![
        'P',
        'e',
        'r',
        'f',
        'o',
        'r',
        'm',
        'a',
        'n',
        'c',
        'e',
        ':',
        ' ',
        'p',
        'o',
        'w',
        'e',
        'r',
        '-',
        's',
        'a',
        'v',
        'e',
        'r',
    ]
}

/// The fan mode a status line reports.
pub open spec fn status_fan_mode(data: Seq<char>) -> FanMode {
    if contains(data, needle_mode_max()) {
        FanMode::Max
    } else if contains(data, needle_mode_auto()) {
        FanMode::Auto
    } else {
        FanMode::Bios
    }
}

/// The performance mode a status line reports.
pub open spec fn status_performance_mode(data: Seq<char>) -> PerformanceMode {
    if contains(data, needle_performance()) {
        PerformanceMode::Performance
    } else if contains(data, needle_power_saver()) {
        PerformanceMode::PowerSaver
    } else {
        PerformanceMode::Balanced
    }
}

pub open spec fn daemon_error_text(m: Seq<char>) -> Seq<char> {
    "Daemon error: "@ + m
}

pub open spec fn status_error_text(m: Seq<char>) -> Seq<char> {
    "Error getting status: "@ + m
}

pub open spec fn state_error_text(m: Seq<char>) -> Seq<char> {
    "Error getting state: "@ + m
}

/// The outcome of a request that expects no data back.
pub open spec fn ack_outcome(response: Seq<char>, r: Result<(), ClientError>) -> bool {
    match daemon_reply(response) {
        Some(Ok(_)) => r is Ok,
        Some(Err(m)) => r matches Err(ClientError::Daemon(e)) && e@ == daemon_error_text(m),
        None => r matches Err(ClientError::UnexpectedResponse),
    }
}

/// Splits a raw answer into its kind and trimmed text.
fn classify(response: &str) -> (r: Option<Result<String, String>>)
    ensures
        match (r, daemon_reply(response@)) {
            (Some(Ok(s)), Some(Ok(t))) => s@ == t,
            (Some(Err(s)), Some(Err(t))) => s@ == t,
            (None, None) => true,
            _ => false,
        },
{
    proof {
        reveal_strlit("OK:");
        reveal_strlit("ERROR:");
        assert("OK:"@ =~= ok_tag());
        assert("ERROR:"@ =~= error_tag());
    }
    let n = response.unicode_len();
    if str_starts_with(response, "OK:") {
        let rest = response.substring_char(3, n);
        assert(rest@ =~= response@.skip(3));
        Some(Ok(trimmed(rest)))
    } else if str_starts_with(response, "ERROR:") {
        let rest = response.substring_char(6, n);
        assert(rest@ =~= response@.skip(6));
        Some(Err(trimmed(rest)))
    } else {
        None
    }
}

/// `prefix` followed by `message`.
fn prefixed(prefix: &str, message: &String) -> (r: String)
    ensures
        r@ == prefix@ + message@,
{
    let mut s = String::from_str(prefix);
    s.append(message.as_str());
    s
}

impl DaemonClient {
    pub fn new() -> (r: DaemonClient)
        ensures
            r == DaemonClient,
    {
        DaemonClient
    }

    /// The command asking the daemon for a fan mode, e.g. `set max`.
    pub fn fan_mode_command(&self, mode: FanMode) -> (r: String)
        ensures
            r@ == fan_mode_command_text(mode),
    {
        proof {
            reveal_strlit("set ");
            assert("set "@ =~= seq!['s', 'e', 't', ' ']);
        }
        let name = to_lowercase(mode.as_str());
        assert(name@ == lowercase(fan_mode_text(mode)));
        prefixed("set ", &name)
    }

    /// The command asking the daemon for a performance mode, e.g.
    /// `set_performance balanced`.
    pub fn performance_mode_command(&self, mode: PerformanceMode) -> (r: String)
        ensures
            r@ == performance_mode_command_text(mode),
    {
        proof {
            reveal_strlit("set_performance ");
            assert("set_performance "@ =~= seq![
                's',
                'e',
                't',
                '_',
                'p',
                'e',
                'r',
                'f',
                'o',
                'r',
                'm',
                'a',
                'n',
                'c',
                'e',
                ' ',
            ]);
        }
        prefixed("set_performance ", &mode.to_display())
    }

    /// The command asking the daemon for its status.
    pub fn status_command(&self) -> (r: String)
        ensures
            r@ == status_command_text(),
    {
        proof {
            reveal_strlit("status");
            assert("status"@ =~= status_command_text());
        }
        String::from_str("status")
    }

    /// The outcome of a fan mode request, from the daemon's answer.
    pub fn set_fan_mode(&self, response: &str) -> (r: Result<(), ClientError>)
        ensures
            ack_outcome(response@, r),
    {
        match classify(response) {
            Some(Ok(_)) => Ok(()),
            Some(Err(m)) => Err(ClientError::Daemon(prefixed("Daemon error: ", &m))),
            None => Err(ClientError::UnexpectedResponse),
        }
    }

    /// The outcome of a performance mode request, from the daemon's answer.
    pub fn set_performance_mode(&self, response: &str) -> (r: Result<(), ClientError>)
        ensures
            ack_outcome(response@, r),
    {
        match classify(response) {
            Some(Ok(_)) => Ok(()),
            Some(Err(m)) => Err(ClientError::Daemon(prefixed("Daemon error: ", &m))),
            None => Err(ClientError::UnexpectedResponse),
        }
    }

    /// The status line, from the daemon's answer to `status`.
    pub fn get_status(&self, response: &str) -> (r: Result<String, ClientError>)
        ensures
            match daemon_reply(response@) {
                Some(Ok(s)) => r matches Ok(t) && t@ == s,
                Some(Err(m)) => r matches Err(ClientError::Daemon(e)) && e@ == status_error_text(m),
                None => r matches Err(ClientError::UnexpectedResponse),
            },
    {
        match classify(response) {
            Some(Ok(s)) => Ok(s),
            Some(Err(m)) => Err(ClientError::Daemon(prefixed("Error getting status: ", &m))),
            None => Err(ClientError::UnexpectedResponse),
        }
    }

    /// The daemon's state, from its answer to `status`. The temperature is
    /// not read from the answer.
    pub fn get_current_state(&self, response: &str) -> (r: Result<SystemState, ClientError>)
        ensures
            match daemon_reply(response@) {
                Some(Ok(s)) => r matches Ok(st) && st.fan_mode == status_fan_mode(s)
                    && st.performance_mode == status_performance_mode(s) && st.temperature is None
                    && st.error_message is None,
                Some(Err(m)) => r matches Err(ClientError::Daemon(e)) && e@ == state_error_text(m),
                None => r matches Err(ClientError::UnexpectedResponse),
            },
    {
        match classify(response) {
            Some(Ok(data)) => {
                proof {
                    reveal_strlit("Mode: Max");
                    reveal_strlit("Mode: Auto");
                    reveal_strlit("Performance: performance");
                    reveal_strlit("Performance: power-saver");
                    assert("Mode: Max"@ =~= needle_mode_max());
                    assert("Mode: Auto"@ =~= needle_mode_auto());
                    assert("Performance: performance"@ =~= needle_performance());
                    assert("Performance: power-saver"@ =~= needle_power_saver());
                }
                let d = data.as_str();
                let fan_mode = if str_contains(d, "Mode: Max") {
                    FanMode::Max
                } else if str_contains(d, "Mode: Auto") {
                    FanMode::Auto
                } else {
                    FanMode::Bios
                };
                let performance_mode = if str_contains(d, "Performance: performance") {
                    PerformanceMode::Performance
                } else if str_contains(d, "Performance: power-saver") {
                    PerformanceMode::PowerSaver
                } else {
                    PerformanceMode::Balanced
                };
                Ok(SystemState { fan_mode, performance_mode, temperature: None, error_message: None })
            },
            Some(Err(m)) => Err(ClientError::Daemon(prefixed("Error getting state: ", &m))),
            None => Err(ClientError::UnexpectedResponse),
        }
    }

    /// Whether the daemon answers `status` without error; `response` is
    /// `None` when it could not be reached.
    pub fn is_daemon_running(&self, response: Option<&str>) -> (r: bool)
        ensures
            r == (response matches Some(s) && daemon_reply(s@) matches Some(Ok(_))),
    {
        match response {
            Some(s) => self.get_status(s).is_ok(),
            None => false,
        }
    }
}

impl Default for DaemonClient {
    fn default() -> (r: DaemonClient)
        ensures
            r == DaemonClient,
    {
        DaemonClient::new()
    }
}

} // verus!
