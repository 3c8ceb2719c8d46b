//! The poll loop's decisions: what each tick does, what each record says,
//! and when the process ends.
//!
//! The loop itself alternates outside work (a signal check, a device read, a
//! sleep) with decisions. The decisions live here, as a two-state machine
//! from observation to next state and action; the surrounding program
//! performs each action and hands the next observation back.

use vstd::prelude::*;
use vstd::string::StringExecFns;

use crate::sensor::SensorError;
use crate::sensor::message_of;

verus! {

/// Exit status of a graceful stop.
pub const EXIT_SUCCESS: i32 = 0;

/// Exit status reserved for an invalid configuration found at startup.
pub const EXIT_CONFIG_ERROR: i32 = 1;

/// Exit status reserved for a failed device read: the device is unavailable
/// and no further tick runs.
pub const EXIT_SENSOR_FAILURE: i32 = 66;

/// A configuration the loop must not start with.
#[derive(Clone, Copy, Debug, PartialEq, Eq, Structural)]
pub enum ConfigError {
    /// The poll interval is zero.
    ZeroInterval,
}

/// Validates the configured poll interval, in seconds, before the loop
/// starts: zero is a fatal startup error, anything else passes through
/// unchanged.
pub fn validate_interval(interval_secs: u64) -> (r: Result<u64, ConfigError>)
    ensures
        interval_secs > 0 ==> r == Ok::<u64, ConfigError>(interval_secs),
        interval_secs == 0 ==> r == Err::<u64, ConfigError>(ConfigError::ZeroInterval),
{
    if interval_secs == 0 {
        Err(ConfigError::ZeroInterval)
    } else {
        Ok(interval_secs)
    }
}

/// The hexadecimal digit for a value below sixteen, upper case.
pub open spec fn hex_digit_char(d: int) -> char {
    if d == 0 { '0' } else if d == 1 { '1' } else if d == 2 { '2' } else if d == 3 { '3' }
    else if d == 4 { '4' } else if d == 5 { '5' } else if d == 6 { '6' } else if d == 7 { '7' }
    else if d == 8 { '8' } else if d == 9 { '9' } else if d == 10 { 'A' } else if d == 11 { 'B' }
    else if d == 12 { 'C' } else if d == 13 { 'D' } else if d == 14 { 'E' } else { 'F' }
}

/// A sample rendered as eight upper-case hexadecimal digits, zero padded,
/// most significant digit first.
pub open spec fn hex8_of(v: u32) -> Seq<char> {
    seq![
        hex_digit_char(((v >> 28) & 0xF) as int),
        hex_digit_char(((v >> 24) & 0xF) as int),
        hex_digit_char(((v >> 20) & 0xF) as int),
        hex_digit_char(((v >> 16) & 0xF) as int),
        hex_digit_char(((v >> 12) & 0xF) as int),
        hex_digit_char(((v >> 8) & 0xF) as int),
        hex_digit_char(((v >> 4) & 0xF) as int),
        hex_digit_char((v & 0xF) as int),
    ]
}

/// The one-character string for a hexadecimal digit.
fn hex_digit_str(d: u32) -> (r: &'static str)
    requires
        d < 16,
    ensures
        r@ == seq![hex_digit_char(d as int)],
{
    if d == 0 { let r = "0"; proof { reveal_strlit("0"); assert(r@ =~= seq!['0']); } r }
    else if d == 1 { let r = "1"; proof { reveal_strlit("1"); assert(r@ =~= seq!['1']); } r }
    else if d == 2 { let r = "2"; proof { reveal_strlit("2"); assert(r@ =~= seq!['2']); } r }
    else if d == 3 { let r = "3"; proof { reveal_strlit("3"); assert(r@ =~= seq!['3']); } r }
    else if d == 4 { let r = "4"; proof { reveal_strlit("4"); assert(r@ =~= seq!['4']); } r }
    else if d == 5 { let r = "5"; proof { reveal_strlit("5"); assert(r@ =~= seq!['5']); } r }
    else if d == 6 { let r = "6"; proof { reveal_strlit("6"); assert(r@ =~= seq!['6']); } r }
    else if d == 7 { let r = "7"; proof { reveal_strlit("7"); assert(r@ =~= seq!['7']); } r }
    else if d == 8 { let r = "8"; proof { reveal_strlit("8"); assert(r@ =~= seq!['8']); } r }
    else if d == 9 { let r = "9"; proof { reveal_strlit("9"); assert(r@ =~= seq!['9']); } r }
    else if d == 10 { let r = "A"; proof { reveal_strlit("A"); assert(r@ =~= seq!['A']); } r }
    else if d == 11 { let r = "B"; proof { reveal_strlit("B"); assert(r@ =~= seq!['B']); } r }
    else if d == 12 { let r = "C"; proof { reveal_strlit("C"); assert(r@ =~= seq!['C']); } r }
    else if d == 13 { let r = "D"; proof { reveal_strlit("D"); assert(r@ =~= seq!['D']); } r }
    else if d == 14 { let r = "E"; proof { reveal_strlit("E"); assert(r@ =~= seq!['E']); } r }
    else { let r = "F"; proof { reveal_strlit("F"); assert(r@ =~= seq!['F']); } r }
}

/// Renders a sample as eight upper-case, zero-padded hexadecimal digits.
pub fn format_hex8(v: u32) -> (s: String)
    ensures
        s@ == hex8_of(v),
        s@.len() == 8,
{
    proof {
        assert((v >> 28) & 0xF < 16 && (v >> 24) & 0xF < 16 && (v >> 20) & 0xF < 16
            && (v >> 16) & 0xF < 16 && (v >> 12) & 0xF < 16 && (v >> 8) & 0xF < 16
            && (v >> 4) & 0xF < 16 && v & 0xF < 16) by (bit_vector);
    }
    let mut s = String::new();
    s.append(hex_digit_str((v >> 28) & 0xF));
    s.append(hex_digit_str((v >> 24) & 0xF));
    s.append(hex_digit_str((v >> 20) & 0xF));
    s.append(hex_digit_str((v >> 16) & 0xF));
    s.append(hex_digit_str((v >> 12) & 0xF));
    s.append(hex_digit_str((v >> 8) & 0xF));
    s.append(hex_digit_str((v >> 4) & 0xF));
    s.append(hex_digit_str(v & 0xF));
    proof {
        assert(s@ =~= hex8_of(v));
    }
    s
}

/// The record written for a successful read: the timestamp, a separator, and
/// the sample in hexadecimal.
pub open spec fn success_line_of(ts: Seq<char>, v: u32) -> Seq<char> {
    ts + " | 0x"@ + hex8_of(v)
}

/// The record written for a failed read: the timestamp, a separator, and the
/// failure's cause.
pub open spec fn failure_line_of(ts: Seq<char>, e: SensorError) -> Seq<char> {
    ts + " | Sensor error: "@ + message_of(e)
}

/// The record written once when the loop stops on request.
pub open spec fn stopping_line() -> Seq<char> {
    "Received SIGTERM, exiting gracefully."@
}

/// Renders the record for a successful read.
pub fn format_success_line(timestamp: &str, value: u32) -> (s: String)
    ensures
        s@ == success_line_of(timestamp@, value),
{
    let mut s = timestamp.to_owned();
    s.append(" | 0x");
    let hex = format_hex8(value);
    s.append(hex.as_str());
    s
}

/// Renders the record for a failed read.
pub fn format_failure_line(timestamp: &str, error: &SensorError) -> (s: String)
    ensures
        s@ == failure_line_of(timestamp@, *error),
{
    let mut s = timestamp.to_owned();
    s.append(" | Sensor error: ");
    let cause = error.message();
    s.append(cause.as_str());
    s
}

/// Whether a character is a decimal digit, as the timestamp rendering
/// writes them.
pub open spec fn is_decimal_digit(c: char) -> bool {
    '0' <= c && c <= '9'
}

/// The shape every rendered timestamp has: an RFC 3339 date and time with
/// nanosecond precision and the 'Z' designator. Counting from the end: the
/// final 'Z', nine fractional digits, the '.', the colon-separated time, the
/// 'T', and the dash-separated date with a year of at least four characters.
pub open spec fn is_rfc3339_nanos_utc(s: Seq<char>) -> bool {
    &&& s.len() >= 30
    &&& s[s.len() - 1] == 'Z'
    &&& forall|i: int| s.len() - 10 <= i < s.len() - 1 ==> is_decimal_digit(#[trigger] s[i])
    &&& s[s.len() - 11] == '.'
    &&& s[s.len() - 14] == ':'
    &&& s[s.len() - 17] == ':'
    &&& s[s.len() - 20] == 'T'
    &&& s[s.len() - 23] == '-'
    &&& s[s.len() - 26] == '-'
}

/// Relies on chrono::DateTime::from_timestamp and
/// chrono::DateTime::to_rfc3339_opts, fed from std::time::SystemTime::now:
/// the current wall-clock instant rendered as an RFC 3339 timestamp with
/// nanosecond precision, whose shape the rendering fixes — with an offset of
/// zero it always ends in 'Z' after exactly nine fractional digits. A clock
/// before the Unix epoch or outside the representable range is clamped to
/// the epoch rather than aborting. The instant depends on the clock, so
/// nothing relates two calls.
#[verifier::external_body]
fn now_rfc3339_nanos() -> (s: String)
    ensures
        is_rfc3339_nanos_utc(s@),
{
    let since_epoch = std::time::SystemTime::now()
        .duration_since(std::time::UNIX_EPOCH)
        .unwrap_or(std::time::Duration::ZERO);
    let instant = chrono::DateTime::from_timestamp(
        i64::try_from(since_epoch.as_secs()).unwrap_or(0),
        since_epoch.subsec_nanos(),
    )
        .unwrap_or(chrono::DateTime::UNIX_EPOCH);
    instant.to_rfc3339_opts(chrono::SecondsFormat::Nanos, true)
}

/// Captures the current wall-clock time as the timestamp a record carries.
pub fn current_timestamp() -> (s: String)
    ensures
        is_rfc3339_nanos_utc(s@),
{
    now_rfc3339_nanos()
}

/// The two states of the loop. `Stopped` is terminal: no tick runs from it.
#[derive(Clone, Copy, Debug, PartialEq, Eq, Structural)]
pub enum LoopState {
    /// The loop keeps ticking.
    Running,
    /// The loop has ended, by stop request or by sensor failure.
    Stopped,
}

/// What a tick does first, decided from the stop condition alone.
pub enum StartAction {
    /// Write this final record, best effort, then end with `EXIT_SUCCESS`.
    /// No read is attempted.
    Shutdown { line: String },
    /// No stop was requested: read one sample from the device.
    Read,
}

/// What a tick does with the outcome of its one read.
pub enum ReadAction {
    /// Append this record, best effort, then sleep and go to the next tick.
    Append { line: String },
    /// Append this record and report this cause, both best effort, then end
    /// with `EXIT_SENSOR_FAILURE`. No further tick runs.
    Fail { line: String, cause: String },
}

/// The poll loop's state machine. Each tick asks it what to do: first
/// `begin_tick` with the observed stop condition, then, if it asked for a
/// read, `complete_read` with the outcome. Both steps demand a running loop,
/// and nothing brings a stopped loop back: `Stopped` is terminal.
pub struct PollLoop {
    /// Whether the loop still ticks.
    pub state: LoopState,
}

impl PollLoop {
    /// A loop that has not yet ticked.
    pub fn new() -> (p: PollLoop)
        ensures
            p.state == LoopState::Running,
    {
        PollLoop { state: LoopState::Running }
    }

    /// Whether the loop may tick again.
    pub fn is_running(&self) -> (b: bool)
        ensures
            b == (self.state == LoopState::Running),
    {
        match self.state {
            LoopState::Running => true,
            LoopState::Stopped => false,
        }
    }

    /// Starts a tick. A stop request outranks the scheduled read: it is
    /// observed before any input/output, so a stopping tick attempts no
    /// read and the loop ends gracefully.
    pub fn begin_tick(&mut self, stop_requested: bool) -> (a: StartAction)
        requires
            old(self).state == LoopState::Running,
        ensures
            stop_requested ==> final(self).state == LoopState::Stopped
                && (a matches StartAction::Shutdown { line } && line@ == stopping_line()),
            !stop_requested ==> final(self).state == LoopState::Running
                && (a matches StartAction::Read),
    {
        if stop_requested {
            self.state = LoopState::Stopped;
            StartAction::Shutdown {
                line: String::from_str("Received SIGTERM, exiting gracefully."),
            }
        } else {
            StartAction::Read
        }
    }

    /// Finishes a tick with the outcome of its read. A sample becomes one
    /// success record and the loop keeps running; a failure becomes one
    /// failure record carrying the timestamp and the cause, and the loop
    /// ends: a sensor failure is unrecoverable and no retry is made.
    pub fn complete_read(&mut self, timestamp: &str, reading: &Result<u32, SensorError>) -> (a:
        ReadAction)
        requires
            old(self).state == LoopState::Running,
        ensures
            *reading matches Ok(v) ==> final(self).state == LoopState::Running
                && (a matches ReadAction::Append { line } && line@ == success_line_of(
                timestamp@,
                v,
            )),
            *reading matches Err(e) ==> final(self).state == LoopState::Stopped
                && (a matches ReadAction::Fail { line, cause } && line@ == failure_line_of(
                timestamp@,
                e,
            ) && cause@ == message_of(e)),
    {
        match reading {
            Ok(value) => ReadAction::Append { line: format_success_line(timestamp, *value) },
            Err(error) => {
                self.state = LoopState::Stopped;
                ReadAction::Fail {
                    line: format_failure_line(timestamp, error),
                    cause: error.message(),
                }
            },
        }
    }
}

} // verus!
