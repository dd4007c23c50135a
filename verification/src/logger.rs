//! The log: what each entry says in the log file and on the terminal, and
//! the name an old log file is kept under.

use vstd::prelude::*;

verus! {

/// How serious a log entry is.
#[derive(Debug, Clone, Copy, PartialEq, Eq, Structural)]
pub enum LogType {
    Info,
    Warning,
    Error,
}

/// The label an entry of this kind carries.
pub open spec fn label(log_type: LogType) -> Seq<char> {
    match log_type {
        LogType::Info => "INFO"@,
        LogType::Warning => "WARNING"@,
        LogType::Error => "ERROR"@,
    }
}

/// The line written to the log file: the time stamp, the label in
/// brackets, the message and a line break.
pub open spec fn entry_text(stamp: Seq<char>, log_type: LogType, message: Seq<char>) -> Seq<char> {
    stamp + " ["@ + label(log_type) + "] "@ + message + "\n"@
}

/// What the terminal shows for a line: warnings in yellow, errors in red,
/// information as it is.
pub open spec fn console_text(log_type: LogType, line: Seq<char>) -> Seq<char> {
    match log_type {
        LogType::Info => line,
        LogType::Warning => "\x1b[33m"@ + line + "\x1b[0m"@,
        LogType::Error => "\x1b[31m"@ + line + "\x1b[0m"@,
    }
}

/// A log line holds the stamp, the label in brackets and the whole message,
/// unchanged, and ends the line.
pub proof fn lemma_entry_holds_message(stamp: Seq<char>, log_type: LogType, message: Seq<char>)
    ensures
        ({
            let line = entry_text(stamp, log_type, message);
            let n = stamp.len() as int;
            let l = label(log_type).len() as int;
            let k = n + l + 4;
            &&& line.len() == k + message.len() + 1
            &&& line.subrange(0, n) == stamp
            &&& line.subrange(n + 2, n + 2 + l) == label(log_type)
            &&& line.subrange(k, k + message.len() as int) == message
            &&& line.last() == '\n'
        }),
{
    reveal_strlit(" [");
    reveal_strlit("] ");
    reveal_strlit("\n");
    let line = entry_text(stamp, log_type, message);
    let n = stamp.len() as int;
    let l = label(log_type).len() as int;
    let k = n + l + 4;
    assert(line.subrange(0, n) =~= stamp);
    assert(line.subrange(n + 2, n + 2 + l) =~= label(log_type));
    assert(line.subrange(k, k + message.len() as int) =~= message);
}

/// The labels: `INFO`, `WARNING`, `ERROR`.
pub proof fn lemma_labels()
    ensures
        label(LogType::Info) =~= seq!['I', 'N', 'F', 'O'],
        label(LogType::Warning) =~= seq!['W', 'A', 'R', 'N', 'I', 'N', 'G'],
        label(LogType::Error) =~= seq!['E', 'R', 'R', 'O', 'R'],
{
    reveal_strlit("INFO");
    reveal_strlit("WARNING");
    reveal_strlit("ERROR");
}

/// The terminal shows the whole line: information as it is, warnings and
/// errors wrapped in a colour code and a reset.
pub proof fn lemma_console_holds_line(log_type: LogType, line: Seq<char>)
    ensures
        ({
            let c = console_text(log_type, line);
            &&& log_type == LogType::Info ==> c == line
            &&& log_type != LogType::Info ==> {
                &&& c.len() == line.len() + 9
                &&& c.subrange(5, 5 + line.len() as int) == line
            }
        }),
{
    reveal_strlit("\x1b[33m");
    reveal_strlit("\x1b[31m");
    reveal_strlit("\x1b[0m");
    let c = console_text(log_type, line);
    if log_type != LogType::Info {
        assert(c.subrange(5, 5 + line.len() as int) =~= line);
    }
}

/// A formatted entry: the text for the log file and for the terminal.
pub struct LogEntry {
    pub file_text: String,
    pub console_text: String,
}

/// The entry of kind `log_type` for `message`, stamped with `stamp`.
pub fn format_entry(stamp: &str, log_type: LogType, message: &str) -> (entry: LogEntry)
    ensures
        entry.file_text@ == entry_text(stamp@, log_type, message@),
        entry.console_text@ == console_text(log_type, entry.file_text@),
{
    let mut line = String::from_str(stamp);
    line.append(" [");
    match log_type {
        LogType::Info => line.append("INFO"),
        LogType::Warning => line.append("WARNING"),
        LogType::Error => line.append("ERROR"),
    }
    line.append("] ");
    line.append(message);
    line.append("\n");
    let console = match log_type {
        LogType::Info => line.clone(),
        LogType::Warning => {
            let mut c = String::from_str("\x1b[33m");
            c.append(line.as_str());
            c.append("\x1b[0m");
            c
        },
        LogType::Error => {
            let mut c = String::from_str("\x1b[31m");
            c.append(line.as_str());
            c.append("\x1b[0m");
            c
        },
    };
    LogEntry { file_text: line, console_text: console }
}

/// An ASCII decimal digit.
pub open spec fn is_digit(c: char) -> bool {
    '0' <= c && c <= '9'
}

/// The form of chrono's `%Y-%m-%d %H{sep}%M{sep}%S`: a year of at least four
/// digits, signed when outside 0 to 9999, then `-MM-DD HH`, `MM` and `SS`
/// with `time_sep` between the last three, every field zero-padded to two
/// digits.
pub open spec fn date_time_form(s: Seq<char>, time_sep: char) -> bool {
    let n = s.len() as int;
    &&& n >= 19
    &&& s[n - 15] == '-'
    &&& s[n - 12] == '-'
    &&& s[n - 9] == ' '
    &&& s[n - 6] == time_sep
    &&& s[n - 3] == time_sep
    &&& forall|i: int|
        0 <= i < n && i != n - 15 && i != n - 12 && i != n - 9 && i != n - 6 && i != n - 3
            ==> is_digit(#[trigger] s[i]) || (i == 0 && n > 19 && (s[i] == '+' || s[i] == '-'))
}

/// The form of a log time stamp, `[%Y-%m-%d %H:%M:%S]`.
pub open spec fn log_stamp_form(s: Seq<char>) -> bool {
    &&& s.len() >= 21
    &&& s[0] == '['
    &&& s.last() == ']'
    &&& date_time_form(s.subrange(1, s.len() - 1), ':')
}

/// The chrono format of the names of old log files.
pub open spec fn file_stamp_format() -> Seq<char> {
    "%Y-%m-%d %H-%M-%S"@
}

/// The chrono format of the time stamps in the log.
pub open spec fn log_stamp_format() -> Seq<char> {
    "[%Y-%m-%d %H:%M:%S]"@
}

/// What a rendering in one of the two formats looks like.
pub open spec fn stamp_form(format: Seq<char>, s: Seq<char>) -> bool {
    &&& format == file_stamp_format() ==> date_time_form(s, '-')
    &&& format == log_stamp_format() ==> log_stamp_form(s)
}

/// A point in time as the distance to the Unix epoch, on either side of it.
#[derive(Debug, Clone, Copy, PartialEq, Eq, Structural)]
pub enum EpochTime {
    /// `secs` seconds and `nanos` nanoseconds after 1970-01-01T00:00:00 UTC.
    After { secs: u64, nanos: u32 },
    /// `secs` seconds and `nanos` nanoseconds before it.
    Before { secs: u64, nanos: u32 },
}

/// The last whole second after the epoch that chrono can represent: its
/// latest time is 262142-12-31T23:59:59.999999999 UTC.
pub const LATEST_SECS: u64 = 8_210_266_876_799;

/// The seconds before the epoch of chrono's earliest time,
/// -262143-01-01T00:00:00 UTC.
pub const EARLIEST_SECS: u64 = 8_334_601_228_800;

impl EpochTime {
    /// The nanoseconds are a fraction of a second.
    pub open spec fn wf(self) -> bool {
        match self {
            EpochTime::After { nanos, .. } => nanos < 1_000_000_000,
            EpochTime::Before { nanos, .. } => nanos < 1_000_000_000,
        }
    }

    /// The time lies within chrono's range.
    pub open spec fn in_range(self) -> bool {
        match self {
            EpochTime::After { secs, .. } => secs <= LATEST_SECS,
            EpochTime::Before { secs, nanos } => secs < EARLIEST_SECS || (secs == EARLIEST_SECS
                && nanos == 0),
        }
    }

    /// The whole seconds of the time since the epoch, rounded down (negative
    /// before it).
    pub open spec fn utc_secs(self) -> int {
        match self {
            EpochTime::After { secs, .. } => secs as int,
            EpochTime::Before { secs, nanos } => if nanos == 0 {
                -(secs as int)
            } else {
                -(secs as int) - 1
            },
        }
    }

    /// The nanoseconds past `utc_secs`.
    pub open spec fn utc_nanos(self) -> nat {
        match self {
            EpochTime::After { nanos, .. } => nanos as nat,
            EpochTime::Before { nanos, .. } => if nanos == 0 {
                0
            } else {
                (1_000_000_000 - nanos) as nat
            },
        }
    }
}

/// chrono's rendering with `format` of the date and time that lies `secs`
/// seconds and `nanos` nanoseconds after 1970-01-01T00:00:00, taken as a
/// time without zone.
pub uninterp spec fn naive_stamp(secs: int, nanos: nat, format: Seq<char>) -> Seq<char>;

/// `stamp` renders with `format` the time `secs` seconds and `nanos`
/// nanoseconds after the epoch, in some time zone less than a day away from
/// UTC.
pub open spec fn renders(stamp: Seq<char>, secs: int, nanos: nat, format: Seq<char>) -> bool {
    exists|local: int|
        -86_400 < local - secs < 86_400 && #[trigger] naive_stamp(local, nanos, format) == stamp
}

/// The local time `secs` seconds and `nanos` nanoseconds after the Unix
/// epoch rendered with `format`, through chrono's `TimeDelta::new`,
/// `DateTime::checked_add_signed`, `with_timezone(&Local)` and `format`.
/// chrono documents `None` only for a time out of its range. The local time
/// is the UTC time shifted by the machine's offset, a `FixedOffset` of less
/// than a day; which offset is not stated. chrono's look-up of the local
/// offset stops the program only when the system's time-zone data cannot
/// describe a time in its range.
#[verifier::external_body]
fn stamp_after_epoch(secs: i64, nanos: u32, format: &str) -> (stamp: Option<String>)
    requires
        0 <= secs,
        nanos < 1_000_000_000,
        format@ == file_stamp_format() || format@ == log_stamp_format(),
    ensures
        secs <= LATEST_SECS ==> stamp is Some,
        stamp matches Some(s) ==> stamp_form(format@, s@),
        stamp matches Some(s) ==> exists|local: int|
            -86_400 < local - secs < 86_400 && #[trigger] naive_stamp(local, nanos as nat, format@)
                == s@,
{
    match chrono::TimeDelta::new(secs, nanos) {
        Some(delta) => match chrono::DateTime::UNIX_EPOCH.checked_add_signed(delta) {
            Some(t) => Some(t.with_timezone(&chrono::Local).format(format).to_string()),
            None => None,
        },
        None => None,
    }
}

/// The local time `secs` seconds and `nanos` nanoseconds before the Unix
/// epoch rendered with `format`, through chrono's `TimeDelta::new`,
/// `DateTime::checked_sub_signed`, `with_timezone(&Local)` and `format`.
/// Stated as for `stamp_after_epoch`; the time is `-secs - 1` seconds and
/// `1_000_000_000 - nanos` nanoseconds after the epoch when `nanos` is not 0.
#[verifier::external_body]
fn stamp_before_epoch(secs: i64, nanos: u32, format: &str) -> (stamp: Option<String>)
    requires
        0 <= secs,
        nanos < 1_000_000_000,
        format@ == file_stamp_format() || format@ == log_stamp_format(),
    ensures
        secs < EARLIEST_SECS || (secs == EARLIEST_SECS && nanos == 0) ==> stamp is Some,
        stamp matches Some(s) ==> stamp_form(format@, s@),
        stamp matches Some(s) ==> (nanos == 0 ==> exists|local: int|
            -86_400 < local + secs < 86_400 && #[trigger] naive_stamp(local, 0, format@) == s@),
        stamp matches Some(s) ==> (nanos != 0 ==> exists|local: int|
            -86_400 < local + secs + 1 < 86_400 && #[trigger] naive_stamp(
                local,
                (1_000_000_000 - nanos) as nat,
                format@,
            ) == s@),
{
    match chrono::TimeDelta::new(secs, nanos) {
        Some(delta) => match chrono::DateTime::UNIX_EPOCH.checked_sub_signed(delta) {
            Some(t) => Some(t.with_timezone(&chrono::Local).format(format).to_string()),
            None => None,
        },
        None => None,
    }
}

/// `time` in local time rendered with `format`: always when it lies within
/// chrono's range, never beyond.
fn local_stamp(time: EpochTime, format: &str) -> (stamp: Option<String>)
    requires
        time.wf(),
        format@ == file_stamp_format() || format@ == log_stamp_format(),
    ensures
        time.in_range() <==> stamp is Some,
        stamp matches Some(s) ==> stamp_form(format@, s@),
        stamp matches Some(s) ==> renders(s@, time.utc_secs(), time.utc_nanos(), format@),
{
    match time {
        EpochTime::After { secs, nanos } => {
            if secs > LATEST_SECS {
                None
            } else {
                stamp_after_epoch(secs as i64, nanos, format)
            }
        },
        EpochTime::Before { secs, nanos } => {
            if secs > EARLIEST_SECS || (secs == EARLIEST_SECS && nanos != 0) {
                None
            } else {
                stamp_before_epoch(secs as i64, nanos, format)
            }
        },
    }
}

/// The stamp an entry carries when its time lies outside chrono's range.
pub open spec fn unknown_time_stamp() -> Seq<char> {
    "[time out of range]"@
}

/// The entry of kind `log_type` for `message` made at `now`: stamped with
/// `now` in local time when chrono can represent it, else with
/// `[time out of range]`.
pub fn log_entry_at(log_type: LogType, message: &str, now: EpochTime) -> (entry: LogEntry)
    requires
        now.wf(),
    ensures
        exists|stamp: Seq<char>|
            (if now.in_range() {
                log_stamp_form(stamp) && renders(
                    stamp,
                    now.utc_secs(),
                    now.utc_nanos(),
                    log_stamp_format(),
                )
            } else {
                stamp == unknown_time_stamp()
            }) && #[trigger] entry_text(stamp, log_type, message@) == entry.file_text@,
        entry.console_text@ == console_text(log_type, entry.file_text@),
{
    let format = "[%Y-%m-%d %H:%M:%S]";
    match local_stamp(now, format) {
        Some(stamp) => format_entry(stamp.as_str(), log_type, message),
        None => format_entry("[time out of range]", log_type, message),
    }
}

/// The path the previous log file is moved to, given when it was created:
/// named after that time in local time as `%Y-%m-%d %H-%M-%S`, whenever
/// chrono can represent it; `None` otherwise.
pub fn rotated_log_path(created: EpochTime) -> (path: Option<String>)
    requires
        created.wf(),
    ensures
        created.in_range() <==> path is Some,
        path matches Some(p) ==> exists|stamp: Seq<char>|
            date_time_form(stamp, '-') && renders(
                stamp,
                created.utc_secs(),
                created.utc_nanos(),
                file_stamp_format(),
            ) && #[trigger] ("./logs/"@ + stamp + ".log"@) == p@,
{
    let format = "%Y-%m-%d %H-%M-%S";
    match local_stamp(created, format) {
        Some(stamp) => {
            let mut path = String::from_str("./logs/");
            path.append(stamp.as_str());
            path.append(".log");
            Some(path)
        },
        None => None,
    }
}

} // verus!
