//! The log: a ring of the most recent entries, the line written to the log
//! file for each entry, and the line the log window shows.
use vstd::prelude::*;
use std::collections::VecDeque;
use crate::text::{decimal, digit_char, push_str, string_from_chars};

verus! {

/// How many entries the ring keeps.
pub const RING_CAPACITY: usize = 2000;

#[derive(Debug, Clone, Copy, PartialEq, Eq, Structural)]
pub enum LogLevel {
    Debug,
    Info,
    Warn,
    Error,
}

/// The label a level is written with.
pub open spec fn level_label(l: LogLevel) -> Seq<char> {
    match l {
        LogLevel::Debug => "DEBUG"@,
        LogLevel::Info => "INFO"@,
        LogLevel::Warn => "WARN"@,
        LogLevel::Error => "ERROR"@,
    }
}

impl LogLevel {
    /// The label the level is written with.
    pub fn label(&self) -> (r: &'static str)
        ensures
            r@ == level_label(*self),
    {
        match self {
            LogLevel::Debug => "DEBUG",
            LogLevel::Info => "INFO",
            LogLevel::Warn => "WARN",
            LogLevel::Error => "ERROR",
        }
    }
}

#[derive(Debug)]
pub struct LogEntry {
    pub level: LogLevel,
    pub message: String,
    pub plugin: String,
    pub timestamp: u64,
}

/// Two entries hold the same level, texts and time.
pub open spec fn same_entry(a: LogEntry, b: LogEntry) -> bool {
    &&& a.level == b.level
    &&& a.message@ == b.message@
    &&& a.plugin@ == b.plugin@
    &&& a.timestamp == b.timestamp
}

impl LogEntry {
    /// A copy of the entry.
    pub fn duplicate(&self) -> (r: LogEntry)
        ensures
            same_entry(r, *self),
    {
        LogEntry {
            level: self.level,
            message: self.message.clone(),
            plugin: self.plugin.clone(),
            timestamp: self.timestamp,
        }
    }
}

/// The last `n` items of `s` (all of `s` when it is shorter).
pub open spec fn keep_last<A>(s: Seq<A>, n: nat) -> Seq<A> {
    if s.len() > n {
        s.subrange(s.len() - n, s.len() as int)
    } else {
        s
    }
}

/// `[<time>] [<LEVEL>] [<plugin>] <message>`.
pub open spec fn line_text(time: Seq<char>, level: LogLevel, plugin: Seq<char>, message: Seq<char>) -> Seq<char> {
    "["@ + time + "] ["@ + level_label(level) + "] ["@ + plugin + "] "@ + message
}

/// Builds `[<time>] [<LEVEL>] [<plugin>] <message>`.
pub fn format_line(time: &str, level: LogLevel, plugin: &str, message: &str) -> (r: String)
    ensures
        r@ == line_text(time@, level, plugin@, message@),
{
    let mut buf: Vec<char> = Vec::new();
    push_str(&mut buf, "[");
    push_str(&mut buf, time);
    push_str(&mut buf, "] [");
    push_str(&mut buf, level.label());
    push_str(&mut buf, "] [");
    push_str(&mut buf, plugin);
    push_str(&mut buf, "] ");
    push_str(&mut buf, message);
    assert(buf@ =~= line_text(time@, level, plugin@, message@));
    string_from_chars(&buf)
}

/// The first year a chrono date can hold.
pub open spec fn calendar_min_year() -> int {
    -262143
}

/// The last year a chrono date can hold.
pub open spec fn calendar_max_year() -> int {
    262142
}

/// The proleptic Gregorian `(year, month, day)` of the day `z` counted from
/// 1970-01-01 (day 0), negative days before it.
pub open spec fn civil_from_days(z: int) -> (int, int, int) {
    let z = z + 719468;
    let era = z / 146097;
    let doe = z - era * 146097;
    let yoe = (doe - doe / 1460 + doe / 36524 - doe / 146096) / 365;
    let doy = doe - (365 * yoe + yoe / 4 - yoe / 100);
    let mp = (5 * doy + 2) / 153;
    let day = doy - (153 * mp + 2) / 5 + 1;
    let month = if mp < 10 { mp + 3 } else { mp - 9 };
    let year = yoe + era * 400;
    (if month <= 2 { year + 1 } else { year }, month, day)
}

/// The digits of `n` led by zeros to at least `width` characters.
pub open spec fn zero_padded(n: nat, width: nat) -> Seq<char> {
    let d = decimal(n);
    Seq::new(if d.len() < width { (width - d.len()) as nat } else { 0 }, |i: int| '0') + d
}

/// A year as `%Y` writes it: four digits with leading zeros for years
/// `0..=9999`, otherwise a sign and at least four digits.
pub open spec fn year_field(y: int) -> Seq<char> {
    if 0 <= y <= 9999 {
        zero_padded(y as nat, 4)
    } else if y < 0 {
        seq!['-'] + zero_padded((-y) as nat, 4)
    } else {
        seq!['+'] + zero_padded(y as nat, 4)
    }
}

/// The two digits of `n` in `0..=99`.
pub open spec fn two_digits(n: int) -> Seq<char> {
    seq![digit_char(n / 10), digit_char(n % 10)]
}

/// The calendar text `YYYY-MM-DD HH:MM:SS` (UTC) of a time given in
/// milliseconds since the Unix epoch, when its year is one a chrono date can
/// hold.
pub open spec fn utc_clock_text(ms: i64) -> Option<Seq<char>> {
    let secs = ms / 1000;
    let (y, m, d) = civil_from_days(secs / 86400);
    let t = secs % 86400;
    if calendar_min_year() <= y <= calendar_max_year() {
        Some(
            year_field(y) + seq!['-'] + two_digits(m) + seq!['-'] + two_digits(d) + seq![' ']
                + two_digits(t / 3600) + seq![':'] + two_digits(t % 3600 / 60) + seq![':'] + two_digits(t % 60),
        )
    } else {
        None
    }
}

/// Calls `chrono::DateTime::from_timestamp_millis` and formats the result
/// with `%Y-%m-%d %H:%M:%S`. Claimed: the call gives `None` exactly when the
/// day's year is outside chrono's date range (`NaiveDate` `MIN_YEAR` and
/// `MAX_YEAR`), and otherwise the UTC calendar text of the instant, as
/// `utc_clock_text` computes it (seconds and days by floor division).
#[verifier::external_body]
fn utc_clock(ms: i64) -> (r: Option<String>)
    ensures
        (match r {
            Some(t) => utc_clock_text(ms) == Some(t@),
            None => utc_clock_text(ms) is None,
        }),
{
    match chrono::DateTime::from_timestamp_millis(ms) {
        Some(dt) => Some(dt.format("%Y-%m-%d %H:%M:%S").to_string()),
        None => None,
    }
}

/// The time text the log window shows for an entry stamped `timestamp`.
pub open spec fn window_time_text(timestamp: u64) -> Seq<char> {
    match utc_clock_text(timestamp as i64) {
        Some(t) => t,
        None => "unknown"@,
    }
}

/// The line the log window shows for an entry: its UTC time (or `unknown`),
/// level, plugin and message.
pub fn format_entry(entry: &LogEntry) -> (r: String)
    ensures
        r@ == line_text(window_time_text(entry.timestamp), entry.level, entry.plugin@, entry.message@),
{
    let time = match utc_clock(entry.timestamp as i64) {
        Some(t) => t,
        None => {
            let mut buf: Vec<char> = Vec::new();
            push_str(&mut buf, "unknown");
            string_from_chars(&buf)
        },
    };
    format_line(time.as_str(), entry.level, entry.plugin.as_str(), entry.message.as_str())
}

/// What logging one message produced: the entry (to be handed to a log
/// listener) and, when file logging is on, the line to append to the log file.
pub struct LogOutput {
    pub entry: LogEntry,
    pub file_line: Option<String>,
}

/// What logging one message does: the entry holds the level, texts and
/// time given; the ring keeps the last `RING_CAPACITY` entries of what it
/// held followed by the entry; file logging stays as it was; and the file
/// line, present exactly when file logging is on, is
/// `[<clock>] [<LEVEL>] [<plugin>] <message>`.
pub open spec fn logged(
    before: Logger,
    after: Logger,
    out: LogOutput,
    level: LogLevel,
    plugin: Seq<char>,
    message: Seq<char>,
    timestamp: u64,
    clock: Seq<char>,
) -> bool {
    &&& out.entry.level == level
    &&& out.entry.plugin@ == plugin
    &&& out.entry.message@ == message
    &&& out.entry.timestamp == timestamp
    &&& after.file_logging() == before.file_logging()
    &&& after.entries().len() == keep_last(before.entries().push(out.entry), RING_CAPACITY as nat).len()
    &&& forall|i: int|
        0 <= i < after.entries().len() ==> same_entry(
            #[trigger] after.entries()[i],
            keep_last(before.entries().push(out.entry), RING_CAPACITY as nat)[i],
        )
    &&& (match out.file_line {
        Some(line) => before.file_logging() && line@ == line_text(clock, level, plugin, message),
        None => !before.file_logging(),
    })
}

pub struct Logger {
    ring: VecDeque<LogEntry>,
    file_enabled: bool,
}

/// Turns writing log lines to the log file on or off.
pub fn set_file_logging(logger: &mut Logger, enabled: bool)
    ensures
        final(logger).file_logging() == enabled,
        final(logger).entries() == old(logger).entries(),
{
    proof {
        use_type_invariant(&*logger);
    }
    logger.file_enabled = enabled;
}

impl Logger {
    /// The kept entries, oldest first.
    pub closed spec fn entries(&self) -> Seq<LogEntry> {
        self.ring@
    }

    /// Whether lines are written to the log file.
    pub closed spec fn file_logging(&self) -> bool {
        self.file_enabled
    }

    #[verifier::type_invariant]
    closed spec fn ring_bounded(&self) -> bool {
        self.ring@.len() <= RING_CAPACITY
    }

    /// An empty log that writes to its file.
    pub fn new() -> (l: Self)
        ensures
            l.entries() == Seq::<LogEntry>::empty(),
            l.file_logging(),
    {
        Logger { ring: VecDeque::new(), file_enabled: true }
    }

    /// Records a message stamped `timestamp` (milliseconds since the Unix
    /// epoch), whose local clock text is `clock`: the entry joins the ring,
    /// which keeps the last `RING_CAPACITY` entries, and, when file logging
    /// is on, the file line `[<clock>] [<LEVEL>] [<plugin>] <message>` is
    /// produced. The caller reads the clock.
    pub fn log(&mut self, level: LogLevel, plugin: &str, message: &str, timestamp: u64, clock: &str) -> (out: LogOutput)
        ensures
            logged(*old(self), *final(self), out, level, plugin@, message@, timestamp, clock@),
    {
        proof {
            use_type_invariant(&*self);
        }
        let entry = LogEntry { level, message: message.to_owned(), plugin: plugin.to_owned(), timestamp };
        let kept = entry.duplicate();
        let ghost before = self.ring@;
        let mut ring: VecDeque<LogEntry> = VecDeque::new();
        std::mem::swap(&mut ring, &mut self.ring);
        if ring.len() >= RING_CAPACITY {
            let _ = ring.pop_front();
        }
        ring.push_back(kept);
        proof {
            let whole = before.push(entry);
            let k = keep_last(whole, RING_CAPACITY as nat);
            assert(ring@.len() == k.len());
            assert forall|i: int| 0 <= i < ring@.len() implies same_entry(#[trigger] ring@[i], k[i]) by {
                if before.len() >= RING_CAPACITY {
                    if i < ring@.len() - 1 {
                        assert(ring@[i] == before[i + 1]);
                    }
                }
            }
        }
        self.ring = ring;
        let file_line = if self.file_enabled {
            Some(format_line(clock, level, plugin, message))
        } else {
            None
        };
        LogOutput { entry, file_line }
    }

    /// Records a message at level `DEBUG` (see `log`).
    pub fn debug(&mut self, plugin: &str, message: &str, timestamp: u64, clock: &str) -> (out: LogOutput)
        ensures
            logged(*old(self), *final(self), out, LogLevel::Debug, plugin@, message@, timestamp, clock@),
    {
        self.log(LogLevel::Debug, plugin, message, timestamp, clock)
    }

    /// Records a message at level `INFO` (see `log`).
    pub fn info(&mut self, plugin: &str, message: &str, timestamp: u64, clock: &str) -> (out: LogOutput)
        ensures
            logged(*old(self), *final(self), out, LogLevel::Info, plugin@, message@, timestamp, clock@),
    {
        self.log(LogLevel::Info, plugin, message, timestamp, clock)
    }

    /// Records a message at level `WARN` (see `log`).
    pub fn warn(&mut self, plugin: &str, message: &str, timestamp: u64, clock: &str) -> (out: LogOutput)
        ensures
            logged(*old(self), *final(self), out, LogLevel::Warn, plugin@, message@, timestamp, clock@),
    {
        self.log(LogLevel::Warn, plugin, message, timestamp, clock)
    }

    /// Records a message at level `ERROR` (see `log`).
    pub fn error(&mut self, plugin: &str, message: &str, timestamp: u64, clock: &str) -> (out: LogOutput)
        ensures
            logged(*old(self), *final(self), out, LogLevel::Error, plugin@, message@, timestamp, clock@),
    {
        self.log(LogLevel::Error, plugin, message, timestamp, clock)
    }

    /// Copies of the last `count` entries (fewer when fewer are kept), oldest first.
    pub fn recent(&self, count: usize) -> (r: Vec<LogEntry>)
        ensures
            r@.len() == keep_last(self.entries(), count as nat).len(),
            forall|i: int| 0 <= i < r@.len() ==> same_entry(#[trigger] r@[i], keep_last(self.entries(), count as nat)[i]),
    {
        let len = self.ring.len();
        let start = if len > count {
            len - count
        } else {
            0
        };
        let mut r: Vec<LogEntry> = Vec::new();
        let mut i: usize = start;
        while i < len
            invariant
                len == self.ring@.len(),
                start <= i <= len,
                start == (if len > count { len - count } else { 0 }),
                r@.len() == i - start,
                forall|k: int| 0 <= k < r@.len() ==> same_entry(#[trigger] r@[k], self.ring@[start + k]),
            decreases len - i,
        {
            r.push(self.ring[i].duplicate());
            i += 1;
        }
        r
    }
}

/// One logged message in a ring of `k <= n` entries: the ring then holds
/// `min(k + 1, n)` entries ending with the new one; a full ring drops only
/// its oldest entry, and the others keep their order.
pub proof fn law_log_ring_step<A>(entries: Seq<A>, x: A, n: nat)
    requires
        0 < n,
        entries.len() <= n,
    ensures
        keep_last(entries.push(x), n).len() == (if entries.len() < n { entries.len() + 1 } else { n }),
        keep_last(entries.push(x), n).last() == x,
        entries.len() < n ==> keep_last(entries.push(x), n) == entries.push(x),
        entries.len() == n ==> keep_last(entries.push(x), n) == entries.drop_first().push(x),
{
    if entries.len() == n {
        assert(keep_last(entries.push(x), n) =~= entries.drop_first().push(x));
    }
}

/// The ring always holds the most recent entries ever logged: keeping the
/// last `n` after each push is the same as keeping the last `n` of the
/// whole history.
pub proof fn law_ring_keeps_latest<A>(history: Seq<A>, x: A, n: nat)
    requires
        n > 0,
    ensures
        keep_last(keep_last(history, n).push(x), n) == keep_last(history.push(x), n),
{
    let k = keep_last(history, n);
    assert(keep_last(k.push(x), n) =~= keep_last(history.push(x), n));
}

/// Each level is written with its own label and with no other level's:
/// `DEBUG`, `INFO`, `WARN` or `ERROR` exactly for that level.
pub proof fn law_level_labels_name_their_level(l: LogLevel, m: LogLevel)
    ensures
        level_label(l) == "DEBUG"@ <==> l == LogLevel::Debug,
        level_label(l) == "INFO"@ <==> l == LogLevel::Info,
        level_label(l) == "WARN"@ <==> l == LogLevel::Warn,
        level_label(l) == "ERROR"@ <==> l == LogLevel::Error,
        level_label(l) == level_label(m) <==> l == m,
{
    reveal_strlit("DEBUG");
    assert("DEBUG"@.len() == 5);
    assert("DEBUG"@[0] == 'D');
    assert("DEBUG"@[1] == 'E');
    assert("DEBUG"@[2] == 'B');
    assert("DEBUG"@[3] == 'U');
    assert("DEBUG"@[4] == 'G');
    reveal_strlit("INFO");
    assert("INFO"@.len() == 4);
    assert("INFO"@[0] == 'I');
    assert("INFO"@[1] == 'N');
    assert("INFO"@[2] == 'F');
    assert("INFO"@[3] == 'O');
    reveal_strlit("WARN");
    assert("WARN"@.len() == 4);
    assert("WARN"@[0] == 'W');
    assert("WARN"@[1] == 'A');
    assert("WARN"@[2] == 'R');
    assert("WARN"@[3] == 'N');
    reveal_strlit("ERROR");
    assert("ERROR"@.len() == 5);
    assert("ERROR"@[0] == 'E');
    assert("ERROR"@[1] == 'R');
    assert("ERROR"@[2] == 'R');
    assert("ERROR"@[3] == 'O');
    assert("ERROR"@[4] == 'R');
}

} // verus!
