//! The in-memory ring buffer behind the log viewer, and the reading of log lines.

use std::collections::VecDeque;

use vstd::prelude::*;
use vstd::string::*;

use crate::text;

verus! {

/// How many entries the ring buffer keeps.
pub const MAX_LOG_LINES: usize = 2000;

/// Event name listened to by the logs window.
pub const EVENT_LOG_APPEND: &'static str = "log:append";

/// One line of the log viewer.
#[derive(Debug)]
pub struct LogEntry {
    /// Unix epoch in milliseconds.
    pub ts_ms: u64,
    pub level: String,
    pub message: String,
    pub target: String,
}

/// The mathematical content of a [`LogEntry`].
pub struct LogEntryView {
    pub ts_ms: u64,
    pub level: Seq<char>,
    pub message: Seq<char>,
    pub target: Seq<char>,
}

impl View for LogEntry {
    type V = LogEntryView;

    open spec fn view(&self) -> LogEntryView {
        LogEntryView {
            ts_ms: self.ts_ms,
            level: self.level@,
            message: self.message@,
            target: self.target@,
        }
    }
}

impl Clone for LogEntry {
    fn clone(&self) -> (r: Self)
        ensures
            r == *self,
    {
        LogEntry {
            ts_ms: self.ts_ms,
            level: self.level.clone(),
            message: self.message.clone(),
            target: self.target.clone(),
        }
    }
}

/// The mathematical content of a list of entries.
pub open spec fn entries_view(entries: Seq<LogEntry>) -> Seq<LogEntryView> {
    entries.map_values(|e: LogEntry| e@)
}

/// The buffer `kept` after one more entry: once it is full, the oldest entry makes room.
pub open spec fn appended(kept: Seq<LogEntryView>, entry: LogEntryView) -> Seq<LogEntryView> {
    if kept.len() >= MAX_LOG_LINES {
        kept.drop_first().push(entry)
    } else {
        kept.push(entry)
    }
}

/// The buffer `kept` after all of `entries`, one after the other.
pub open spec fn all_appended(
    kept: Seq<LogEntryView>,
    entries: Seq<LogEntryView>,
) -> Seq<LogEntryView>
    decreases entries.len(),
{
    if entries.len() == 0 {
        kept
    } else {
        appended(all_appended(kept, entries.drop_last()), entries.last())
    }
}

/// The most recent log entries, oldest first.
pub struct LogStore {
    buffer: VecDeque<LogEntry>,
}

impl View for LogStore {
    type V = Seq<LogEntryView>;

    closed spec fn view(&self) -> Seq<LogEntryView> {
        entries_view(self.buffer@)
    }
}

impl LogStore {
    /// The buffer never holds more than its cap.
    pub open spec fn wf(&self) -> bool {
        self@.len() <= MAX_LOG_LINES
    }

    pub fn new() -> (r: Self)
        ensures
            r@ == Seq::<LogEntryView>::empty(),
            r.wf(),
    {
        let r = LogStore { buffer: VecDeque::with_capacity(MAX_LOG_LINES) };
        assert(r@ =~= Seq::<LogEntryView>::empty());
        r
    }

    pub fn push(&mut self, entry: LogEntry)
        ensures
            final(self)@ == appended(old(self)@, entry@),
            old(self).wf() ==> final(self).wf(),
    {
        if self.buffer.len() >= MAX_LOG_LINES {
            self.buffer.pop_front();
        }
        self.buffer.push_back(entry);
        assert(self@ =~= appended(old(self)@, entry@));
    }

    pub fn snapshot(&self) -> (r: Vec<LogEntry>)
        ensures
            entries_view(r@) == self@,
    {
        let mut r: Vec<LogEntry> = Vec::new();
        let mut i: usize = 0;
        while i < self.buffer.len()
            invariant
                i <= self.buffer.len(),
                r@ == self.buffer@.take(i as int),
            decreases self.buffer.len() - i,
        {
            r.push(self.buffer[i].clone());
            i = i + 1;
            assert(r@ =~= self.buffer@.take(i as int));
        }
        assert(r@ =~= self.buffer@);
        r
    }

    pub fn clear(&mut self)
        ensures
            final(self)@ == Seq::<LogEntryView>::empty(),
            final(self).wf(),
    {
        self.buffer.clear();
        assert(self@ =~= Seq::<LogEntryView>::empty());
    }
}

/// However many entries are pushed into an empty store, it holds the last 2000 of them, in order.
pub proof fn law_store_keeps_last(entries: Seq<LogEntryView>)
    ensures
        all_appended(Seq::empty(), entries) == entries.skip(
            if entries.len() > MAX_LOG_LINES {
                entries.len() - MAX_LOG_LINES
            } else {
                0
            },
        ),
    decreases entries.len(),
{
    if entries.len() > 0 {
        law_store_keeps_last(entries.drop_last());
    }
    assert(all_appended(Seq::empty(), entries) =~= entries.skip(
        if entries.len() > MAX_LOG_LINES {
            entries.len() - MAX_LOG_LINES
        } else {
            0
        },
    ));
}

/// The canonical level a level name stands for.
pub open spec fn canonical_level(raw: Seq<char>) -> Seq<char> {
    let name = text::upper(text::trim(raw));
    if name == "CRITICAL"@ || name == "ERROR"@ || name == "ERR"@ {
        "ERROR"@
    } else if name == "WARNING"@ || name == "WARN"@ {
        "WARN"@
    } else if name == "DEBUG"@ {
        "DEBUG"@
    } else if name == "TRACE"@ {
        "TRACE"@
    } else {
        "INFO"@
    }
}

/// Maps a level name to its canonical form.
pub fn normalize_level(raw: &str) -> (r: String)
    ensures
        r@ == canonical_level(raw@),
{
    let name: Vec<char> = text::upper_chars(text::trimmed(raw));
    if text::spells(&name, "CRITICAL") || text::spells(&name, "ERROR") || text::spells(
        &name,
        "ERR",
    ) {
        "ERROR".to_string()
    } else if text::spells(&name, "WARNING") || text::spells(&name, "WARN") {
        "WARN".to_string()
    } else if text::spells(&name, "DEBUG") {
        "DEBUG".to_string()
    } else if text::spells(&name, "TRACE") {
        "TRACE".to_string()
    } else {
        "INFO".to_string()
    }
}

/// The upper-case line names the level, in brackets or before a colon.
pub open spec fn names_level(line: Seq<char>, bracketed: Seq<char>, prefixed: Seq<char>) -> bool {
    text::contains(line, bracketed) || text::contains(line, prefixed)
}

/// The level of a free-form log line: the most severe one it names, whatever the case of its
/// letters, and the default where it names none.
pub open spec fn line_level(line: Seq<char>, default: Seq<char>) -> Seq<char> {
    let folded = text::upper(line);
    if names_level(folded, "[CRITICAL]"@, "CRITICAL:"@) || names_level(
        folded,
        "[ERROR]"@,
        "ERROR:"@,
    ) {
        "ERROR"@
    } else if names_level(folded, "[WARNING]"@, "WARNING:"@) || names_level(
        folded,
        "[WARN]"@,
        "WARN:"@,
    ) {
        "WARN"@
    } else if names_level(folded, "[INFO]"@, "INFO:"@) {
        "INFO"@
    } else if names_level(folded, "[DEBUG]"@, "DEBUG:"@) {
        "DEBUG"@
    } else {
        canonical_level(default)
    }
}

/// Extracts the level of a free-form log line. Recognises the `[LEVEL]` and `LEVEL:` patterns of
/// Python's `logging` module and of uvicorn.
pub fn parse_line_level(line: &str, default: &str) -> (r: String)
    ensures
        r@ == line_level(line@, default@),
{
    let folded: Vec<char> = text::upper_chars(line);
    if text::has(&folded, "[CRITICAL]") || text::has(&folded, "CRITICAL:") || text::has(
        &folded,
        "[ERROR]",
    ) || text::has(&folded, "ERROR:") {
        "ERROR".to_string()
    } else if text::has(&folded, "[WARNING]") || text::has(&folded, "WARNING:") || text::has(
        &folded,
        "[WARN]",
    ) || text::has(&folded, "WARN:") {
        "WARN".to_string()
    } else if text::has(&folded, "[INFO]") || text::has(&folded, "INFO:") {
        "INFO".to_string()
    } else if text::has(&folded, "[DEBUG]") || text::has(&folded, "DEBUG:") {
        "DEBUG".to_string()
    } else {
        normalize_level(default)
    }
}

/// One of the level names that entries carry.
pub open spec fn is_level(name: Seq<char>) -> bool {
    name == "ERROR"@ || name == "WARN"@ || name == "INFO"@ || name == "DEBUG"@ || name == "TRACE"@
}

/// Whatever the line and the default, the level of a line is one of the five known ones.
pub proof fn law_line_level_known(line: Seq<char>, default: Seq<char>)
    ensures
        is_level(line_level(line, default)),
{
}

/// A canonical level is its own canonical form.
pub proof fn law_canonical_level_stable(raw: Seq<char>)
    ensures
        canonical_level(canonical_level(raw)) == canonical_level(raw),
{
    reveal_strlit("CRITICAL");
    reveal_strlit("ERROR");
    reveal_strlit("ERR");
    reveal_strlit("WARNING");
    reveal_strlit("WARN");
    reveal_strlit("DEBUG");
    reveal_strlit("TRACE");
    reveal_strlit("INFO");
    let level = canonical_level(raw);
    assert(text::trim_start(level) == level);
    assert(text::trim_end(level) == level);
    assert(text::upper(level) =~= level);
}

/// The level a name stands for depends neither on the case of its letters nor on white space
/// around it.
pub proof fn law_canonical_level_ignores_case_and_space(
    raw: Seq<char>,
    other: Seq<char>,
    before: Seq<char>,
    after: Seq<char>,
)
    requires
        text::upper(raw) == text::upper(other),
        text::all_white(before),
        text::all_white(after),
    ensures
        canonical_level(before + other + after) == canonical_level(raw),
{
    text::lemma_trim_skips(before, other, after);
    text::lemma_upper_trim(raw);
    text::lemma_upper_trim(other);
}

/// A decimal digit.
pub open spec fn digit_char(d: int) -> char {
    (('0' as u32) + d) as char
}

/// A number below 100 with two digits.
pub open spec fn two_digits(n: int) -> Seq<char> {
    seq![digit_char(n / 10), digit_char(n % 10)]
}

/// The time of day, in UTC, of a moment given in milliseconds since the epoch.
pub open spec fn clock_text(ts_ms: u64) -> Seq<char> {
    let secs = ts_ms as int / 1000;
    two_digits((secs / 3600) % 24) + ":"@ + two_digits((secs / 60) % 60) + ":"@ + two_digits(
        secs % 60,
    )
}

/// Writes a number below 100 with two digits.
fn padded(n: u64) -> (r: String)
    requires
        n < 100,
    ensures
        r@ == two_digits(n as int),
{
    let digits: &'static str = "0123456789";
    proof {
        reveal_strlit("0123456789");
    }
    let tens: usize = (n / 10) as usize;
    let ones: usize = (n % 10) as usize;
    let mut r: String = digits.substring_ascii(tens, tens + 1).to_string();
    r.append(digits.substring_ascii(ones, ones + 1));
    assert(r@ =~= two_digits(n as int));
    r
}

/// Formats a moment as `HH:MM:SS`.
pub fn iso_short(ts_ms: u64) -> (r: String)
    ensures
        r@ == clock_text(ts_ms),
{
    let secs: u64 = ts_ms / 1000;
    let mut r: String = padded((secs / 3600) % 24);
    r.append(":");
    r.append(padded((secs / 60) % 60).as_str());
    r.append(":");
    r.append(padded(secs % 60).as_str());
    r
}

/// The timestamp of an entry, from the milliseconds that the system clock has counted since the
/// epoch; a clock set before the epoch gives no count and counts as zero.
pub fn now_ms(since_epoch: Option<u128>) -> (r: u64)
    ensures
        r == match since_epoch {
            Some(ms) => ms as u64,
            None => 0,
        },
{
    match since_epoch {
        Some(ms) => #[verifier::truncate]
        (ms as u64),
        None => 0,
    }
}

/// The line that mirrors an entry on the terminal.
pub open spec fn console_text(entry: LogEntryView) -> Seq<char> {
    "["@ + clock_text(entry.ts_ms) + "]["@ + entry.level + "]["@ + entry.target + "] "@
        + entry.message
}

/// Formats the line that mirrors an entry on the terminal.
pub fn console_line(entry: &LogEntry) -> (r: String)
    ensures
        r@ == console_text(entry@),
{
    let mut r: String = "[".to_string();
    r.append(iso_short(entry.ts_ms).as_str());
    r.append("][");
    r.append(entry.level.as_str());
    r.append("][");
    r.append(entry.target.as_str());
    r.append("] ");
    r.append(entry.message.as_str());
    r
}

/// Severity of a record of the launcher's own logger, the most severe first.
#[derive(Copy, Clone, Debug, PartialEq, Eq, Structural)]
pub enum RecordLevel {
    Error,
    Warn,
    Info,
    Debug,
    Trace,
}

/// The name of a severity.
pub open spec fn record_level_text(level: RecordLevel) -> Seq<char> {
    match level {
        RecordLevel::Error => "ERROR"@,
        RecordLevel::Warn => "WARN"@,
        RecordLevel::Info => "INFO"@,
        RecordLevel::Debug => "DEBUG"@,
        RecordLevel::Trace => "TRACE"@,
    }
}

/// `log::Level::as_str`, which names each of the five severities in capital letters.
#[verifier::external_body]
fn level_name(level: RecordLevel) -> (r: &'static str)
    ensures
        r@ == record_level_text(level),
{
    let outside = match level {
        RecordLevel::Error => log::Level::Error,
        RecordLevel::Warn => log::Level::Warn,
        RecordLevel::Info => log::Level::Info,
        RecordLevel::Debug => log::Level::Debug,
        RecordLevel::Trace => log::Level::Trace,
    };
    outside.as_str()
}

/// The severity is at least that of an informational record.
pub open spec fn logged(level: RecordLevel) -> bool {
    level != RecordLevel::Debug && level != RecordLevel::Trace
}

/// Tells whether records of this severity are kept.
pub fn enabled(level: RecordLevel) -> (r: bool)
    ensures
        r == logged(level),
{
    match level {
        RecordLevel::Error | RecordLevel::Warn | RecordLevel::Info => true,
        RecordLevel::Debug | RecordLevel::Trace => false,
    }
}

/// An entry on its way to the terminal and, where `in_window` holds, to the log viewer.
pub struct LoggedRecord {
    pub entry: LogEntry,
    /// The line that mirrors the entry on the terminal.
    pub console: String,
    pub in_window: bool,
}

/// Turns a record of the launcher's logger into an entry. Records below the informational
/// severity are dropped; those of other crates stay out of the log viewer, which is kept focused
/// on the launcher's own messages, but still reach the terminal.
pub fn log_record(level: RecordLevel, target: &str, message: String, ts_ms: u64) -> (r: Option<
    LoggedRecord,
>)
    ensures
        r is Some <==> logged(level),
        r matches Some(record) ==> {
            &&& record.entry@ == LogEntryView {
                ts_ms,
                level: record_level_text(level),
                message: message@,
                target: target@,
            }
            &&& record.console@ == console_text(record.entry@)
            &&& record.in_window == "reachy_mini_tray"@.is_prefix_of(target@)
        },
{
    if !enabled(level) {
        return None;
    }
    let entry = LogEntry {
        ts_ms,
        level: level_name(level).to_string(),
        message,
        target: target.to_string(),
    };
    let console: String = console_line(&entry);
    let in_window: bool = text::begins_with(target, "reachy_mini_tray");
    Some(LoggedRecord { entry, console, in_window })
}

/// The entry an outside line becomes.
pub open spec fn external_entry(
    target: Seq<char>,
    level: Seq<char>,
    message: Seq<char>,
    ts_ms: u64,
) -> LogEntryView {
    LogEntryView { ts_ms, level: canonical_level(level), message, target }
}

/// Puts an outside line, typically of a child process, into the store, whatever its severity.
/// The target lets the log viewer tell the daemon's lines from the launcher's. Returns the entry
/// for the live window and the terminal.
pub fn push_external(
    store: &mut LogStore,
    target: &str,
    level: &str,
    message: String,
    ts_ms: u64,
) -> (r: LoggedRecord)
    ensures
        r.entry@ == external_entry(target@, level@, message@, ts_ms),
        r.console@ == console_text(r.entry@),
        r.in_window,
        final(store)@ == appended(old(store)@, r.entry@),
        old(store).wf() ==> final(store).wf(),
{
    let entry = LogEntry {
        ts_ms,
        level: normalize_level(level),
        message,
        target: target.to_string(),
    };
    let console: String = console_line(&entry);
    store.push(entry.clone());
    LoggedRecord { entry, console, in_window: true }
}

/// One more entry stands last, behind all that was kept; once 2000 are kept, the oldest makes room
/// for it and nothing else moves.
pub proof fn law_append(kept: Seq<LogEntryView>, entry: LogEntryView)
    ensures
        kept.len() < 2000 ==> appended(kept, entry) == kept + seq![entry],
        kept.len() >= 2000 ==> appended(kept, entry) == kept.skip(1) + seq![entry],
{
    assert(kept.push(entry) =~= kept + seq![entry]);
    if kept.len() > 0 {
        assert(kept.drop_first().push(entry) =~= kept.skip(1) + seq![entry]);
    }
}

/// A level name stands for one of five levels: the two spellings of a warning for one, the three of
/// an error for another, and an unknown name for the informational one.
pub proof fn law_level_names(raw: Seq<char>)
    ensures
        ({
            let name = text::upper(text::trim(raw));
            let level = canonical_level(raw);
            &&& level == "ERROR"@ <==> name == "ERROR"@ || name == "ERR"@ || name == "CRITICAL"@
            &&& level == "WARN"@ <==> name == "WARN"@ || name == "WARNING"@
            &&& level == "DEBUG"@ <==> name == "DEBUG"@
            &&& level == "TRACE"@ <==> name == "TRACE"@
            &&& level != "ERROR"@ && level != "WARN"@ && level != "DEBUG"@ && level != "TRACE"@
                ==> level == "INFO"@
        }),
{
    lemma_levels_differ();
}

/// The names of levels differ.
proof fn lemma_levels_differ()
    ensures
        "ERROR"@.len() == 5 && "ERROR"@[0] == 'E',
        "DEBUG"@.len() == 5 && "DEBUG"@[0] == 'D',
        "TRACE"@.len() == 5 && "TRACE"@[0] == 'T',
        "WARN"@.len() == 4 && "WARN"@[0] == 'W',
        "INFO"@.len() == 4 && "INFO"@[0] == 'I',
        "ERR"@.len() == 3,
        "WARNING"@.len() == 7,
        "CRITICAL"@.len() == 8,
{
    reveal_strlit("ERROR");
    reveal_strlit("DEBUG");
    reveal_strlit("TRACE");
    reveal_strlit("WARN");
    reveal_strlit("INFO");
    reveal_strlit("ERR");
    reveal_strlit("WARNING");
    reveal_strlit("CRITICAL");
}

/// A level is its own canonical form.
pub proof fn lemma_level_is_canonical(level: Seq<char>)
    requires
        is_level(level),
    ensures
        canonical_level(level) == level,
{
    lemma_levels_differ();
    reveal_strlit("ERROR");
    reveal_strlit("WARN");
    reveal_strlit("DEBUG");
    reveal_strlit("TRACE");
    reveal_strlit("INFO");
    assert(text::trim_start(level) == level);
    assert(text::trim_end(level) == level);
    assert(text::upper(level) =~= level);
}

/// A line is as severe as the most severe marker in it, in brackets or before a colon and in any
/// case; without a marker it is as severe as the default.
pub proof fn law_line_level(line: Seq<char>, default: Seq<char>)
    ensures
        ({
            let l = text::upper(line);
            let error = text::contains(l, "[CRITICAL]"@) || text::contains(l, "CRITICAL:"@)
                || text::contains(l, "[ERROR]"@) || text::contains(l, "ERROR:"@);
            let warn = text::contains(l, "[WARNING]"@) || text::contains(l, "WARNING:"@)
                || text::contains(l, "[WARN]"@) || text::contains(l, "WARN:"@);
            let info = text::contains(l, "[INFO]"@) || text::contains(l, "INFO:"@);
            let debug = text::contains(l, "[DEBUG]"@) || text::contains(l, "DEBUG:"@);
            let level = line_level(line, default);
            &&& error ==> level == "ERROR"@
            &&& !error && warn ==> level == "WARN"@
            &&& !error && !warn && info ==> level == "INFO"@
            &&& !error && !warn && !info && debug ==> level == "DEBUG"@
            &&& !error && !warn && !info && !debug ==> level == canonical_level(default)
        }),
{
}

/// The value of two digits at a position.
spec fn two_at(s: Seq<char>, i: int) -> int {
    10 * (s[i] as u32 - 48) + (s[i + 1] as u32 - 48)
}

/// The clock reads hours, minutes and seconds of the day, two digits each: read back, they are the
/// seconds that have passed since midnight.
pub proof fn law_clock(ts_ms: u64)
    ensures
        ({
            let c = clock_text(ts_ms);
            let h = 10 * (c[0] as u32 - 48) + (c[1] as u32 - 48);
            let m = 10 * (c[3] as u32 - 48) + (c[4] as u32 - 48);
            let s = 10 * (c[6] as u32 - 48) + (c[7] as u32 - 48);
            &&& c.len() == 8 && c[2] == ':' && c[5] == ':'
            &&& text::all_digits(seq![c[0], c[1], c[3], c[4], c[6], c[7]])
            &&& 0 <= h < 24 && 0 <= m < 60 && 0 <= s < 60
            &&& 3600 * h + 60 * m + s == (ts_ms as int / 1000) % 86400
        }),
{
    reveal_strlit(":");
    let secs = ts_ms as int / 1000;
    let h = (secs / 3600) % 24;
    let m = (secs / 60) % 60;
    let s = secs % 60;
    let c = clock_text(ts_ms);
    lemma_two_digits(h);
    lemma_two_digits(m);
    lemma_two_digits(s);
    assert(c[0] == two_digits(h)[0] && c[1] == two_digits(h)[1]);
    assert(c[3] == two_digits(m)[0] && c[4] == two_digits(m)[1]);
    assert(c[6] == two_digits(s)[0] && c[7] == two_digits(s)[1]);
    assert(3600 * h + 60 * m + s == secs % 86400);
}

/// Two digits write the number they stand for.
proof fn lemma_two_digits(n: int)
    requires
        0 <= n < 100,
    ensures
        two_digits(n).len() == 2,
        '0' <= two_digits(n)[0] <= '9',
        '0' <= two_digits(n)[1] <= '9',
        two_at(two_digits(n), 0) == n,
{
}

/// The terminal shows clock, level and target in brackets, and then the message.
pub proof fn law_console(entry: LogEntryView)
    ensures
        console_text(entry) == "["@ + clock_text(entry.ts_ms) + "]["@ + entry.level + "]["@
            + entry.target + "] "@ + entry.message,
{
}

/// The log viewer hears of new entries by its own event.
pub proof fn law_log_event()
    ensures
        EVENT_LOG_APPEND@ == "log:append"@,
{
}

/// Errors, warnings and informational records are kept, each under its own name; finer ones are
/// not.
pub proof fn law_record_levels(level: RecordLevel)
    ensures
        logged(level) <==> level is Error || level is Warn || level is Info,
        level is Error ==> record_level_text(level) == "ERROR"@,
        level is Warn ==> record_level_text(level) == "WARN"@,
        level is Info ==> record_level_text(level) == "INFO"@,
        level is Debug ==> record_level_text(level) == "DEBUG"@,
        level is Trace ==> record_level_text(level) == "TRACE"@,
{
}

/// An outside line keeps its text, its target and its time; its level becomes the canonical one.
pub proof fn law_external_entry(
    target: Seq<char>,
    level: Seq<char>,
    message: Seq<char>,
    ts_ms: u64,
)
    ensures
        ({
            let entry = external_entry(target, level, message, ts_ms);
            &&& entry.message == message && entry.target == target && entry.ts_ms == ts_ms
            &&& is_level(entry.level)
            &&& is_level(level) ==> entry.level == level
            &&& entry.level == canonical_level(level)
        }),
{
    if is_level(level) {
        lemma_level_is_canonical(level);
    }
}

/// The contracts see an entry as it is, field by field, and a list entry by entry.
pub proof fn law_entries_are_seen_whole(entries: Seq<LogEntry>, i: int)
    requires
        0 <= i < entries.len(),
    ensures
        entries_view(entries).len() == entries.len(),
        entries_view(entries)[i].ts_ms == entries[i].ts_ms,
        entries_view(entries)[i].level == entries[i].level@,
        entries_view(entries)[i].message == entries[i].message@,
        entries_view(entries)[i].target == entries[i].target@,
{
}

} // verus!
