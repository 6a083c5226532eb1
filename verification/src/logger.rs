//! The in-memory log that the user interface shows: a bounded buffer of the
//! most recent entries, and the level filter of the log view.
use crate::model::clone_vec;
use crate::text::{owned, str_eq};
use vstd::prelude::*;

verus! {

broadcast use vstd::string::group_string_axioms;

/// One line of the log view.
#[derive(Debug)]
pub struct LogEntry {
    pub timestamp: String,
    pub level: String,
    pub message: String,
}

impl Clone for LogEntry {
    fn clone(&self) -> (r: LogEntry)
        ensures
            r == *self,
    {
        LogEntry {
            timestamp: self.timestamp.clone(),
            level: self.level.clone(),
            message: self.message.clone(),
        }
    }
}

/// How many entries the buffer keeps.
pub const MAX_BUFFER_ENTRIES: usize = 500;

/// `s` with its oldest entries dropped so that at most `n` remain.
pub open spec fn newest<T>(s: Seq<T>, n: nat) -> Seq<T> {
    if s.len() > n {
        s.skip(s.len() - n)
    } else {
        s
    }
}

/// The most recent log entries, oldest first, at most
/// `MAX_BUFFER_ENTRIES` of them.
pub struct LogBuffer {
    entries: Vec<LogEntry>,
}

impl View for LogBuffer {
    type V = Seq<LogEntry>;

    closed spec fn view(&self) -> Seq<LogEntry> {
        self.entries@
    }
}

impl LogBuffer {
    #[verifier::type_invariant]
    closed spec fn bounded(self) -> bool {
        self.entries@.len() <= MAX_BUFFER_ENTRIES
    }

    /// An empty buffer.
    pub fn new() -> (b: LogBuffer)
        ensures
            b@ == Seq::<LogEntry>::empty(),
    {
        LogBuffer { entries: Vec::new() }
    }

    /// The number of entries; never more than `MAX_BUFFER_ENTRIES`.
    pub fn len(&self) -> (n: usize)
        ensures
            n == self@.len(),
            n <= MAX_BUFFER_ENTRIES,
    {
        proof {
            use_type_invariant(self);
        }
        self.entries.len()
    }

    /// Appends `entry`, dropping the oldest entry when the buffer is full.
    pub fn push_entry(&mut self, entry: LogEntry)
        ensures
            final(self)@ == newest(old(self)@.push(entry), MAX_BUFFER_ENTRIES as nat),
    {
        proof {
            use_type_invariant(&*self);
        }
        let mut entries: Vec<LogEntry> = Vec::new();
        std::mem::swap(&mut entries, &mut self.entries);
        let ghost before = entries@;
        entries.push(entry);
        if entries.len() > MAX_BUFFER_ENTRIES {
            entries.remove(0);
            assert(entries@ =~= before.push(entry).skip(1));
        }
        self.entries = entries;
    }

    /// A copy of the entries, oldest first.
    pub fn entries(&self) -> (v: Vec<LogEntry>)
        ensures
            v@ == self@,
    {
        clone_vec(&self.entries)
    }

    /// Removes every entry.
    pub fn clear(&mut self)
        ensures
            final(self)@ == Seq::<LogEntry>::empty(),
    {
        self.entries = Vec::new();
    }
}

/// `c` is a decimal digit.
pub open spec fn is_digit(c: char) -> bool {
    '0' <= c && c <= '9'
}

/// Every character of `s` is a decimal digit.
pub open spec fn all_digits(s: Seq<char>) -> bool {
    forall|i: int| 0 <= i < s.len() ==> is_digit(#[trigger] s[i])
}

/// A year as `%Y` prints it: four digits up to 9999, a `+` and five or more
/// digits after.
pub open spec fn year_form(y: Seq<char>) -> bool {
    ||| (y.len() == 4 && all_digits(y))
    ||| (y.len() >= 6 && y[0] == '+' && all_digits(y.skip(1)))
}

/// `-MM-DDTHH:MM:SS.mmmZ`: the part of a log time after the year.
pub open spec fn time_of_day_form(t: Seq<char>) -> bool {
    &&& t.len() == 20
    &&& t[0] == '-' && t[3] == '-' && t[6] == 'T' && t[9] == ':' && t[12] == ':' && t[15] == '.' && t[19] == 'Z'
    &&& is_digit(t[1]) && is_digit(t[2]) && is_digit(t[4]) && is_digit(t[5])
    &&& is_digit(t[7]) && is_digit(t[8]) && is_digit(t[10]) && is_digit(t[11])
    &&& is_digit(t[13]) && is_digit(t[14]) && is_digit(t[16]) && is_digit(t[17]) && is_digit(t[18])
}

/// The form of a log time, `YYYY-MM-DDTHH:MM:SS.mmmZ` in UTC (24 characters
/// for the years up to 9999).
pub open spec fn log_time_form(s: Seq<char>) -> bool {
    s.len() >= 24 && year_form(s.take(s.len() - 20)) && time_of_day_form(s.skip(s.len() - 20))
}

/// The current UTC time written with the log's format, from
/// `chrono::Utc::now().format(format)`. The clock is read, so only the form
/// of the text is stated: with that format chrono writes the year as four
/// digits (or, past 9999, a `+` and more digits), then two-digit month,
/// day, hours, minutes and seconds (60 in a leap second) with their
/// separators, a `.`, three digits of milliseconds and `Z`.
#[verifier::external_body]
fn utc_now_formatted(format: &str) -> (s: String)
    requires
        format@ == "%Y-%m-%dT%H:%M:%S%.3fZ"@,
    ensures
        log_time_form(s@),
{
    chrono::Utc::now().format(format).to_string()
}

/// The current time as the log shows it.
fn current_log_timestamp() -> (s: String)
    ensures
        log_time_form(s@),
{
    utc_now_formatted("%Y-%m-%dT%H:%M:%S%.3fZ")
}

/// Records a message at `level`, stamped with the current time.
pub fn add_to_buffer(buffer: &mut LogBuffer, level: &str, message: &str)
    ensures
        final(buffer)@ == newest(old(buffer)@.push(final(buffer)@.last()), MAX_BUFFER_ENTRIES as nat),
        final(buffer)@.last().level@ == level@,
        final(buffer)@.last().message@ == message@,
        log_time_form(final(buffer)@.last().timestamp@),
{
    let entry = LogEntry {
        timestamp: current_log_timestamp(),
        level: owned(level),
        message: owned(message),
    };
    buffer.push_entry(entry);
}

/// The entries of the buffer, oldest first.
pub fn get_log_entries(buffer: &LogBuffer) -> (v: Vec<LogEntry>)
    ensures
        v@ == buffer@,
{
    buffer.entries()
}

/// Empties the buffer.
pub fn clear_buffer(buffer: &mut LogBuffer)
    ensures
        final(buffer)@ == Seq::<LogEntry>::empty(),
{
    buffer.clear();
}

/// The last `n` entries of `entries`, oldest first (the dashboard shows ten).
pub fn recent_entries(entries: &Vec<LogEntry>, n: usize) -> (v: Vec<LogEntry>)
    ensures
        v@ == newest(entries@, n as nat),
{
    let start: usize = if entries.len() > n { entries.len() - n } else { 0 };
    let mut v: Vec<LogEntry> = Vec::new();
    let mut i: usize = start;
    while i < entries.len()
        invariant
            start <= i <= entries@.len(),
            start == (if entries@.len() > n { entries@.len() - n } else { 0 }),
            v@ == entries@.subrange(start as int, i as int),
        decreases entries@.len() - i,
    {
        v.push(entries[i].clone());
        assert(v@ =~= entries@.subrange(start as int, i + 1));
        i = i + 1;
    }
    assert(entries@.subrange(start as int, entries@.len() as int) =~= newest(entries@, n as nat));
    v
}

/// Which levels the log view shows.
#[derive(Clone, Copy, Debug)]
pub struct LogFilter {
    pub show_info: bool,
    pub show_warn: bool,
    pub show_error: bool,
    pub show_security: bool,
    pub show_debug: bool,
    pub auto_scroll: bool,
}

impl Default for LogFilter {
    /// Everything but debug lines is shown, and the view follows new lines.
    fn default() -> (f: LogFilter)
        ensures
            f.show_info && f.show_warn && f.show_error && f.show_security,
            !f.show_debug,
            f.auto_scroll,
    {
        LogFilter {
            show_info: true,
            show_warn: true,
            show_error: true,
            show_security: true,
            show_debug: false,
            auto_scroll: true,
        }
    }
}

impl LogFilter {
    /// Whether lines at `level` are shown; levels the filter does not know
    /// are always shown.
    pub open spec fn spec_allows(self, level: Seq<char>) -> bool {
        if level == "INFO"@ {
            self.show_info
        } else if level == "WARN"@ {
            self.show_warn
        } else if level == "ERROR"@ {
            self.show_error
        } else if level == "SECURITY"@ {
            self.show_security
        } else if level == "DEBUG"@ {
            self.show_debug
        } else {
            true
        }
    }

    /// Whether lines at `level` are shown.
    pub fn allows(&self, level: &str) -> (b: bool)
        ensures
            b == self.spec_allows(level@),
    {
        if str_eq(level, "INFO") {
            self.show_info
        } else if str_eq(level, "WARN") {
            self.show_warn
        } else if str_eq(level, "ERROR") {
            self.show_error
        } else if str_eq(level, "SECURITY") {
            self.show_security
        } else if str_eq(level, "DEBUG") {
            self.show_debug
        } else {
            true
        }
    }

    /// The entries the view shows, in order.
    pub fn filter_entries(&self, entries: &Vec<LogEntry>) -> (v: Vec<LogEntry>)
        ensures
            v@ == entries@.filter(|e: LogEntry| self.spec_allows(e.level@)),
    {
        let ghost pred = |e: LogEntry| self.spec_allows(e.level@);
        let mut v: Vec<LogEntry> = Vec::new();
        let mut i: usize = 0;
        while i < entries.len()
            invariant
                i <= entries@.len(),
                pred == (|e: LogEntry| self.spec_allows(e.level@)),
                v@ == entries@.take(i as int).filter(pred),
            decreases entries@.len() - i,
        {
            let keep = self.allows(entries[i].level.as_str());
            proof {
                entries@.take(i as int).lemma_filter_push(entries@[i as int], pred);
                assert(entries@.take(i as int).push(entries@[i as int]) =~= entries@.take(i + 1));
            }
            if keep {
                v.push(entries[i].clone());
            }
            i = i + 1;
        }
        assert(entries@.take(entries@.len() as int) =~= entries@);
        v
    }
}

/// Each level the log knows is governed by its own checkbox, and only by
/// it: INFO by `show_info`, WARN by `show_warn`, ERROR by `show_error`,
/// SECURITY by `show_security`, DEBUG by `show_debug`; any other level is
/// always shown. The view keeps exactly the entries whose level is shown.
pub proof fn lemma_each_level_follows_its_checkbox(f: LogFilter, entries: Seq<LogEntry>, e: LogEntry)
    ensures
        f.spec_allows("INFO"@) == f.show_info,
        f.spec_allows("WARN"@) == f.show_warn,
        f.spec_allows("ERROR"@) == f.show_error,
        f.spec_allows("SECURITY"@) == f.show_security,
        f.spec_allows("DEBUG"@) == f.show_debug,
        e.level@ != "INFO"@ && e.level@ != "WARN"@ && e.level@ != "ERROR"@ && e.level@ != "SECURITY"@
            && e.level@ != "DEBUG"@ ==> f.spec_allows(e.level@),
        entries.contains(e) ==> (entries.filter(|x: LogEntry| f.spec_allows(x.level@)).contains(e) <==> (
            (e.level@ == "INFO"@ ==> f.show_info)
            && (e.level@ == "WARN"@ ==> f.show_warn)
            && (e.level@ == "ERROR"@ ==> f.show_error)
            && (e.level@ == "SECURITY"@ ==> f.show_security)
            && (e.level@ == "DEBUG"@ ==> f.show_debug))),
{
    reveal_strlit("INFO");
    reveal_strlit("WARN");
    reveal_strlit("ERROR");
    reveal_strlit("SECURITY");
    reveal_strlit("DEBUG");
    // The five levels start with five different letters.
    assert("INFO"@[0] == 'I' && "WARN"@[0] == 'W' && "ERROR"@[0] == 'E' && "SECURITY"@[0] == 'S'
        && "DEBUG"@[0] == 'D');
    let pred = |x: LogEntry| f.spec_allows(x.level@);
    if entries.contains(e) {
        let k = choose|k: int| 0 <= k < entries.len() && entries[k] == e;
        if pred(e) {
            entries.lemma_filter_contains(pred, k);
        }
        if entries.filter(pred).contains(e) {
            let j = choose|j: int| 0 <= j < entries.filter(pred).len() && entries.filter(pred)[j] == e;
            entries.lemma_filter_pred(pred, j);
        }
    }
}

} // verus!
