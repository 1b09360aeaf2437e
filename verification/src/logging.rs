//! The bounded in-memory log: entries, levels, and a ring buffer of at
//! most 500 entries that evicts the oldest on overflow.  The tracing
//! layer that feeds it lives with the I/O; this is the buffer itself.

use vstd::prelude::*;
use vstd::string::StrSliceExecFns;
use vstd::string::StringExecFns;

verus! {

/// A message as the visitor receives it, with wrapping double quotes
/// removed: debug formatting puts them around string fields.  Anything
/// not wrapped in quotes is returned unchanged.
pub fn strip_wrapping_quotes(s: &str) -> (r: String)
    ensures
        (s@.len() >= 2 && s@[0] == '"' && s@[s@.len() - 1] == '"') ==> r@ == s@.subrange(
            1,
            s@.len() - 1,
        ),
        !(s@.len() >= 2 && s@[0] == '"' && s@[s@.len() - 1] == '"') ==> r@ == s@,
{
    let n = s.unicode_len();
    if n >= 2 && s.get_char(0) == '"' && s.get_char(n - 1) == '"' {
        s.substring_char(1, n - 1).to_owned()
    } else {
        s.to_owned()
    }
}

/// One captured log line.
#[derive(Debug)]
pub struct LogEntry {
    /// Wall-clock time, formatted `HH:MM:SS.mmm`.
    pub timestamp: String,
    /// The level's name.
    pub level: String,
    /// The module that emitted the line.
    pub target: String,
    /// The message text.
    pub message: String,
}

impl Clone for LogEntry {
    fn clone(&self) -> (res: Self)
        ensures
            res == *self,
    {
        LogEntry {
            timestamp: self.timestamp.clone(),
            level: self.level.clone(),
            target: self.target.clone(),
            message: self.message.clone(),
        }
    }
}

/// A log severity.
#[derive(Debug, Clone, Copy, PartialEq, Eq, Structural)]
pub enum LogLevel {
    Trace,
    Debug,
    Info,
    Warn,
    Error,
}

/// The level's display name.
pub fn level_to_string(level: LogLevel) -> (r: String)
    ensures
        level == LogLevel::Trace ==> r@ == "TRACE"@,
        level == LogLevel::Debug ==> r@ == "DEBUG"@,
        level == LogLevel::Info ==> r@ == "INFO"@,
        level == LogLevel::Warn ==> r@ == "WARN"@,
        level == LogLevel::Error ==> r@ == "ERROR"@,
{
    match level {
        LogLevel::Trace => String::from_str("TRACE"),
        LogLevel::Debug => String::from_str("DEBUG"),
        LogLevel::Info => String::from_str("INFO"),
        LogLevel::Warn => String::from_str("WARN"),
        LogLevel::Error => String::from_str("ERROR"),
    }
}

/// Highest number of entries the buffer keeps.
pub const MAX_LOG_ENTRIES: usize = 500;

/// A bounded log buffer: holds the most recent entries, oldest first.
pub struct LogBuffer {
    entries: Vec<LogEntry>,
}

impl View for LogBuffer {
    type V = Seq<LogEntry>;

    closed spec fn view(&self) -> Seq<LogEntry> {
        self.entries@
    }
}

impl LogBuffer {
    /// The buffer never holds more than [`MAX_LOG_ENTRIES`] entries.
    pub open spec fn wf(&self) -> bool {
        self@.len() <= MAX_LOG_ENTRIES as int
    }

    /// An empty buffer.
    pub fn new() -> (r: Self)
        ensures
            r@ == Seq::<LogEntry>::empty(),
            r.wf(),
    {
        LogBuffer { entries: Vec::new() }
    }

    /// Appends an entry; when the buffer is full the oldest entry
    /// leaves first.
    pub fn push(&mut self, entry: LogEntry)
        requires
            old(self).wf(),
        ensures
            final(self).wf(),
            final(self)@ == if old(self)@.len() >= MAX_LOG_ENTRIES as int {
                old(self)@.skip(1).push(entry)
            } else {
                old(self)@.push(entry)
            },
    {
        if self.entries.len() >= MAX_LOG_ENTRIES {
            self.entries.remove(0);
            proof {
                assert(self.entries@ =~= old(self)@.skip(1));
            }
        }
        self.entries.push(entry);
    }

    /// All entries, oldest first.
    pub fn get_all(&self) -> (r: Vec<LogEntry>)
        ensures
            r@ == self@,
    {
        let mut r: Vec<LogEntry> = Vec::new();
        let n = self.entries.len();
        let mut i: usize = 0;
        while i < n
            invariant
                i <= n,
                n == self.entries@.len(),
                r@ =~= self.entries@.take(i as int),
            decreases n - i,
        {
            r.push(self.entries[i].clone());
            proof {
                assert(r@ =~= self.entries@.take(i as int + 1));
            }
            i += 1;
        }
        proof {
            assert(self.entries@.take(n as int) =~= self.entries@);
        }
        r
    }

    /// The most recent `count` entries, oldest of them first; all of
    /// them when fewer are held.
    pub fn get_recent(&self, count: usize) -> (r: Vec<LogEntry>)
        ensures
            r@ == if count >= self@.len() {
                self@
            } else {
                self@.skip(self@.len() - count)
            },
    {
        let n = self.entries.len();
        let from: usize = if count >= n {
            0
        } else {
            n - count
        };
        let mut r: Vec<LogEntry> = Vec::new();
        let mut i: usize = from;
        while i < n
            invariant
                from <= i <= n,
                n == self.entries@.len(),
                r@ =~= self.entries@.subrange(from as int, i as int),
            decreases n - i,
        {
            r.push(self.entries[i].clone());
            proof {
                assert(r@ =~= self.entries@.subrange(from as int, i as int + 1));
            }
            i += 1;
        }
        proof {
            if count >= n {
                assert(self.entries@.subrange(0, n as int) =~= self.entries@);
            } else {
                assert(self.entries@.subrange(from as int, n as int) =~= self.entries@.skip(
                    from as int,
                ));
            }
        }
        r
    }

    /// Removes every entry.
    pub fn clear(&mut self)
        ensures
            final(self)@ == Seq::<LogEntry>::empty(),
            final(self).wf(),
    {
        self.entries.clear();
    }

    /// How many entries are held.
    pub fn len(&self) -> (r: usize)
        ensures
            r == self@.len(),
    {
        self.entries.len()
    }

    /// Whether no entry is held.
    pub fn is_empty(&self) -> (r: bool)
        ensures
            r == (self@.len() == 0),
    {
        self.entries.is_empty()
    }
}

} // verus!
