//! Log sink model.
//!
//! The library appends structured lines to a `Logger`; a background thread
//! outside the library drains them to the log file.  Keeping the queue as
//! plain state lets contracts say exactly when a component warns.

use vstd::prelude::*;

verus! {

/// Severity of one log line.
#[derive(Clone, Copy, Debug, PartialEq, Eq, Structural)]
pub enum LogLevel {
    Debug,
    Info,
    Warn,
    Error,
    M2Log,
}

/// One queued log line.
#[derive(Clone, Debug)]
pub struct LogLine {
    pub level: LogLevel,
    pub text: String,
}

/// The queue of lines waiting for the log writer.
#[derive(Debug)]
pub struct Logger {
    pub lines: Vec<LogLine>,
}

/// `new_lines` is `old_lines` with exactly one line of level `level` appended.
pub open spec fn spec_logged(old_lines: Seq<LogLine>, new_lines: Seq<LogLine>, level: LogLevel) -> bool {
    &&& new_lines.len() == old_lines.len() + 1
    &&& new_lines.subrange(0, old_lines.len() as int) == old_lines
    &&& new_lines.last().level == level
}

/// Number of lines of the given level; the drop count of a receive queue is
/// the number of warnings it logged.
pub open spec fn spec_count_level(lines: Seq<LogLine>, level: LogLevel) -> int
    decreases lines.len(),
{
    if lines.len() == 0 {
        0
    } else {
        spec_count_level(lines.drop_last(), level) + if lines.last().level == level {
            1int
        } else {
            0int
        }
    }
}

impl Logger {
    /// An empty queue.
    pub fn new() -> (r: Logger)
        ensures
            r.lines@ == Seq::<LogLine>::empty(),
    {
        Logger { lines: Vec::new() }
    }

    /// Appends one line.
    pub fn queue_msg(&mut self, level: LogLevel, msg: String)
        ensures
            final(self).lines@ == old(self).lines@.push(LogLine { level, text: msg }),
            spec_logged(old(self).lines@, final(self).lines@, level),
            final(self).lines@.last().text == msg,
    {
        self.lines.push(LogLine { level, text: msg });
        proof {
            assert(self.lines@.subrange(0, old(self).lines@.len() as int) =~= old(self).lines@);
        }
    }

    /// Number of queued lines of the given level.
    pub fn count_level(&self, level: LogLevel) -> (r: usize)
        requires
            self.lines@.len() <= usize::MAX,
        ensures
            r == spec_count_level(self.lines@, level),
    {
        let mut n: usize = 0;
        let mut k: usize = 0;
        while k < self.lines.len()
            invariant
                k <= self.lines@.len(),
                n == spec_count_level(self.lines@.take(k as int), level),
                n <= k,
            decreases self.lines@.len() - k,
        {
            proof {
                assert(self.lines@.take(k + 1).drop_last() =~= self.lines@.take(k as int));
                assert(self.lines@.take(k + 1).last() == self.lines@[k as int]);
            }
            if self.lines[k].level == level {
                n += 1;
            }
            k += 1;
        }
        proof {
            assert(self.lines@.take(self.lines@.len() as int) =~= self.lines@);
        }
        n
    }
}

/// Queues a debug line.
pub fn log_debug(log: &mut Logger, msg: String)
    ensures
        spec_logged(old(log).lines@, final(log).lines@, LogLevel::Debug),
        final(log).lines@.last().text == msg,
{
    log.queue_msg(LogLevel::Debug, msg);
}

/// Queues a debug line from a string literal.
pub fn log_debug_str(log: &mut Logger, msg: &str)
    ensures
        spec_logged(old(log).lines@, final(log).lines@, LogLevel::Debug),
        final(log).lines@.last().text@ == msg@,
{
    log.queue_msg(LogLevel::Debug, msg.to_owned());
}

/// Queues an error line.
pub fn log_error(log: &mut Logger, msg: String)
    ensures
        spec_logged(old(log).lines@, final(log).lines@, LogLevel::Error),
        final(log).lines@.last().text == msg,
{
    log.queue_msg(LogLevel::Error, msg);
}

/// Queues an error line from a string literal.
pub fn log_error_str(log: &mut Logger, msg: &str)
    ensures
        spec_logged(old(log).lines@, final(log).lines@, LogLevel::Error),
        final(log).lines@.last().text@ == msg@,
{
    log.queue_msg(LogLevel::Error, msg.to_owned());
}

/// Queues a warning line.
pub fn log_warn(log: &mut Logger, msg: String)
    ensures
        spec_logged(old(log).lines@, final(log).lines@, LogLevel::Warn),
        final(log).lines@.last().text == msg,
{
    log.queue_msg(LogLevel::Warn, msg);
}

/// Queues a warning line from a string literal.
pub fn log_warn_str(log: &mut Logger, msg: &str)
    ensures
        spec_logged(old(log).lines@, final(log).lines@, LogLevel::Warn),
        final(log).lines@.last().text@ == msg@,
{
    log.queue_msg(LogLevel::Warn, msg.to_owned());
}

/// Queues an info line.
pub fn log_info(log: &mut Logger, msg: String)
    ensures
        spec_logged(old(log).lines@, final(log).lines@, LogLevel::Info),
        final(log).lines@.last().text == msg,
{
    log.queue_msg(LogLevel::Info, msg);
}

/// Queues an info line from a string literal.
pub fn log_info_str(log: &mut Logger, msg: &str)
    ensures
        spec_logged(old(log).lines@, final(log).lines@, LogLevel::Info),
        final(log).lines@.last().text@ == msg@,
{
    log.queue_msg(LogLevel::Info, msg.to_owned());
}

/// Queues a line of text passed through from the adapter.
pub fn log_m2_msg(log: &mut Logger, msg: String)
    ensures
        spec_logged(old(log).lines@, final(log).lines@, LogLevel::M2Log),
        final(log).lines@.last().text == msg,
{
    log.queue_msg(LogLevel::M2Log, msg);
}

/// The prefix the log writer puts before a line of each severity.
pub fn level_prefix(level: LogLevel) -> (r: String)
    ensures
        level == LogLevel::Debug ==> r@ == "[DEBUG] - "@,
        level == LogLevel::Info ==> r@ == "[INFO ] - "@,
        level == LogLevel::Warn ==> r@ == "[WARN ] - "@,
        level == LogLevel::Error ==> r@ == "[ERROR] - "@,
        level == LogLevel::M2Log ==> r@ == "[M2LOG] - "@,
{
    match level {
        LogLevel::Debug => "[DEBUG] - ".to_owned(),
        LogLevel::Info => "[INFO ] - ".to_owned(),
        LogLevel::Warn => "[WARN ] - ".to_owned(),
        LogLevel::Error => "[ERROR] - ".to_owned(),
        LogLevel::M2Log => "[M2LOG] - ".to_owned(),
    }
}

} // verus!
