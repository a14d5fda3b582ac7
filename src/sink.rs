use vstd::prelude::*;
use vstd::string::StringExecFns;
use crate::level::Level;

verus! {

/// One log event: its level and its formatted message.
pub struct LogEvent {
    pub level: Level,
    pub message: String,
}

/// The line written for an event: the level's upper-case name, one space,
/// the message, and a newline.
pub open spec fn line_of(level: Level, message: Seq<char>) -> Seq<char> {
    level.spec_name() + seq![' '] + message + seq!['\n']
}

/// Whether an event at `level` passes `threshold`: it is at least as severe.
pub open spec fn admits(threshold: Level, level: Level) -> bool {
    level.spec_verbosity() <= threshold.spec_verbosity()
}

/// The sink that writes admitted events to the standard error stream. It
/// holds no state: what it admits depends on the threshold it is given, and
/// what it writes is handed back as a line for the caller to send.
#[derive(Clone, Copy, Debug, PartialEq, Eq, Structural)]
pub struct StderrLogger;

impl StderrLogger {
    /// Whether an event at `level` is admitted under `threshold`.
    pub fn is_enabled(&self, threshold: Level, level: Level) -> (r: bool)
        ensures
            r == admits(threshold, level),
    {
        level.at_or_above(threshold)
    }

    /// The line for an event, newline included.
    pub fn render(&self, level: Level, message: &str) -> (r: String)
        ensures
            r@ == line_of(level, message@),
    {
        let mut line = String::from_str(level.name());
        line.append(" ");
        line.append(message);
        line.append("\n");
        proof {
            reveal_strlit(" ");
            reveal_strlit("\n");
        }
        assert(line@ =~= line_of(level, message@));
        line
    }

    /// The line to write for `event` under `threshold`, or `None` where the
    /// threshold does not admit its level.
    pub fn emit(&self, threshold: Level, event: &LogEvent) -> (r: Option<String>)
        ensures
            admits(threshold, event.level) ==> r is Some && r->0@ == line_of(
                event.level,
                event.message@,
            ),
            !admits(threshold, event.level) ==> r is None,
    {
        if self.is_enabled(threshold, event.level) {
            Some(self.render(event.level, event.message.as_str()))
        } else {
            None
        }
    }

    /// Nothing is buffered, so there is nothing to flush.
    pub fn flush(&self) {
    }
}

} // verus!
