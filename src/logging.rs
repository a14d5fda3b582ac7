use vstd::prelude::*;
use crate::level::Level;
use crate::sink::{admits, line_of, LogEvent, StderrLogger};

verus! {

/// The one error of registration: a sink was installed already.
#[derive(Clone, Copy, Debug, PartialEq, Eq, Structural)]
pub struct AlreadyInstalled;

/// What a `Logging` context holds, in the abstract: whether a sink has been
/// installed, and the threshold, if one has been set.
pub struct LoggingState {
    pub installed: bool,
    pub threshold: Option<Level>,
}

impl LoggingState {
    /// Nothing installed, no threshold.
    pub open spec fn initial() -> LoggingState {
        LoggingState { installed: false, threshold: None }
    }

    /// The state after an installation, and its result: the first one
    /// succeeds, any later one fails and changes nothing.
    pub open spec fn after_install(self) -> (LoggingState, Result<(), AlreadyInstalled>) {
        if self.installed {
            (self, Err(AlreadyInstalled))
        } else {
            (LoggingState { installed: true, ..self }, Ok(()))
        }
    }

    /// The state after the threshold is set to `level`.
    pub open spec fn after_set_threshold(self, level: Level) -> LoggingState {
        LoggingState { threshold: Some(level), ..self }
    }

    /// Whether an event at `level` reaches the sink: a sink is installed, a
    /// threshold is set, and it admits the level.
    pub open spec fn routes(self, level: Level) -> bool {
        &&& self.installed
        &&& self.threshold is Some
        &&& admits(self.threshold->0, level)
    }

    /// The line written for an event, if any.
    pub open spec fn output(self, level: Level, message: Seq<char>) -> Option<Seq<char>> {
        if self.routes(level) {
            Some(line_of(level, message))
        } else {
            None
        }
    }
}

/// The process-wide logging facility as an explicit value: an install-once
/// slot for the sink, and the threshold that filters every event.
pub struct Logging {
    sink: Option<StderrLogger>,
    threshold: Option<Level>,
}

impl View for Logging {
    type V = LoggingState;

    closed spec fn view(&self) -> LoggingState {
        LoggingState { installed: self.sink is Some, threshold: self.threshold }
    }
}

impl Logging {
    /// A facility with no sink and no threshold: every event is dropped.
    pub fn new() -> (r: Logging)
        ensures
            r@ == LoggingState::initial(),
    {
        Logging { sink: None, threshold: None }
    }

    /// Installs `sink` as the target of all later events. Fails with
    /// `AlreadyInstalled`, leaving the installed sink in place, when one
    /// was installed before.
    pub fn install(&mut self, sink: StderrLogger) -> (r: Result<(), AlreadyInstalled>)
        ensures
            (final(self)@, r) == old(self)@.after_install(),
    {
        if self.sink.is_some() {
            Err(AlreadyInstalled)
        } else {
            self.sink = Some(sink);
            Ok(())
        }
    }

    /// Sets the threshold; the last call wins.
    pub fn set_threshold(&mut self, level: Level)
        ensures
            final(self)@ == old(self)@.after_set_threshold(level),
    {
        self.threshold = Some(level);
    }

    /// Whether a sink is installed.
    pub fn is_installed(&self) -> (r: bool)
        ensures
            r == self@.installed,
    {
        self.sink.is_some()
    }

    /// The threshold, if one has been set.
    pub fn threshold(&self) -> (r: Option<Level>)
        ensures
            r == self@.threshold,
    {
        self.threshold
    }

    /// Whether an event at `level` would reach the installed sink.
    pub fn is_enabled(&self, level: Level) -> (r: bool)
        ensures
            r == self@.routes(level),
    {
        match (&self.sink, self.threshold) {
            (Some(sink), Some(threshold)) => sink.is_enabled(threshold, level),
            _ => false,
        }
    }

    /// Routes an event to the installed sink: the line to write to the
    /// standard error stream, or `None` where no sink is installed, no
    /// threshold is set, or the threshold does not admit the level.
    pub fn dispatch(&self, level: Level, message: &str) -> (r: Option<String>)
        ensures
            r matches Some(line) ==> self@.output(level, message@) == Some(line@),
            r is None ==> self@.output(level, message@) is None,
    {
        match (&self.sink, self.threshold) {
            (Some(sink), Some(threshold)) => {
                let event = LogEvent { level, message: String::from_str(message) };
                sink.emit(threshold, &event)
            },
            _ => None,
        }
    }
}

/// Installing twice: the second installation fails with `AlreadyInstalled`
/// and leaves the state of the first one, installed sink included, as it
/// was.
pub proof fn lemma_second_install_fails(s: LoggingState)
    ensures
        ({
            let first = s.after_install().0;
            &&& first.installed
            &&& first.after_install() == (first, Err::<(), AlreadyInstalled>(AlreadyInstalled))
        }),
{
}

/// Before any installation, an event at any level, whatever the threshold,
/// produces no line.
pub proof fn lemma_uninstalled_drops(s: LoggingState, level: Level, message: Seq<char>)
    requires
        !s.installed,
    ensures
        s.output(level, message) is None,
{
}

/// After installing a sink and setting the threshold to `Info`, an event at
/// `Debug` or `Trace` produces no line, and one at `Error`, `Warn` or `Info`
/// produces exactly its own line, `"<LEVEL> <message>"`.
pub proof fn lemma_info_threshold(s: LoggingState, level: Level, message: Seq<char>)
    ensures
        ({
            let t = s.after_install().0.after_set_threshold(Level::Info);
            &&& (level == Level::Debug || level == Level::Trace) ==> t.output(level, message) is None
            &&& (level == Level::Error || level == Level::Warn || level == Level::Info)
                ==> t.output(level, message) == Some(line_of(level, message))
        }),
{
}

/// Under a threshold that admits every level, with a sink installed, each
/// event of a sequence produces exactly one line, its own: none is lost and
/// none is duplicated.
pub proof fn lemma_trace_keeps_every_event(s: LoggingState, events: Seq<(Level, Seq<char>)>)
    requires
        s.installed,
        s.threshold == Some(Level::Trace),
    ensures
        forall|i: int|
            0 <= i < events.len() ==> #[trigger] s.output(events[i].0, events[i].1) == Some(
                line_of(events[i].0, events[i].1),
            ),
{
}

} // verus!
