use vstd::prelude::*;

verus! {

/// Severity of a log event, from the most severe (`Error`) to the most
/// verbose (`Trace`).
#[derive(Clone, Copy, Debug, PartialEq, Eq, Structural)]
pub enum Level {
    Error,
    Warn,
    Info,
    Debug,
    Trace,
}

impl Level {
    /// Position in the severity order: lower is more severe.
    pub open spec fn spec_verbosity(self) -> nat {
        match self {
            Level::Error => 0,
            Level::Warn => 1,
            Level::Info => 2,
            Level::Debug => 3,
            Level::Trace => 4,
        }
    }

    /// Upper-case name of the level, as it appears at the start of a line.
    pub open spec fn spec_name(self) -> Seq<char> {
        match self {
            Level::Error => "ERROR"@,
            Level::Warn => "WARN"@,
            Level::Info => "INFO"@,
            Level::Debug => "DEBUG"@,
            Level::Trace => "TRACE"@,
        }
    }

    /// Position in the severity order: lower is more severe.
    pub fn verbosity(&self) -> (r: u8)
        ensures
            r as nat == self.spec_verbosity(),
    {
        match self {
            Level::Error => 0,
            Level::Warn => 1,
            Level::Info => 2,
            Level::Debug => 3,
            Level::Trace => 4,
        }
    }

    /// Whether this level is at least as severe as `threshold`.
    pub fn at_or_above(&self, threshold: Level) -> (r: bool)
        ensures
            r == (self.spec_verbosity() <= threshold.spec_verbosity()),
    {
        self.verbosity() <= threshold.verbosity()
    }

    /// Upper-case name of the level.
    pub fn name(&self) -> (r: &'static str)
        ensures
            r@ == self.spec_name(),
    {
        level_name(*self)
    }
}

/// Relies on log::Level::as_str: the upper-case name of the matching level
/// of the `log` crate, from its table "ERROR", "WARN", "INFO", "DEBUG",
/// "TRACE".
#[verifier::external_body]
fn level_name(level: Level) -> (r: &'static str)
    ensures
        r@ == level.spec_name(),
{
    let l = match level {
        Level::Error => log::Level::Error,
        Level::Warn => log::Level::Warn,
        Level::Info => log::Level::Info,
        Level::Debug => log::Level::Debug,
        Level::Trace => log::Level::Trace,
    };
    l.as_str()
}

} // verus!
