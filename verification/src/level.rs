//! Severities, their urgency order, and what each one selects.

use vstd::prelude::*;

verus! {

/// How urgent a message is. `Error` is the most urgent, `Debug` the least.
#[derive(Debug, Clone, Copy, PartialEq, Eq, Structural)]
pub enum LogLevel {
    Error,
    Warn,
    Info,
    Debug,
}

/// The stream a line is written to.
#[derive(Debug, Clone, Copy, PartialEq, Eq, Structural)]
pub enum Stream {
    Stdout,
    Stderr,
}

/// The foreground colour a line is painted with.
#[derive(Debug, Clone, Copy, PartialEq, Eq, Structural)]
pub enum Color {
    White,
    Blue,
    Yellow,
    Red,
}

impl LogLevel {
    /// The rank used to compare urgency: a lower rank is more urgent.
    pub open spec fn rank(self) -> nat {
        match self {
            LogLevel::Error => 1,
            LogLevel::Warn => 2,
            LogLevel::Info => 3,
            LogLevel::Debug => 4,
        }
    }

    /// Whether a message of this level is emitted under `threshold`: it is at
    /// least as urgent as the threshold.
    pub open spec fn passes(self, threshold: LogLevel) -> bool {
        self.rank() <= threshold.rank()
    }

    /// `Warn` and `Error` go to standard error, `Info` and `Debug` to standard
    /// output.
    pub open spec fn spec_stream(self) -> Stream {
        match self {
            LogLevel::Error | LogLevel::Warn => Stream::Stderr,
            LogLevel::Info | LogLevel::Debug => Stream::Stdout,
        }
    }

    /// The colour of each level.
    pub open spec fn spec_color(self) -> Color {
        match self {
            LogLevel::Error => Color::Red,
            LogLevel::Warn => Color::Yellow,
            LogLevel::Info => Color::White,
            LogLevel::Debug => Color::Blue,
        }
    }

    /// The rank as a number.
    pub fn as_u8(&self) -> (r: u8)
        ensures
            r == self.rank(),
    {
        match self {
            LogLevel::Error => 1,
            LogLevel::Warn => 2,
            LogLevel::Info => 3,
            LogLevel::Debug => 4,
        }
    }

    /// The stream this level is written to.
    #[verifier::when_used_as_spec(spec_stream)]
    pub fn stream(self) -> (s: Stream)
        ensures
            s == self.spec_stream(),
    {
        match self {
            LogLevel::Warn | LogLevel::Error => Stream::Stderr,
            _ => Stream::Stdout,
        }
    }

    /// The colour this level is painted with.
    #[verifier::when_used_as_spec(spec_color)]
    pub fn color(self) -> (c: Color)
        ensures
            c == self.spec_color(),
    {
        match self {
            LogLevel::Info => Color::White,
            LogLevel::Debug => Color::Blue,
            LogLevel::Warn => Color::Yellow,
            LogLevel::Error => Color::Red,
        }
    }

    /// Ranks are the numbers one to four, and two levels with the same rank
    /// are the same level.
    pub proof fn lemma_rank_orders_levels(a: LogLevel, b: LogLevel)
        ensures
            1 <= a.rank() <= 4,
            a.rank() == b.rank() <==> a == b,
            a.passes(b) || b.passes(a),
    {
    }

    /// Under a `Debug` threshold every level is emitted.
    pub proof fn lemma_debug_threshold_passes_all(level: LogLevel)
        ensures
            level.passes(LogLevel::Debug),
    {
    }

    /// Under an `Error` threshold only `Error` is emitted.
    pub proof fn lemma_error_threshold_passes_only_error(level: LogLevel)
        ensures
            level.passes(LogLevel::Error) <==> level == LogLevel::Error,
    {
    }
}

} // verus!
