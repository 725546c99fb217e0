//! Severities, the threshold that filters them, and the stream each one goes to.

use vstd::prelude::*;

verus! {

/// The severity of one record.
#[derive(Clone, Copy, Debug, PartialEq, Eq, Structural, Hash)]
pub enum Level {
    Error,
    Warn,
    Info,
    Debug,
    Trace,
}

/// The process-wide threshold: `Off`, or the least severe level still emitted.
#[derive(Clone, Copy, Debug, PartialEq, Eq, Structural, Hash)]
pub enum LevelFilter {
    Off,
    Error,
    Warn,
    Info,
    Debug,
    Trace,
}

/// One of the two text streams a line can be written to.
#[derive(Clone, Copy, Debug, PartialEq, Eq, Structural, Hash)]
pub enum Stream {
    Stdout,
    Stderr,
}

impl Level {
    /// How much detail the level carries: 1 for `Error` up to 5 for `Trace`.
    /// A lower number is a more severe level.
    pub open spec fn verbosity(self) -> nat {
        match self {
            Level::Error => 1,
            Level::Warn => 2,
            Level::Info => 3,
            Level::Debug => 4,
            Level::Trace => 5,
        }
    }

    /// The capitalised name under which the level appears in a line.
    pub open spec fn name(self) -> Seq<char> {
        match self {
            Level::Error => "Error"@,
            Level::Warn => "Warn"@,
            Level::Info => "Info"@,
            Level::Debug => "Debug"@,
            Level::Trace => "Trace"@,
        }
    }

    /// The threshold that admits this level and nothing less severe.
    pub open spec fn as_filter(self) -> LevelFilter {
        match self {
            Level::Error => LevelFilter::Error,
            Level::Warn => LevelFilter::Warn,
            Level::Info => LevelFilter::Info,
            Level::Debug => LevelFilter::Debug,
            Level::Trace => LevelFilter::Trace,
        }
    }

    /// The stream the level is routed to: the two most severe levels go to
    /// standard output, the other three to standard error.
    pub open spec fn stream(self) -> Stream {
        match self {
            Level::Error | Level::Warn => Stream::Stdout,
            Level::Info | Level::Debug | Level::Trace => Stream::Stderr,
        }
    }

    pub fn to_filter(self) -> (filter: LevelFilter)
        ensures
            filter == self.as_filter(),
    {
        match self {
            Level::Error => LevelFilter::Error,
            Level::Warn => LevelFilter::Warn,
            Level::Info => LevelFilter::Info,
            Level::Debug => LevelFilter::Debug,
            Level::Trace => LevelFilter::Trace,
        }
    }
}

impl LevelFilter {
    /// 0 for `Off`, then as [`Level::verbosity`].
    pub open spec fn verbosity(self) -> nat {
        match self {
            LevelFilter::Off => 0,
            LevelFilter::Error => 1,
            LevelFilter::Warn => 2,
            LevelFilter::Info => 3,
            LevelFilter::Debug => 4,
            LevelFilter::Trace => 5,
        }
    }

    /// Whether a process whose threshold is `self` lets `wanted` through:
    /// never when the threshold is `Off`, else when `wanted` asks for no more
    /// detail than the threshold gives.
    pub open spec fn admits(self, wanted: LevelFilter) -> bool {
        self != LevelFilter::Off && wanted.verbosity() <= self.verbosity()
    }

    fn rank(self) -> (r: u8)
        ensures
            r == self.verbosity(),
    {
        match self {
            LevelFilter::Off => 0,
            LevelFilter::Error => 1,
            LevelFilter::Warn => 2,
            LevelFilter::Info => 3,
            LevelFilter::Debug => 4,
            LevelFilter::Trace => 5,
        }
    }

    /// Compares two thresholds: see [`LevelFilter::admits`].
    pub fn allows(self, wanted: LevelFilter) -> (r: bool)
        ensures
            r == self.admits(wanted),
    {
        self.rank() != 0 && wanted.rank() <= self.rank()
    }
}

/// Whether a record at `level` is emitted under `threshold`.
pub open spec fn emits(level: Level, threshold: LevelFilter) -> bool {
    threshold.admits(level.as_filter())
}

/// The threshold rule. `Off` suppresses everything; any other threshold lets
/// through exactly the levels that are at least as severe as it.
pub fn enabled(level: Level, threshold: LevelFilter) -> (r: bool)
    ensures
        r == emits(level, threshold),
        threshold == LevelFilter::Off ==> !r,
        threshold != LevelFilter::Off ==> (r <==> level.verbosity() <= threshold.verbosity()),
{
    threshold.allows(level.to_filter())
}

/// The routing rule. `Warn` and `Error` go to standard output; `Trace`,
/// `Debug` and `Info` go to standard error. This is deliberate and is not
/// the usual "errors to standard error".
pub fn stream_for(level: Level) -> (stream: Stream)
    ensures
        stream == level.stream(),
        stream == Stream::Stdout <==> (level == Level::Warn || level == Level::Error),
        stream == Stream::Stderr <==> (level == Level::Trace || level == Level::Debug || level
            == Level::Info),
{
    match level {
        Level::Error | Level::Warn => Stream::Stdout,
        Level::Info | Level::Debug | Level::Trace => Stream::Stderr,
    }
}

/// The threshold rule is monotone: what passes a threshold passes every threshold that
/// gives more detail, and under one threshold every more severe level passes
/// too. Nothing passes `Off`.
pub proof fn threshold_is_monotone(level: Level, threshold: LevelFilter)
    ensures
        !emits(level, LevelFilter::Off),
        emits(level, level.as_filter()),
        forall|wider: LevelFilter|
            emits(level, threshold) && threshold.verbosity() <= wider.verbosity() ==> #[trigger] emits(
                level,
                wider,
            ),
        forall|graver: Level|
            emits(level, threshold) && graver.verbosity() <= level.verbosity() ==> #[trigger] emits(
                graver,
                threshold,
            ),
{
}

/// Every level has exactly one stream, and the stream depends on nothing but
/// the level.
pub proof fn routing_is_a_partition(level: Level)
    ensures
        level.stream() == Stream::Stdout <==> level.verbosity() <= 2,
        level.stream() == Stream::Stderr <==> level.verbosity() >= 3,
        (level.stream() == Stream::Stdout) != (level.stream() == Stream::Stderr),
{
}

} // verus!
