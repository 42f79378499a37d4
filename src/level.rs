use vstd::prelude::*;

verus! {

/// Severity of a message, from most severe (`Error`) to least (`Trace`).
#[derive(Clone, Copy, Debug, PartialEq, Eq, Structural, Hash)]
pub enum Level {
    Error,
    Warn,
    Info,
    Debug,
    Trace,
}

/// The threshold: the least severe level that is still admitted,
/// or `Off` when nothing passes.
#[derive(Clone, Copy, Debug, PartialEq, Eq, Structural, Hash)]
pub enum LevelFilter {
    Off,
    Error,
    Warn,
    Info,
    Debug,
    Trace,
}

impl Level {
    /// Rank of a level: 1 for `Error` up to 5 for `Trace`; a lower rank is
    /// more severe.
    pub open spec fn rank(self) -> int {
        match self {
            Level::Error => 1,
            Level::Warn => 2,
            Level::Info => 3,
            Level::Debug => 4,
            Level::Trace => 5,
        }
    }

    /// `self` is strictly more severe than `other`.
    pub open spec fn more_severe(self, other: Level) -> bool {
        self.rank() < other.rank()
    }

    /// The filter whose threshold is exactly this level.
    pub open spec fn spec_to_filter(self) -> LevelFilter {
        match self {
            Level::Error => LevelFilter::Error,
            Level::Warn => LevelFilter::Warn,
            Level::Info => LevelFilter::Info,
            Level::Debug => LevelFilter::Debug,
            Level::Trace => LevelFilter::Trace,
        }
    }

    pub fn to_level_filter(self) -> (r: LevelFilter)
        ensures
            r == self.spec_to_filter(),
            r.rank() == self.rank(),
    {
        match self {
            Level::Error => LevelFilter::Error,
            Level::Warn => LevelFilter::Warn,
            Level::Info => LevelFilter::Info,
            Level::Debug => LevelFilter::Debug,
            Level::Trace => LevelFilter::Trace,
        }
    }

    /// Whether `self` is strictly more severe than `other`.
    pub fn is_more_severe_than(self, other: Level) -> (r: bool)
        ensures
            r == self.more_severe(other),
    {
        self.rank_u8() < other.rank_u8()
    }

    fn rank_u8(self) -> (r: u8)
        ensures
            r as int == self.rank(),
    {
        match self {
            Level::Error => 1,
            Level::Warn => 2,
            Level::Info => 3,
            Level::Debug => 4,
            Level::Trace => 5,
        }
    }
}

impl LevelFilter {
    /// Rank of a threshold: 0 for `Off` up to 5 for `Trace`.
    pub open spec fn rank(self) -> int {
        match self {
            LevelFilter::Off => 0,
            LevelFilter::Error => 1,
            LevelFilter::Warn => 2,
            LevelFilter::Info => 3,
            LevelFilter::Debug => 4,
            LevelFilter::Trace => 5,
        }
    }

    /// A message at `level` passes this threshold when it is at least as
    /// severe as the threshold.
    pub open spec fn admits(self, level: Level) -> bool {
        level.rank() <= self.rank()
    }

    /// Whether a message at `level` passes this threshold.
    pub fn allows(self, level: Level) -> (r: bool)
        ensures
            r == self.admits(level),
    {
        level.rank_u8() <= self.rank_u8()
    }

    fn rank_u8(self) -> (r: u8)
        ensures
            r as int == self.rank(),
    {
        match self {
            LevelFilter::Off => 0,
            LevelFilter::Error => 1,
            LevelFilter::Warn => 2,
            LevelFilter::Info => 3,
            LevelFilter::Debug => 4,
            LevelFilter::Trace => 5,
        }
    }
}

} // verus!
