//! The levels of the logging sink.

use vstd::prelude::*;

verus! {

/// How much a logging sink lets through, and how urgent a message is.
///
/// The levels are declared from the quietest to the most talkative.
#[derive(Debug, Copy, Clone, PartialEq, Eq, PartialOrd, Ord, Hash, Structural)]
pub enum LogLevel {
    Disabled,
    Normal,
    Verbose,
}

impl LogLevel {
    /// The place of a level among the levels: 0 for `Disabled`, 1 for
    /// `Normal`, 2 for `Verbose`.
    pub open spec fn rank_spec(self) -> int {
        match self {
            LogLevel::Disabled => 0,
            LogLevel::Normal => 1,
            LogLevel::Verbose => 2,
        }
    }

    /// Returns the place of this level among the levels.
    pub fn rank(self) -> (rank: u32)
        ensures
            rank == self.rank_spec(),
    {
        match self {
            LogLevel::Disabled => 0,
            LogLevel::Normal => 1,
            LogLevel::Verbose => 2,
        }
    }

    /// Tells whether a sink set to `threshold` lets a message of this level
    /// through: exactly when the level is no higher than the threshold.
    pub fn passes(self, threshold: LogLevel) -> (through: bool)
        ensures
            through == (self.rank_spec() <= threshold.rank_spec()),
    {
        self.rank() <= threshold.rank()
    }

    /// A sink that is disabled lets no message of a higher level through, a
    /// verbose one lets every message through, and whatever passes a
    /// threshold passes every higher one.
    pub proof fn lemma_passes_monotone(self, lower: LogLevel, higher: LogLevel)
        requires
            lower.rank_spec() <= higher.rank_spec(),
        ensures
            self.rank_spec() <= lower.rank_spec() ==> self.rank_spec() <= higher.rank_spec(),
            self.rank_spec() <= LogLevel::Verbose.rank_spec(),
            self != LogLevel::Disabled ==> !(self.rank_spec() <= LogLevel::Disabled.rank_spec()),
    {
    }
}

} // verus!
