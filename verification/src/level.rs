use std::cmp::Ordering;
use vstd::prelude::*;

verus! {

/// Severity of an error, from the least to the most severe.
///
/// The levels are totally ordered by [`Level::rank`]:
/// `Debug < Info < Warning < Error < Fatal`.
#[derive(Debug, Clone, Copy, PartialEq, Eq, Structural)]
pub enum Level {
    Debug,
    Info,
    Warning,
    Error,
    Fatal,
}

impl Level {
    /// Position of the level in the severity order, starting at 0 for `Debug`.
    pub open spec fn rank(self) -> nat {
        match self {
            Level::Debug => 0,
            Level::Info => 1,
            Level::Warning => 2,
            Level::Error => 3,
            Level::Fatal => 4,
        }
    }

    /// How `self` stands to `other` in the severity order.
    pub open spec fn order(self, other: Level) -> Ordering {
        if self.rank() < other.rank() {
            Ordering::Less
        } else if self.rank() == other.rank() {
            Ordering::Equal
        } else {
            Ordering::Greater
        }
    }

    /// The rank as a number, as it is written where a level travels as an integer.
    pub fn to_rank(self) -> (rank: u8)
        ensures
            rank == self.rank(),
    {
        match self {
            Level::Debug => 0,
            Level::Info => 1,
            Level::Warning => 2,
            Level::Error => 3,
            Level::Fatal => 4,
        }
    }
}

impl Default for Level {
    /// The level of an error that states none: `Error`.
    fn default() -> (level: Self)
        ensures
            level == Level::Error,
    {
        Level::Error
    }
}

impl PartialOrd for Level {
    fn partial_cmp(&self, other: &Self) -> (r: Option<Ordering>) {
        let a: u8 = self.to_rank();
        let b: u8 = other.to_rank();
        if a < b {
            Some(Ordering::Less)
        } else if a == b {
            Some(Ordering::Equal)
        } else {
            Some(Ordering::Greater)
        }
    }
}

impl vstd::std_specs::cmp::PartialOrdSpecImpl for Level {
    open spec fn obeys_partial_cmp_spec() -> bool {
        true
    }

    open spec fn partial_cmp_spec(&self, other: &Self) -> Option<Ordering> {
        Some(self.order(*other))
    }
}

/// The severity order is total: two levels of the same rank are the same level,
/// and of two different levels exactly one is below the other.
pub proof fn lemma_level_order_total(a: Level, b: Level)
    ensures
        a.rank() == b.rank() <==> a == b,
        a.order(b) == Ordering::Equal <==> a == b,
        a.order(b) == Ordering::Less <==> b.order(a) == Ordering::Greater,
{
}

/// The severity order is transitive.
pub proof fn lemma_level_order_transitive(a: Level, b: Level, c: Level)
    requires
        a.order(b) == Ordering::Less,
        b.order(c) == Ordering::Less,
    ensures
        a.order(c) == Ordering::Less,
{
}

} // verus!
