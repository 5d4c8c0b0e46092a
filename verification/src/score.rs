//! Scores out of a hundred and the marks they earn.

use vstd::prelude::*;

verus! {

/// A score.
#[derive(Clone, Copy, Debug, PartialEq, Eq, Structural)]
pub enum Score {
    Value(i8),
}

/// The mark that a score earns: five from 85 to 100, four from 65 to 84,
/// three from 51 to 64, and two for anything else.
pub open spec fn mark_of(value: int) -> int {
    if 85 <= value <= 100 {
        5
    } else if 65 <= value <= 84 {
        4
    } else if 51 <= value <= 64 {
        3
    } else {
        2
    }
}

impl Score {
    /// The points of the score.
    pub open spec fn points(self) -> int {
        match self {
            Score::Value(value) => value as int,
        }
    }

    /// Turns the score into a mark.
    pub fn to_mark(&self) -> (mark: i8)
        ensures
            mark == mark_of(self.points()),
    {
        let value: i8 = match self {
            Score::Value(v) => *v,
        };
        if 85 <= value && value <= 100 {
            5
        } else if 65 <= value && value <= 84 {
            4
        } else if 51 <= value && value <= 64 {
            3
        } else {
            2
        }
    }
}

/// A higher score never earns a lower mark, as long as it stays within the
/// hundred.
pub proof fn lemma_mark_grows_with_score(lower: int, higher: int)
    requires
        lower <= higher <= 100,
    ensures
        mark_of(lower) <= mark_of(higher),
{
}

} // verus!
