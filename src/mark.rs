use vstd::prelude::*;

verus! {

/// What occupies one cell: a player's mark, or nothing yet.
#[derive(Clone, Copy, Debug, PartialEq, Eq, Structural)]
pub enum Mark {
    First,
    Second,
    Empty,
}

/// Where a game stands after a move.
#[derive(Clone, Copy, Debug, PartialEq, Eq, Structural)]
pub enum Outcome {
    InProgress,
    Draw,
    FirstWins,
    SecondWins,
}

/// A mark that belongs to a player (not `Empty`).
pub open spec fn is_player(m: Mark) -> bool {
    m is First || m is Second
}

/// The other player; `Empty` has no opponent and maps to itself.
pub open spec fn opponent_of(m: Mark) -> Mark {
    match m {
        Mark::First => Mark::Second,
        Mark::Second => Mark::First,
        Mark::Empty => Mark::Empty,
    }
}

/// The outcome in which the owner of `m` has won; `Empty` wins nothing.
pub open spec fn win_for(m: Mark) -> Outcome {
    match m {
        Mark::First => Outcome::FirstWins,
        Mark::Second => Outcome::SecondWins,
        Mark::Empty => Outcome::InProgress,
    }
}

impl Mark {
    /// The player whose turn follows this one.
    pub fn opponent(self) -> (r: Mark)
        ensures
            r == opponent_of(self),
    {
        match self {
            Mark::First => Mark::Second,
            Mark::Second => Mark::First,
            Mark::Empty => Mark::Empty,
        }
    }
}

impl From<Mark> for Outcome {
    fn from(m: Mark) -> (r: Outcome)
        ensures
            r == win_for(m),
    {
        match m {
            Mark::First => Outcome::FirstWins,
            Mark::Second => Outcome::SecondWins,
            Mark::Empty => Outcome::InProgress,
        }
    }
}

impl vstd::std_specs::convert::FromSpecImpl<Mark> for Outcome {
    open spec fn obeys_from_spec() -> bool {
        true
    }

    open spec fn from_spec(m: Mark) -> Outcome {
        win_for(m)
    }
}

} // verus!
