//! Directions and actions, with the integer codes that the remote systems expect.
use crate::felt::Felt;
use vstd::prelude::*;

verus! {

/// The eight compass directions a player can move or defuse towards.
#[derive(Clone, Copy, Debug, PartialEq, Eq, Structural)]
pub enum Direction {
    Left,
    UpLeft,
    Up,
    UpRight,
    Right,
    DownRight,
    Down,
    DownLeft,
}

/// Wire code of a direction.
pub open spec fn direction_code(d: Direction) -> u8 {
    match d {
        Direction::Left => 0,
        Direction::UpLeft => 1,
        Direction::Up => 2,
        Direction::UpRight => 3,
        Direction::Right => 4,
        Direction::DownRight => 5,
        Direction::Down => 6,
        Direction::DownLeft => 7,
    }
}

impl Direction {
    /// The wire code of the direction.
    pub fn code(self) -> (r: u8)
        ensures
            r == direction_code(self),
            r <= 7,
    {
        match self {
            Direction::Left => 0,
            Direction::UpLeft => 1,
            Direction::Up => 2,
            Direction::UpRight => 3,
            Direction::Right => 4,
            Direction::DownRight => 5,
            Direction::Down => 6,
            Direction::DownLeft => 7,
        }
    }
}

/// A cautious or a risky move.
#[derive(Clone, Copy, Debug, PartialEq, Eq, Structural)]
pub enum Action {
    Safe,
    Unsafe,
}

/// Wire code of an action.
pub open spec fn action_code(a: Action) -> u8 {
    match a {
        Action::Safe => 0,
        Action::Unsafe => 1,
    }
}

impl Action {
    /// The wire code of the action.
    pub fn code(self) -> (r: u8)
        ensures
            r == action_code(self),
    {
        match self {
            Action::Safe => 0,
            Action::Unsafe => 1,
        }
    }
}

impl From<Direction> for Felt {
    fn from(d: Direction) -> (r: Felt)
        ensures
            r.value() == direction_code(d) as nat,
    {
        Felt::from_u64(d.code() as u64)
    }
}

impl vstd::std_specs::convert::FromSpecImpl<Direction> for Felt {
    open spec fn obeys_from_spec() -> bool {
        false
    }

    open spec fn from_spec(d: Direction) -> Felt {
        arbitrary()
    }
}

impl From<Action> for Felt {
    fn from(a: Action) -> (r: Felt)
        ensures
            r.value() == action_code(a) as nat,
    {
        Felt::from_u64(a.code() as u64)
    }
}

impl vstd::std_specs::convert::FromSpecImpl<Action> for Felt {
    open spec fn obeys_from_spec() -> bool {
        false
    }

    open spec fn from_spec(a: Action) -> Felt {
        arbitrary()
    }
}

/// Distinct directions have distinct codes, and the codes are exactly zero to seven.
pub proof fn lemma_direction_codes_distinct(a: Direction, b: Direction)
    ensures
        direction_code(a) <= 7,
        a != b ==> direction_code(a) != direction_code(b),
{
}

} // verus!
