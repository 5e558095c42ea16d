//! The four compass directions and quarter turns between them.

use vstd::prelude::*;

verus! {

/// A compass direction.
#[derive(Clone, Copy, Debug, PartialEq, Eq, Structural)]
pub enum Direction {
    North,
    East,
    South,
    West,
}

impl Direction {
    /// The direction a quarter turn to the right of this one.
    pub open spec fn right(self) -> Direction {
        match self {
            Direction::North => Direction::East,
            Direction::East => Direction::South,
            Direction::South => Direction::West,
            Direction::West => Direction::North,
        }
    }

    /// The words that describe heading in this direction.
    pub open spec fn heading(self) -> Seq<char> {
        match self {
            Direction::North => "heading north"@,
            Direction::East => "heading east"@,
            Direction::South => "heading south"@,
            Direction::West => "heading west"@,
        }
    }
}

/// Describes heading in a direction.
pub fn describe_direction(dir: &Direction) -> (text: &'static str)
    ensures
        text@ == dir.heading(),
{
    match dir {
        Direction::North => "heading north",
        Direction::East => "heading east",
        Direction::South => "heading south",
        Direction::West => "heading west",
    }
}

/// Turns a quarter turn to the right.
pub fn turn_right(dir: Direction) -> (turned: Direction)
    ensures
        turned == dir.right(),
{
    match dir {
        Direction::North => Direction::East,
        Direction::East => Direction::South,
        Direction::South => Direction::West,
        Direction::West => Direction::North,
    }
}

/// A quarter turn always changes the direction, two quarter turns reverse
/// it, and four bring it back.
pub proof fn lemma_four_right_turns(dir: Direction)
    ensures
        dir.right() != dir,
        dir.right().right() != dir,
        dir.right().right().right() != dir,
        dir.right().right().right().right() == dir,
{
}

} // verus!
