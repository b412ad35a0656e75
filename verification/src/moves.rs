//! Moves of the gap and sequences of them.

use vstd::prelude::*;

verus! {

/// The way a tile slides into the gap.
#[derive(Clone, Copy, Debug, PartialEq, Eq, Structural)]
pub enum Direction {
    Up,
    Left,
    Down,
    Right,
}

impl Direction {
    /// The opposite direction.
    pub open spec fn inverse_spec(self) -> Direction {
        match self {
            Direction::Up => Direction::Down,
            Direction::Left => Direction::Right,
            Direction::Down => Direction::Up,
            Direction::Right => Direction::Left,
        }
    }

    /// The letter that stands for the direction in a move list.
    pub open spec fn letter_spec(self) -> char {
        match self {
            Direction::Up => 'U',
            Direction::Left => 'L',
            Direction::Down => 'D',
            Direction::Right => 'R',
        }
    }

    /// Swaps up with down and left with right.
    pub fn inverse(self) -> (r: Direction)
        ensures
            r == self.inverse_spec(),
    {
        match self {
            Direction::Up => Direction::Down,
            Direction::Left => Direction::Right,
            Direction::Down => Direction::Up,
            Direction::Right => Direction::Left,
        }
    }
}

/// A slide of `amount` tiles in one direction.
#[derive(Clone, Copy, Debug, PartialEq, Eq, Structural)]
pub struct Move {
    pub direction: Direction,
    pub amount: u64,
}

impl Move {
    /// The move that undoes `self`: the same amount the other way.
    pub open spec fn inverse_spec(self) -> Move {
        Move { direction: self.direction.inverse_spec(), amount: self.amount }
    }

    pub fn new(direction: Direction, amount: u64) -> (r: Move)
        ensures
            r == (Move { direction, amount }),
    {
        Move { direction, amount }
    }

    /// The move that undoes `self`.
    pub fn inverse(self) -> (r: Move)
        ensures
            r == self.inverse_spec(),
    {
        Move { direction: self.direction.inverse(), amount: self.amount }
    }
}

/// The sequence that undoes `s`: its moves in reverse order, each inverted.
pub open spec fn invert_spec(s: Seq<Move>) -> Seq<Move> {
    Seq::new(s.len(), |i: int| s[s.len() - 1 - i].inverse_spec())
}

/// Inverts a move sequence: the order is reversed and each move is inverted.
pub fn invert(seq: &Vec<Move>) -> (r: Vec<Move>)
    ensures
        r@ == invert_spec(seq@),
{
    let n: usize = seq.len();
    let mut out: Vec<Move> = Vec::new();
    let mut i: usize = 0;
    while i < n
        invariant
            n == seq.len(),
            i <= n,
            out.len() == i,
            forall|j: int| 0 <= j < i ==> out[j] == seq[n - 1 - j].inverse_spec(),
        decreases n - i,
    {
        out.push(seq[n - 1 - i].inverse());
        i += 1;
    }
    assert(out@ =~= invert_spec(seq@));
    out
}

/// Inverting twice gives the sequence back, and inverting once keeps the
/// length.
pub proof fn lemma_invert_involution(s: Seq<Move>)
    ensures
        invert_spec(invert_spec(s)) == s,
        invert_spec(s).len() == s.len(),
{
    assert(invert_spec(invert_spec(s)) =~= s);
}

} // verus!
