//! The board, and the puzzle engine's part of the work: shuffling a board,
//! solving it, reading a move list and playing it on the solved board.

use vstd::prelude::*;
use slidy::algorithm::algorithm::Algorithm;
use slidy::algorithm::direction;
use slidy::puzzle::puzzle::Puzzle;
use slidy::puzzle::scrambler::{RandomState, Scrambler};
use slidy::puzzle::size::Size;
use slidy::puzzle::sliding_puzzle::SlidingPuzzle;
use slidy::solver::size4x4::stm::solver::Solver;
use crate::moves::{Direction, Move};

verus! {

/// The engine's solver for boards of four by four: its tables are built
/// once and only read afterwards.
#[verifier::external_type_specification]
#[verifier::external_body]
pub struct SolverHandle(Solver);

/// The engine's move list.
#[verifier::external_type_specification]
#[verifier::external_body]
pub struct EngineMoveList(Algorithm);

/// What a board is in contracts: its measures and its cells row by row,
/// 0 for the gap.
pub struct Grid {
    pub width: u64,
    pub height: u64,
    pub cells: Seq<u64>,
}

/// A board: its measures and its cells row by row, 0 for the gap.
#[derive(Clone, Debug, PartialEq, Eq)]
pub struct PuzzleState {
    pub width: u64,
    pub height: u64,
    pub pieces: Vec<u64>,
}

impl View for PuzzleState {
    type V = Grid;

    open spec fn view(&self) -> Grid {
        Grid { width: self.width, height: self.height, cells: self.pieces@ }
    }
}

/// The solved board of four by four: 1 to 15 in order, then the gap.
pub open spec fn solved_grid() -> Grid {
    Grid {
        width: 4,
        height: 4,
        cells: Seq::new(
            16,
            |i: int|
                if i < 15 {
                    (i + 1) as u64
                } else {
                    0u64
                },
        ),
    }
}

/// A view, where there is a board.
pub open spec fn option_grid(state: Option<PuzzleState>) -> Option<Grid> {
    match state {
        Some(s) => Some(s@),
        None => None,
    }
}

impl PuzzleState {
    /// The board has a cell for each place of its measures and nothing more.
    pub open spec fn well_formed(&self) -> bool {
        &&& self.width > 0
        &&& self.height > 0
        &&& self.pieces@.len() == self.width * self.height
    }

    /// The solved board of four by four.
    pub fn solved() -> (r: PuzzleState)
        ensures
            r@ == solved_grid(),
            r.well_formed(),
    {
        let mut pieces: Vec<u64> = Vec::new();
        let mut i: u64 = 1;
        while i < 16
            invariant
                1 <= i <= 16,
                pieces@.len() == i - 1,
                forall|j: int| 0 <= j < i - 1 ==> pieces@[j] == (j + 1) as u64,
            decreases 16 - i,
        {
            pieces.push(i);
            i += 1;
        }
        pieces.push(0);
        assert(pieces@ =~= solved_grid().cells);
        PuzzleState { width: 4, height: 4, pieces }
    }

    /// Whether two boards are the same: the same measures and the same
    /// piece in every cell.
    pub fn same_as(&self, other: &PuzzleState) -> (r: bool)
        ensures
            r == (self@ == other@),
    {
        if self.width != other.width || self.height != other.height {
            return false;
        }
        let n: usize = self.pieces.len();
        if other.pieces.len() != n {
            return false;
        }
        let mut i: usize = 0;
        while i < n
            invariant
                n == self.pieces.len(),
                n == other.pieces.len(),
                i <= n,
                forall|j: int| 0 <= j < i ==> self.pieces@[j] == other.pieces@[j],
            decreases n - i,
        {
            if self.pieces[i] != other.pieces[i] {
                return false;
            }
            i += 1;
        }
        assert(self.pieces@ =~= other.pieces@);
        true
    }

    /// Whether this is the solved board of four by four.
    pub fn is_solved(&self) -> (r: bool)
        ensures
            r == (self@ == solved_grid()),
    {
        let solved = PuzzleState::solved();
        self.same_as(&solved)
    }
}

/// The moves that an engine move list holds, in order.
pub uninterp spec fn engine_moves(list: Algorithm) -> Seq<Move>;

/// What the engine reads out of a text: the moves, or nothing where it
/// rejects the text.
pub uninterp spec fn parsed_moves(text: Seq<char>) -> Option<Seq<Move>>;

/// Where the engine gets from the solved board by the given moves: the
/// board reached, or nothing where a move would push the gap off the board.
pub uninterp spec fn replayed_from_solved(moves: Seq<Move>) -> Option<Grid>;

/// `RandomState::scramble` on the engine's default board. Which board comes
/// out is up to chance; the contract claims only that it still measures
/// four by four and has its sixteen cells.
#[verifier::external_body]
pub(crate) fn random_state() -> (r: PuzzleState)
    ensures
        r.width == 4,
        r.height == 4,
        r.pieces@.len() == 16,
{
    let mut puzzle = Puzzle::default();
    RandomState.scramble(&mut puzzle);
    let (width, height) = puzzle.size().into();
    PuzzleState { width, height, pieces: puzzle.pieces().to_vec() }
}

/// The solver's `solve` on the engine's copy of the board. Nothing is
/// claimed of the answer: nothing comes back where the engine rejects the
/// board or the solver reports a failure.
#[verifier::external_body]
pub(crate) fn solve_state(solver: &Solver, state: &PuzzleState) -> (r: Option<Algorithm>)
    requires
        state.well_formed(),
{
    let size = Size::new(state.width, state.height).ok()?;
    let puzzle = Puzzle::with_pieces(state.pieces.clone(), size).ok()?;
    slidy::solver::solver::Solver::solve(solver, &puzzle).ok()
}

/// `Algorithm::moves`, each move copied out as a direction and an amount.
#[verifier::external_body]
pub(crate) fn moves_of(list: &Algorithm) -> (r: Vec<Move>)
    ensures
        r@ == engine_moves(*list),
{
    let mut out = Vec::new();
    for m in list.moves() {
        let direction = match m.direction() {
            direction::Direction::Up => Direction::Up,
            direction::Direction::Left => Direction::Left,
            direction::Direction::Down => Direction::Down,
            direction::Direction::Right => Direction::Right,
        };
        out.push(Move { direction, amount: m.amount() });
    }
    out
}

/// The engine's parser for move lists (`Algorithm::from_str`). The
/// contract names what it reads and claims nothing more of it.
#[verifier::external_body]
pub(crate) fn parse_moves(text: &str) -> (r: Option<Algorithm>)
    ensures
        r is Some <==> parsed_moves(text@) is Some,
        r is Some ==> parsed_moves(text@) == Some(engine_moves(r->0)),
{
    text.parse::<Algorithm>().ok()
}

/// `try_apply_alg` on the engine's default board. The contract names the
/// board that is reached and claims nothing more of it.
#[verifier::external_body]
pub(crate) fn replay_from_solved(list: &Algorithm) -> (r: Option<PuzzleState>)
    ensures
        option_grid(r) == replayed_from_solved(engine_moves(*list)),
{
    let mut puzzle = Puzzle::default();
    match puzzle.try_apply_alg(list) {
        true => {
            let (width, height) = puzzle.size().into();
            Some(PuzzleState { width, height, pieces: puzzle.pieces().to_vec() })
        },
        false => None,
    }
}

} // verus!
