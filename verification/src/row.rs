//! One scramble from shuffled board to finished row: solve, invert, format,
//! replay the text, attach the picture.

use vstd::prelude::*;
use slidy::solver::size4x4::stm::solver::Solver;
use crate::board::{
    moves_of, option_grid, parse_moves, parsed_moves, random_state, replay_from_solved,
    replayed_from_solved, solve_state, Grid, PuzzleState,
};
use crate::moves::{invert, invert_spec, Move};
use crate::text::{format_moves, format_spec};

verus! {

/// Why a row, or a batch of rows, was not produced.
#[derive(Clone, Copy, Debug, PartialEq, Eq, Structural)]
pub enum ScrambleError {
    /// The solver found no way from the board to the solved board.
    Unsolvable,
    /// The engine could not read the formatted text back.
    ParseError,
    /// The formatted text does not lead from the solved board to the board
    /// it was made for.
    VerificationMismatch,
    /// No picture of the board could be drawn.
    RenderError,
    /// The surface that shows the rows did not take a row.
    SinkError,
}

/// The steps of a row that can fail, and the handing over of the row.
#[derive(Clone, Copy, Debug, PartialEq, Eq, Structural)]
pub enum Stage {
    Solving,
    Verifying,
    Rendering,
    Output,
}

impl ScrambleError {
    /// The step at which the failure comes up.
    pub open spec fn stage_spec(self) -> Stage {
        match self {
            ScrambleError::Unsolvable => Stage::Solving,
            ScrambleError::ParseError => Stage::Verifying,
            ScrambleError::VerificationMismatch => Stage::Verifying,
            ScrambleError::RenderError => Stage::Rendering,
            ScrambleError::SinkError => Stage::Output,
        }
    }

    /// The step at which the failure comes up.
    pub fn stage(self) -> (r: Stage)
        ensures
            r == self.stage_spec(),
    {
        match self {
            ScrambleError::Unsolvable => Stage::Solving,
            ScrambleError::ParseError => Stage::Verifying,
            ScrambleError::VerificationMismatch => Stage::Verifying,
            ScrambleError::RenderError => Stage::Rendering,
            ScrambleError::SinkError => Stage::Output,
        }
    }
}

/// A board with the moves that lead to it from the solved board and their
/// display text.
#[derive(Clone, Debug, PartialEq, Eq)]
pub struct Scramble {
    pub state: PuzzleState,
    pub moves: Vec<Move>,
    pub text: String,
}

/// One row of a scramble sheet.
#[derive(Clone, Debug, PartialEq, Eq)]
pub struct ScrambleRow {
    pub label: String,
    pub scramble_text: String,
    pub graphic: String,
    pub state: PuzzleState,
}

/// The board that a text leads to from the solved board, as the engine
/// reads and plays it.
pub open spec fn replay_spec(text: Seq<char>) -> Option<Grid> {
    match parsed_moves(text) {
        Some(moves) => replayed_from_solved(moves),
        None => None,
    }
}

/// The verdict on a replayed board: it has to be the claimed one.
pub open spec fn check_replay_spec(replayed: Option<Grid>, claimed: Grid) -> Result<
    (),
    ScrambleError,
> {
    if replayed == Some(claimed) {
        Ok(())
    } else {
        Err(ScrambleError::VerificationMismatch)
    }
}

/// The verdict on a text and the board it is claimed to lead to.
pub open spec fn verification_spec(text: Seq<char>, claimed: Grid) -> Result<(), ScrambleError> {
    match parsed_moves(text) {
        None => Err(ScrambleError::ParseError),
        Some(moves) => check_replay_spec(replayed_from_solved(moves), claimed),
    }
}

impl Scramble {
    /// The text is the display text of the moves at the given width, and
    /// read back and played on the solved board it leads to the board.
    pub open spec fn faithful(&self, width: nat) -> bool {
        &&& self.text@ == format_spec(self.moves@, width)
        &&& replay_spec(self.text@) == Some(self.state@)
    }
}

impl ScrambleRow {
    /// The text leads from the solved board to the row's board, and there
    /// is a picture.
    pub open spec fn faithful(&self) -> bool {
        &&& replay_spec(self.scramble_text@) == Some(self.state@)
        &&& self.graphic@.len() > 0
    }
}

/// A text that passes verification leads to the claimed board, and only
/// such a text passes.
pub proof fn lemma_verified_round_trip(text: Seq<char>, claimed: Grid)
    ensures
        verification_spec(text, claimed) is Ok <==> replay_spec(text) == Some(claimed),
        verification_spec(text, claimed) is Err ==> (verification_spec(text, claimed)
            == Err::<(), ScrambleError>(ScrambleError::ParseError) <==> parsed_moves(text) is None),
{
}

/// Compares the board that a replay reached with the claimed one.
pub fn check_replay(replayed: &Option<PuzzleState>, claimed: &PuzzleState) -> (r: Result<
    (),
    ScrambleError,
>)
    ensures
        r == check_replay_spec(option_grid(*replayed), claimed@),
{
    match replayed {
        Some(reached) => {
            if reached.same_as(claimed) {
                Ok(())
            } else {
                Err(ScrambleError::VerificationMismatch)
            }
        },
        None => Err(ScrambleError::VerificationMismatch),
    }
}

/// Reads the text back, plays it on the solved board and compares the
/// board reached with the claimed one. Nothing is repaired: a text that
/// cannot be read is a `ParseError`, any other difference a
/// `VerificationMismatch`.
pub fn verify_scramble(text: &str, claimed: &PuzzleState) -> (r: Result<(), ScrambleError>)
    ensures
        r == verification_spec(text@, claimed@),
{
    match parse_moves(text) {
        None => Err(ScrambleError::ParseError),
        Some(list) => {
            let replayed: Option<PuzzleState> = replay_from_solved(&list);
            check_replay(&replayed, claimed)
        },
    }
}

/// From a board and the solver's answer for it to a verified scramble: no
/// answer is `Unsolvable`; otherwise the answer is inverted, formatted at
/// `width` moves a line, and the text is verified against the board.
pub fn scramble_from_solution(
    state: PuzzleState,
    solution: Option<Vec<Move>>,
    width: usize,
) -> (r: Result<Scramble, ScrambleError>)
    requires
        width > 0,
    ensures
        match solution {
            None => r is Err && r->Err_0 == ScrambleError::Unsolvable,
            Some(path) => {
                let text = format_spec(invert_spec(path@), width as nat);
                match verification_spec(text, state@) {
                    Err(e) => r is Err && r->Err_0 == e,
                    Ok(_) => {
                        &&& r is Ok
                        &&& r->Ok_0.state@ == state@
                        &&& r->Ok_0.moves@ == invert_spec(path@)
                        &&& r->Ok_0.text@ == text
                        &&& r->Ok_0.faithful(width as nat)
                    },
                }
            },
        },
{
    match solution {
        None => Err(ScrambleError::Unsolvable),
        Some(path) => {
            let moves: Vec<Move> = invert(&path);
            let text: String = format_moves(&moves, width);
            match verify_scramble(text.as_str(), &state) {
                Err(e) => Err(e),
                Ok(_) => Ok(Scramble { state, moves, text }),
            }
        },
    }
}

/// Shuffles a board, has it solved and turns the answer into a verified
/// scramble. Which board comes out is up to chance; whatever comes back,
/// a scramble that is handed out is faithful.
pub fn make_scramble(solver: &Solver, width: usize) -> (r: Result<Scramble, ScrambleError>)
    requires
        width > 0,
    ensures
        r is Ok ==> r->Ok_0.faithful(width as nat) && r->Ok_0.state.well_formed(),
        r is Err ==> r->Err_0.stage_spec() == Stage::Solving || r->Err_0.stage_spec()
            == Stage::Verifying,
{
    let state: PuzzleState = random_state();
    let solution: Option<Vec<Move>> = match solve_state(solver, &state) {
        Some(list) => Some(moves_of(&list)),
        None => None,
    };
    scramble_from_solution(state, solution, width)
}

/// Puts label, scramble and picture together. No picture, or an empty
/// one, is a `RenderError`.
pub fn finish_row(label: String, scramble: Scramble, rendered: Option<String>) -> (r: Result<
    ScrambleRow,
    ScrambleError,
>)
    ensures
        match rendered {
            Some(graphic) if graphic@.len() > 0 => {
                &&& r is Ok
                &&& r->Ok_0.label@ == label@
                &&& r->Ok_0.scramble_text@ == scramble.text@
                &&& r->Ok_0.graphic@ == graphic@
                &&& r->Ok_0.state@ == scramble.state@
            },
            _ => r is Err && r->Err_0 == ScrambleError::RenderError,
        },
        r is Ok && replay_spec(scramble.text@) == Some(scramble.state@) ==> r->Ok_0.faithful(),
{
    match rendered {
        None => Err(ScrambleError::RenderError),
        Some(graphic) => {
            if graphic.as_str().is_empty() {
                Err(ScrambleError::RenderError)
            } else {
                Ok(
                    ScrambleRow {
                        label,
                        scramble_text: scramble.text,
                        graphic,
                        state: scramble.state,
                    },
                )
            }
        },
    }
}

} // verus!
