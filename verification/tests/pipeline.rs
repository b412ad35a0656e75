use scramble_sheet::batch::Batch;
use scramble_sheet::board::PuzzleState;
use scramble_sheet::row::{make_scramble, verify_scramble, Scramble};
use scramble_sheet::text::format_moves;
use slidy::algorithm::algorithm::Algorithm;
use slidy::puzzle::color_scheme::{Black, ColorScheme, Scheme};
use slidy::puzzle::coloring::Rainbow;
use slidy::puzzle::label::label::SplitSquareFringe;
use slidy::puzzle::puzzle::Puzzle;
use slidy::puzzle::render::{RendererBuilder, Text};
use slidy::puzzle::size::Size;
use slidy::puzzle::sliding_puzzle::SlidingPuzzle;
use slidy::solver::size4x4::stm::solver::Solver;

fn engine_board(state: &PuzzleState) -> Puzzle {
    let size = Size::new(state.width, state.height).unwrap();
    Puzzle::with_pieces(state.pieces.clone(), size).unwrap()
}

fn replays_to_its_board(scramble_text: &str, state: &PuzzleState) -> bool {
    let list: Algorithm = scramble_text.parse().unwrap();
    let mut puzzle = Puzzle::default();
    puzzle.apply_alg(&list);
    puzzle == engine_board(state)
}

#[test]
fn scramble_replays_to_its_board() {
    let solver = Solver::new();
    for _ in 0..3 {
        let scramble: Scramble = make_scramble(&solver, 10).unwrap();
        assert_eq!(scramble.state.width, 4);
        assert_eq!(scramble.state.height, 4);
        let mut sorted = scramble.state.pieces.clone();
        sorted.sort();
        assert_eq!(sorted, (0..16u64).collect::<Vec<u64>>());
        assert_eq!(scramble.text, format_moves(&scramble.moves, 10));
        assert_eq!(verify_scramble(&scramble.text, &scramble.state), Ok(()));
        assert!(replays_to_its_board(&scramble.text, &scramble.state));
        let list: Algorithm = scramble.text.parse().unwrap();
        assert_eq!(list.moves().len(), scramble.moves.len());
        for (theirs, ours) in list.moves().iter().zip(scramble.moves.iter()) {
            assert_eq!(theirs.amount(), ours.amount);
        }
        for line in scramble.text.split('\n') {
            assert!(line.split_whitespace().count() <= 10);
        }
    }
}

#[test]
fn three_labels_give_three_rows_in_order() {
    let solver = Solver::new();
    let renderer = RendererBuilder::with_dyn_scheme(Box::new(Scheme::new(
        SplitSquareFringe,
        Rainbow::default(),
    )))
    .text(Text::with_scheme(Box::new(Black) as Box<dyn ColorScheme>).font_size(15.0))
    .tile_size(30.0)
    .build();
    let labels = vec![String::from("1"), String::from("2"), String::from("E1")];
    let mut batch = Batch::new(labels.clone());
    while batch.next_index().is_some() {
        match make_scramble(&solver, 10) {
            Err(error) => batch.fail(error),
            Ok(scramble) => {
                let rendered = renderer
                    .render(&engine_board(&scramble.state))
                    .ok()
                    .map(|svg| svg.to_string());
                batch.add(scramble, rendered);
            }
        }
    }
    assert_eq!(batch.failure, None);
    assert!(batch.is_complete());
    assert_eq!(batch.rows.len(), 3);
    for (row, label) in batch.rows.iter().zip(labels.iter()) {
        assert_eq!(&row.label, label);
        assert!(!row.graphic.is_empty());
        assert!(row.graphic.contains("svg"));
        assert_eq!(verify_scramble(&row.scramble_text, &row.state), Ok(()));
        assert!(replays_to_its_board(&row.scramble_text, &row.state));
    }
}
