use scramble_sheet::moves::{Direction, Move};
use scramble_sheet::text::{
    direction_letter, format_chars, format_line, format_moves, move_text, move_token,
    DEFAULT_CHUNK_WIDTH,
};

fn text_of(chars: Vec<char>) -> String {
    chars.into_iter().collect()
}

fn twelve_moves() -> Vec<Move> {
    let amounts: [u64; 12] = [1, 2, 1, 1, 3, 2, 1, 1, 4, 2, 1, 1];
    let directions = [Direction::Up, Direction::Left, Direction::Down, Direction::Right];
    let mut moves = Vec::new();
    for (i, amount) in amounts.iter().enumerate() {
        moves.push(Move::new(directions[i % 4], *amount));
    }
    moves
}

#[test]
fn default_width_is_ten() {
    assert_eq!(DEFAULT_CHUNK_WIDTH, 10);
}

#[test]
fn letters_of_the_directions() {
    assert_eq!(direction_letter(Direction::Up), 'U');
    assert_eq!(direction_letter(Direction::Left), 'L');
    assert_eq!(direction_letter(Direction::Down), 'D');
    assert_eq!(direction_letter(Direction::Right), 'R');
}

#[test]
fn move_text_leaves_out_an_amount_of_one() {
    assert_eq!(text_of(move_text(Move::new(Direction::Up, 1))), "U");
    assert_eq!(text_of(move_text(Move::new(Direction::Left, 3))), "L3");
    assert_eq!(text_of(move_text(Move::new(Direction::Down, 0))), "D0");
    assert_eq!(text_of(move_text(Move::new(Direction::Right, 10))), "R10");
    assert_eq!(text_of(move_text(Move::new(Direction::Right, 907))), "R907");
    assert_eq!(
        text_of(move_text(Move::new(Direction::Up, u64::MAX))),
        "U18446744073709551615"
    );
}

#[test]
fn move_text_agrees_with_the_engine() {
    for amount in [0u64, 1, 2, 9, 10, 11, 99, 100, 12345, u64::MAX] {
        let ours = text_of(move_text(Move::new(Direction::Left, amount)));
        let list: slidy::algorithm::algorithm::Algorithm =
            format!("L{}", amount).parse().unwrap();
        let theirs = list.moves()[0].to_string();
        assert_eq!(ours, theirs);
    }
}

#[test]
fn token_has_one_blank_after_a_single_move_only() {
    assert_eq!(text_of(move_token(Move::new(Direction::Up, 1))), "U ");
    assert_eq!(text_of(move_token(Move::new(Direction::Up, 2))), "U2");
    assert_eq!(text_of(move_token(Move::new(Direction::Right, 11))), "R11");
    assert_eq!(text_of(move_token(Move::new(Direction::Down, 0))), "D0");
    for amount in 0u64..40 {
        let token = text_of(move_token(Move::new(Direction::Down, amount)));
        assert_eq!(token.ends_with(' '), amount == 1);
        assert_eq!(token.matches(' ').count(), if amount == 1 { 1 } else { 0 });
    }
}

#[test]
fn empty_list_gives_empty_text() {
    assert_eq!(format_moves(&Vec::new(), 10), "");
    assert_eq!(format_moves(&Vec::new(), 1), "");
    assert_eq!(text_of(format_chars(&Vec::new(), 3)), "");
}

#[test]
fn short_list_gives_one_line() {
    let moves = vec![
        Move::new(Direction::Down, 2),
        Move::new(Direction::Right, 1),
        Move::new(Direction::Up, 1),
    ];
    assert_eq!(format_moves(&moves, 10), "D2 R  U ");
    assert_eq!(text_of(format_chars(&moves, 10)), "D2 R  U ");
    assert_eq!(format_moves(&moves, 3), "D2 R  U ");
}

#[test]
fn line_of_a_range() {
    let moves = twelve_moves();
    assert_eq!(text_of(format_line(&moves, 0, 0)), "");
    assert_eq!(text_of(format_line(&moves, 0, 1)), "U ");
    assert_eq!(text_of(format_line(&moves, 1, 4)), "L2 D  R ");
    assert_eq!(text_of(format_line(&moves, 10, 12)), "D  R ");
}

#[test]
fn twelve_moves_take_two_lines() {
    let text = format_moves(&twelve_moves(), 10);
    assert_eq!(text, "U  L2 D  R  U3 L2 D  R  U4 L2\nD  R ");
    let lines: Vec<&str> = text.split('\n').collect();
    assert_eq!(lines.len(), 2);
    assert_eq!(lines[0], "U  L2 D  R  U3 L2 D  R  U4 L2");
    assert_eq!(lines[1], "D  R ");
}

#[test]
fn full_lines_have_no_empty_line_after_them() {
    let moves: Vec<Move> = twelve_moves().into_iter().take(10).collect();
    assert_eq!(format_moves(&moves, 10), "U  L2 D  R  U3 L2 D  R  U4 L2");
    assert_eq!(format_moves(&moves, 5), "U  L2 D  R  U3\nL2 D  R  U4 L2");
    assert_eq!(format_moves(&moves, 2), "U  L2\nD  R \nU3 L2\nD  R \nU4 L2");
}

#[test]
fn width_one_puts_each_move_on_its_line() {
    let moves = vec![
        Move::new(Direction::Up, 1),
        Move::new(Direction::Left, 12),
        Move::new(Direction::Down, 1),
    ];
    assert_eq!(format_moves(&moves, 1), "U \nL12\nD ");
}

#[test]
fn line_count_is_length_over_width_rounded_up() {
    let all = twelve_moves();
    for len in 0..=12usize {
        for width in 1..=13usize {
            let moves: Vec<Move> = all.iter().take(len).cloned().collect();
            let text = format_moves(&moves, width);
            let expected = (len + width - 1) / width;
            let lines: Vec<&str> = if text.is_empty() {
                Vec::new()
            } else {
                text.split('\n').collect()
            };
            assert_eq!(lines.len(), expected);
            let mut next = 0usize;
            for line in lines {
                assert!(!line.is_empty());
                let here = width.min(len - next);
                let tokens: Vec<String> = moves[next..next + here]
                    .iter()
                    .map(|m| text_of(move_token(*m)))
                    .collect();
                assert_eq!(line, tokens.join(" "));
                next += here;
            }
            assert_eq!(next, len);
        }
    }
}

#[test]
fn formatting_twice_gives_the_same_text() {
    let moves = twelve_moves();
    let copy = moves.clone();
    assert_eq!(format_moves(&moves, 10), format_moves(&copy, 10));
    assert_eq!(format_moves(&moves, 10), format_moves(&moves, 10));
    assert_eq!(format_moves(&moves, 4), text_of(format_chars(&copy, 4)));
}
