use scramble_sheet::moves::{invert, Direction, Move};

#[test]
fn direction_inverse_swaps_opposites() {
    assert_eq!(Direction::Up.inverse(), Direction::Down);
    assert_eq!(Direction::Down.inverse(), Direction::Up);
    assert_eq!(Direction::Left.inverse(), Direction::Right);
    assert_eq!(Direction::Right.inverse(), Direction::Left);
}

#[test]
fn move_inverse_keeps_the_amount() {
    let m = Move::new(Direction::Left, 3);
    assert_eq!(m.direction, Direction::Left);
    assert_eq!(m.amount, 3);
    assert_eq!(m.inverse(), Move::new(Direction::Right, 3));
    assert_eq!(Move::new(Direction::Up, 0).inverse(), Move::new(Direction::Down, 0));
}

#[test]
fn invert_reverses_and_inverts() {
    let moves = vec![
        Move::new(Direction::Down, 2),
        Move::new(Direction::Right, 1),
        Move::new(Direction::Up, 1),
    ];
    assert_eq!(
        invert(&moves),
        vec![
            Move::new(Direction::Down, 1),
            Move::new(Direction::Left, 1),
            Move::new(Direction::Up, 2),
        ]
    );
    assert_eq!(invert(&Vec::new()), Vec::new());
}

#[test]
fn invert_twice_gives_the_list_back() {
    let moves = vec![
        Move::new(Direction::Down, 2),
        Move::new(Direction::Right, 1),
        Move::new(Direction::Up, 7),
        Move::new(Direction::Left, 0),
    ];
    assert_eq!(invert(&invert(&moves)), moves);
    let one = vec![Move::new(Direction::Up, 1)];
    assert_eq!(invert(&invert(&one)), one);
}

#[test]
fn invert_agrees_with_the_engine() {
    let text = "D2 R U L3 D";
    let theirs: slidy::algorithm::algorithm::Algorithm = text.parse().unwrap();
    let ours = vec![
        Move::new(Direction::Down, 2),
        Move::new(Direction::Right, 1),
        Move::new(Direction::Up, 1),
        Move::new(Direction::Left, 3),
        Move::new(Direction::Down, 1),
    ];
    let inverted = invert(&ours);
    let expected = theirs.inverse();
    assert_eq!(inverted.len(), expected.moves().len());
    for (a, b) in inverted.iter().zip(expected.moves()) {
        assert_eq!(a.amount, b.amount());
        assert_eq!(
            scramble_sheet::text::direction_letter(a.direction),
            b.direction().to_string().chars().next().unwrap()
        );
    }
}
