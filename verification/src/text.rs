//! Move lists as display text: one token per move, a fixed number of tokens
//! per line.

use vstd::prelude::*;
use crate::moves::{Direction, Move};

verus! {

/// The number of moves on a full line unless the caller asks for another.
pub const DEFAULT_CHUNK_WIDTH: usize = 10;

/// The character of one decimal digit.
pub open spec fn digit_spec(d: nat) -> char {
    if d == 0 {
        '0'
    } else if d == 1 {
        '1'
    } else if d == 2 {
        '2'
    } else if d == 3 {
        '3'
    } else if d == 4 {
        '4'
    } else if d == 5 {
        '5'
    } else if d == 6 {
        '6'
    } else if d == 7 {
        '7'
    } else if d == 8 {
        '8'
    } else {
        '9'
    }
}

/// A number in decimal, without leading zeros.
pub open spec fn decimal_spec(n: nat) -> Seq<char>
    decreases n,
{
    if n < 10 {
        seq![digit_spec(n)]
    } else {
        decimal_spec(n / 10).push(digit_spec(n % 10))
    }
}

/// The text of one move: the letter of its direction, followed by the
/// amount in decimal unless the amount is one.
pub open spec fn move_text_spec(m: Move) -> Seq<char> {
    if m.amount == 1 {
        seq![m.direction.letter_spec()]
    } else {
        seq![m.direction.letter_spec()] + decimal_spec(m.amount as nat)
    }
}

/// A move as it stands in a line: its text, and one blank after it where
/// the amount is one.
pub open spec fn token_spec(m: Move) -> Seq<char> {
    if m.amount == 1 {
        move_text_spec(m).push(' ')
    } else {
        move_text_spec(m)
    }
}

/// The parts in order, with `sep` between each two neighbours.
pub open spec fn join_spec(parts: Seq<Seq<char>>, sep: char) -> Seq<char>
    decreases parts.len(),
{
    if parts.len() == 0 {
        Seq::empty()
    } else if parts.len() == 1 {
        parts[0]
    } else {
        join_spec(parts.drop_last(), sep).push(sep) + parts.last()
    }
}

/// The tokens of a run of moves.
pub open spec fn tokens_spec(chunk: Seq<Move>) -> Seq<Seq<char>> {
    Seq::new(chunk.len(), |i: int| token_spec(chunk[i]))
}

/// One line: the tokens of its moves with a blank between each two.
pub open spec fn line_spec(chunk: Seq<Move>) -> Seq<char> {
    join_spec(tokens_spec(chunk), ' ')
}

/// The number of lines that `len` moves take at `width` moves a line:
/// `len / width`, rounded up.
pub open spec fn line_count_spec(len: nat, width: nat) -> nat {
    if width == 0 {
        0
    } else {
        ((len + width - 1) / (width as int)) as nat
    }
}

/// The moves of line `k`: those at the indices from `k * width` up to
/// `(k + 1) * width`, as far as there are any.
pub open spec fn chunk_spec(s: Seq<Move>, width: nat, k: int) -> Seq<Move> {
    s.subrange(
        k * width,
        if (k + 1) * width <= s.len() {
            (k + 1) * width
        } else {
            s.len() as int
        },
    )
}

/// The lines of a move list, in order.
pub open spec fn lines_spec(s: Seq<Move>, width: nat) -> Seq<Seq<char>> {
    Seq::new(line_count_spec(s.len(), width), |k: int| line_spec(chunk_spec(s, width, k)))
}

/// The display text of a move list: its lines with a line feed between
/// each two.
pub open spec fn format_spec(s: Seq<Move>, width: nat) -> Seq<char> {
    join_spec(lines_spec(s, width), '\n')
}

/// Joining with one more part at the end.
pub proof fn lemma_join_push(parts: Seq<Seq<char>>, last: Seq<char>, sep: char)
    ensures
        join_spec(parts.push(last), sep) == if parts.len() == 0 {
            last
        } else {
            join_spec(parts, sep).push(sep) + last
        },
{
    assert(parts.push(last).drop_last() =~= parts);
}

/// `k` lines are too few for `len` moves exactly when `k * width < len`.
pub proof fn lemma_line_count(len: nat, width: nat, k: nat)
    requires
        width > 0,
    ensures
        k * width < len <==> k < line_count_spec(len, width),
{
    let c = (len + width - 1) / (width as int);
    let r = (len + width - 1) % (width as int);
    vstd::arithmetic::div_mod::lemma_fundamental_div_mod((len + width - 1) as int, width as int);
    assert(0 <= r < width);
    assert(len + width - 1 == width * c + r);
    assert(c >= 0) by (nonlinear_arith)
        requires
            len + width - 1 == width * c + r,
            0 <= r < width,
            width > 0,
            len >= 0,
    ;
    assert(k * width < len <==> k < c) by (nonlinear_arith)
        requires
            len + width - 1 == width * c + r,
            0 <= r < width,
            width > 0,
            k >= 0,
    ;
}

/// A number in decimal has a digit, and neither a blank nor a line feed.
pub proof fn lemma_decimal_no_blank(n: nat)
    ensures
        decimal_spec(n).len() > 0,
        forall|i: int|
            0 <= i < decimal_spec(n).len() ==> decimal_spec(n)[i] != ' ' && decimal_spec(n)[i]
                != '\n',
    decreases n,
{
    if n >= 10 {
        lemma_decimal_no_blank(n / 10);
    }
}

/// Of the blank after a move: the token of a move is its text, followed by
/// one blank where the amount is one and by nothing where it is not; the
/// text itself begins with the letter of the direction and holds neither
/// a blank nor a line feed. So a token ends in a blank exactly where the
/// amount is one, and then in exactly one.
pub proof fn lemma_token_blank(m: Move)
    ensures
        token_spec(m) == move_text_spec(m) + (if m.amount == 1 {
            seq![' ']
        } else {
            Seq::<char>::empty()
        }),
        move_text_spec(m).len() > 0,
        move_text_spec(m)[0] == m.direction.letter_spec(),
        forall|i: int|
            0 <= i < move_text_spec(m).len() ==> move_text_spec(m)[i] != ' ' && move_text_spec(
                m,
            )[i] != '\n',
        m.amount == 1 <==> token_spec(m).last() == ' ',
        token_spec(m).len() > 0,
{
    lemma_decimal_no_blank(m.amount as nat);
    if m.amount == 1 {
        assert(token_spec(m) =~= move_text_spec(m) + seq![' ']);
    } else {
        assert(token_spec(m) =~= move_text_spec(m) + Seq::<char>::empty());
        let text = move_text_spec(m);
        assert(text.last() == decimal_spec(m.amount as nat).last());
    }
}

/// Parts that are not empty, and at least one of them, join to a text that
/// is not empty.
pub proof fn lemma_join_not_empty(parts: Seq<Seq<char>>, sep: char)
    requires
        parts.len() > 0,
        forall|i: int| 0 <= i < parts.len() ==> parts[i].len() > 0,
    ensures
        join_spec(parts, sep).len() > 0,
{
}

/// Of the lines of a move list: there are `len / width` of them, rounded
/// up, and none for an empty list; line `k` holds the moves from
/// `k * width` on, at least one and at most `width` of them, as their
/// tokens with a blank between each two; no line is empty; and the text is
/// the lines with a line feed between each two.
pub proof fn lemma_chunking(s: Seq<Move>, width: nat)
    requires
        width > 0,
    ensures
        lines_spec(s, width).len() == line_count_spec(s.len(), width),
        s.len() == 0 ==> line_count_spec(s.len(), width) == 0 && format_spec(s, width).len() == 0,
        s.len() > 0 ==> (line_count_spec(s.len(), width) - 1) * width < s.len() <= line_count_spec(
            s.len(),
            width,
        ) * width,
        forall|k: int|
            0 <= k < line_count_spec(s.len(), width) ==> {
                &&& 1 <= (#[trigger] chunk_spec(s, width, k)).len() <= width
                &&& lines_spec(s, width)[k] == join_spec(tokens_spec(chunk_spec(s, width, k)), ' ')
                &&& lines_spec(s, width)[k].len() > 0
            },
        forall|k: int, j: int|
            0 <= k < line_count_spec(s.len(), width) && 0 <= j < chunk_spec(s, width, k).len()
                ==> (#[trigger] chunk_spec(s, width, k)[j]) == s[k * width + j],
        format_spec(s, width) == join_spec(lines_spec(s, width), '\n'),
{
    let n = s.len();
    let count = line_count_spec(n, width);
    lemma_line_count(n, width, count);
    if count > 0 {
        lemma_line_count(n, width, (count - 1) as nat);
    } else {
        lemma_line_count(n, width, 0);
    }
    assert forall|k: int| 0 <= k < count implies {
        &&& 1 <= (#[trigger] chunk_spec(s, width, k)).len() <= width
        &&& lines_spec(s, width)[k] == join_spec(tokens_spec(chunk_spec(s, width, k)), ' ')
        &&& lines_spec(s, width)[k].len() > 0
        &&& 0 <= k * width < n
    } by {
        lemma_line_count(n, width, k as nat);
        assert((k + 1) * width == k * width + width) by (nonlinear_arith);
        assert(k * width >= 0) by (nonlinear_arith)
            requires
                k >= 0,
                width > 0,
        ;
        let chunk = chunk_spec(s, width, k);
        assert forall|i: int| 0 <= i < tokens_spec(chunk).len() implies tokens_spec(chunk)[i].len()
            > 0 by {
            lemma_token_blank(chunk[i]);
        }
        lemma_join_not_empty(tokens_spec(chunk), ' ');
    }
    assert forall|k: int, j: int|
        0 <= k < count && 0 <= j < chunk_spec(s, width, k).len() implies (#[trigger] chunk_spec(
        s,
        width,
        k,
    )[j]) == s[k * width + j] by {
        assert(1 <= chunk_spec(s, width, k).len());
        lemma_line_count(n, width, k as nat);
        assert((k + 1) * width == k * width + width) by (nonlinear_arith);
        assert(k * width >= 0) by (nonlinear_arith)
            requires
                k >= 0,
                width > 0,
        ;
    }
}

/// How often a character stands in a text.
pub open spec fn count_spec(s: Seq<char>, c: char) -> nat
    decreases s.len(),
{
    if s.len() == 0 {
        0
    } else {
        count_spec(s.drop_last(), c) + if s.last() == c {
            1nat
        } else {
            0nat
        }
    }
}

/// Counting in two texts put together is counting in each.
pub proof fn lemma_count_concat(a: Seq<char>, b: Seq<char>, c: char)
    ensures
        count_spec(a + b, c) == count_spec(a, c) + count_spec(b, c),
    decreases b.len(),
{
    if b.len() == 0 {
        assert(a + b =~= a);
    } else {
        assert((a + b).drop_last() =~= a + b.drop_last());
        lemma_count_concat(a, b.drop_last(), c);
    }
}

/// A character that stands nowhere in a text is counted zero times.
pub proof fn lemma_count_absent(s: Seq<char>, c: char)
    requires
        forall|j: int| 0 <= j < s.len() ==> s[j] != c,
    ensures
        count_spec(s, c) == 0,
    decreases s.len(),
{
    if s.len() > 0 {
        lemma_count_absent(s.drop_last(), c);
    }
}

/// Parts that do not hold the separator join to a text that holds it once
/// between each two neighbours and nowhere else.
pub proof fn lemma_join_count(parts: Seq<Seq<char>>, sep: char)
    requires
        forall|i: int, j: int| 0 <= i < parts.len() && 0 <= j < parts[i].len() ==> parts[i][j] != sep,
    ensures
        count_spec(join_spec(parts, sep), sep) == if parts.len() == 0 {
            0
        } else {
            parts.len() - 1
        },
    decreases parts.len(),
{
    if parts.len() == 1 {
        lemma_count_absent(parts[0], sep);
    } else if parts.len() >= 2 {
        let head = join_spec(parts.drop_last(), sep);
        lemma_join_count(parts.drop_last(), sep);
        lemma_count_absent(parts.last(), sep);
        lemma_count_concat(head.push(sep), parts.last(), sep);
        assert(head.push(sep).drop_last() =~= head);
    }
}

/// Parts that do not hold a character, joined by another, do not hold it
/// either.
pub proof fn lemma_join_lacks(parts: Seq<Seq<char>>, sep: char, c: char)
    requires
        sep != c,
        forall|i: int, j: int| 0 <= i < parts.len() && 0 <= j < parts[i].len() ==> parts[i][j] != c,
    ensures
        forall|j: int| 0 <= j < join_spec(parts, sep).len() ==> join_spec(parts, sep)[j] != c,
    decreases parts.len(),
{
    let joined = join_spec(parts, sep);
    if parts.len() == 1 {
        assert forall|j: int| 0 <= j < joined.len() implies joined[j] != c by {
            assert(joined[j] == parts[0][j]);
        }
    } else if parts.len() >= 2 {
        let head = join_spec(parts.drop_last(), sep);
        let last = parts.last();
        lemma_join_lacks(parts.drop_last(), sep, c);
        assert forall|j: int| 0 <= j < joined.len() implies joined[j] != c by {
            if j < head.len() {
                assert(joined[j] == head[j]);
            } else if j == head.len() {
                assert(joined[j] == sep);
            } else {
                assert(joined[j] == parts[parts.len() - 1][j - head.len() - 1]);
            }
        }
    }
}

/// No line holds a line feed, so the text of a list that is not empty
/// holds one line feed less than it has lines, and the text of an empty
/// list holds none.
pub proof fn lemma_line_feeds(s: Seq<Move>, width: nat)
    requires
        width > 0,
    ensures
        forall|k: int, j: int|
            0 <= k < lines_spec(s, width).len() && 0 <= j < lines_spec(s, width)[k].len()
                ==> lines_spec(s, width)[k][j] != '\n',
        count_spec(format_spec(s, width), '\n') == if s.len() == 0 {
            0
        } else {
            line_count_spec(s.len(), width) - 1
        },
{
    let lines = lines_spec(s, width);
    assert forall|k: int, j: int| 0 <= k < lines.len() && 0 <= j < lines[k].len() implies lines[k][j]
        != '\n' by {
        let chunk = chunk_spec(s, width, k);
        let tokens = tokens_spec(chunk);
        assert forall|i: int, t: int| 0 <= i < tokens.len() && 0 <= t < tokens[i].len() implies tokens[i][t]
            != '\n' by {
            lemma_token_blank(chunk[i]);
        }
        lemma_join_lacks(tokens, ' ', '\n');
    }
    lemma_join_count(lines, '\n');
    lemma_chunking(s, width);
    lemma_line_count(s.len(), width, 0);
}

/// The text depends on nothing but the moves and the width: two lists of
/// the same moves in the same order have the same text.
pub proof fn lemma_format_deterministic(a: Seq<Move>, b: Seq<Move>, width: nat)
    requires
        a.len() == b.len(),
        forall|i: int| 0 <= i < a.len() ==> a[i] == b[i],
    ensures
        format_spec(a, width) == format_spec(b, width),
{
    assert(a =~= b);
}

fn digit_char(d: u64) -> (c: char)
    requires
        d < 10,
    ensures
        c == digit_spec(d as nat),
{
    if d == 0 {
        '0'
    } else if d == 1 {
        '1'
    } else if d == 2 {
        '2'
    } else if d == 3 {
        '3'
    } else if d == 4 {
        '4'
    } else if d == 5 {
        '5'
    } else if d == 6 {
        '6'
    } else if d == 7 {
        '7'
    } else if d == 8 {
        '8'
    } else {
        '9'
    }
}

fn push_decimal(out: &mut Vec<char>, n: u64)
    ensures
        final(out)@ == old(out)@ + decimal_spec(n as nat),
    decreases n,
{
    if n >= 10 {
        push_decimal(out, n / 10);
    }
    out.push(digit_char(n % 10));
    proof {
        if n >= 10 {
            assert(out@ =~= old(out)@ + decimal_spec((n / 10) as nat).push(
                digit_spec((n % 10) as nat),
            ));
        } else {
            assert(out@ =~= old(out)@ + seq![digit_spec(n as nat)]);
        }
    }
}

fn push_all(out: &mut Vec<char>, src: &Vec<char>)
    ensures
        final(out)@ == old(out)@ + src@,
{
    let n: usize = src.len();
    let mut i: usize = 0;
    while i < n
        invariant
            n == src.len(),
            i <= n,
            out@ == old(out)@ + src@.take(i as int),
        decreases n - i,
    {
        out.push(src[i]);
        proof {
            assert(src@.take(i + 1) =~= src@.take(i as int).push(src@[i as int]));
            assert(out@ =~= old(out)@ + src@.take(i + 1));
        }
        i += 1;
    }
    assert(src@.take(n as int) =~= src@);
}

/// The letter that stands for a direction.
pub fn direction_letter(d: Direction) -> (c: char)
    ensures
        c == d.letter_spec(),
{
    match d {
        Direction::Up => 'U',
        Direction::Left => 'L',
        Direction::Down => 'D',
        Direction::Right => 'R',
    }
}

/// The text of one move, without the blank that a line may put after it.
pub fn move_text(m: Move) -> (r: Vec<char>)
    ensures
        r@ == move_text_spec(m),
{
    let mut out: Vec<char> = Vec::new();
    out.push(direction_letter(m.direction));
    if m.amount != 1 {
        push_decimal(&mut out, m.amount);
    }
    assert(out@ =~= move_text_spec(m));
    out
}

/// One move as it stands in a line.
pub fn move_token(m: Move) -> (r: Vec<char>)
    ensures
        r@ == token_spec(m),
{
    let mut out: Vec<char> = move_text(m);
    if m.amount == 1 {
        out.push(' ');
    }
    out
}

/// One line of text for the moves from `start` up to `end`.
pub fn format_line(seq: &Vec<Move>, start: usize, end: usize) -> (r: Vec<char>)
    requires
        start <= end <= seq.len(),
    ensures
        r@ == line_spec(seq@.subrange(start as int, end as int)),
{
    let mut line: Vec<char> = Vec::new();
    let mut j: usize = start;
    while j < end
        invariant
            start <= j <= end <= seq.len(),
            line@ == line_spec(seq@.subrange(start as int, j as int)),
        decreases end - j,
    {
        let token: Vec<char> = move_token(seq[j]);
        proof {
            let before = seq@.subrange(start as int, j as int);
            let after = seq@.subrange(start as int, j + 1);
            assert(tokens_spec(after) =~= tokens_spec(before).push(token@));
            lemma_join_push(tokens_spec(before), token@, ' ');
        }
        if j > start {
            line.push(' ');
        }
        push_all(&mut line, &token);
        proof {
            if j == start {
                assert(line@ =~= token@);
            }
        }
        j += 1;
    }
    line
}

/// The display text of a move list as a vector of characters.
pub fn format_chars(seq: &Vec<Move>, width: usize) -> (r: Vec<char>)
    requires
        width > 0,
    ensures
        r@ == format_spec(seq@, width as nat),
{
    let n: usize = seq.len();
    let ghost lines = lines_spec(seq@, width as nat);
    let ghost mut k: nat = 0;
    let mut out: Vec<char> = Vec::new();
    let mut start: usize = 0;
    let mut first: bool = true;
    proof {
        lemma_line_count(n as nat, width as nat, 0);
    }
    while start < n
        invariant
            n == seq.len(),
            width > 0,
            lines == lines_spec(seq@, width as nat),
            k <= lines.len(),
            first == (k == 0),
            start <= n,
            start < n ==> start == k * width,
            start == n ==> k * width >= n,
            out@ == join_spec(lines.take(k as int), '\n'),
        decreases n - start,
    {
        let end: usize = if n - start <= width {
            n
        } else {
            start + width
        };
        let line: Vec<char> = format_line(seq, start, end);
        proof {
            lemma_line_count(n as nat, width as nat, k);
            assert((k + 1) * width == k * width + width) by (nonlinear_arith);
            assert(chunk_spec(seq@, width as nat, k as int) =~= seq@.subrange(
                start as int,
                end as int,
            ));
            assert(lines[k as int] == line@);
            assert(lines.take((k + 1) as int) =~= lines.take(k as int).push(line@));
            lemma_join_push(lines.take(k as int), line@, '\n');
        }
        if !first {
            out.push('\n');
        }
        push_all(&mut out, &line);
        proof {
            if k == 0 {
                assert(out@ =~= line@);
            }
            k = k + 1;
        }
        first = false;
        start = end;
    }
    proof {
        lemma_line_count(n as nat, width as nat, k);
        assert(lines.take(k as int) =~= lines);
    }
    out
}

/// `String::from_iter` on the characters of a vector: the string holds
/// the same characters in the same order.
#[verifier::external_body]
pub(crate) fn chars_to_string(chars: &Vec<char>) -> (r: String)
    ensures
        r@ == chars@,
{
    String::from_iter(chars.iter())
}

/// Formats a move list for display: at most `width` moves on a line, a
/// blank between two moves of a line and one more after each move of
/// amount one, a line feed between two lines.
pub fn format_moves(seq: &Vec<Move>, width: usize) -> (r: String)
    requires
        width > 0,
    ensures
        r@ == format_spec(seq@, width as nat),
{
    let chars: Vec<char> = format_chars(seq, width);
    chars_to_string(&chars)
}

} // verus!
