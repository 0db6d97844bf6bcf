//! The position string of a grid: its rows, the side to move, the castling
//! rights and a fixed tail.
use vstd::prelude::*;
use vstd::string::*;

use crate::board::{empty_grid, grid_shaped, grid_view, start_grid, Piece, PlayerPiece};

verus! {

/// The base (lower-case) letter of a piece kind; a blank for `Empty`.
pub open spec fn letter_of(piece: Piece) -> char {
    match piece {
        Piece::Rook => 'r',
        Piece::Bishop => 'b',
        Piece::Knight => 'n',
        Piece::Queen => 'q',
        Piece::King => 'k',
        Piece::Pawn => 'p',
        Piece::Empty => ' ',
    }
}

/// ASCII upper-case of `c`; other characters are kept.
pub open spec fn upper_of(c: char) -> char {
    if 'a' <= c && c <= 'z' {
        ((c as u32) - 32) as char
    } else {
        c
    }
}

/// The letter written for an occupied cell: lower-case for Black (player 0),
/// upper-case for White.
pub open spec fn piece_char(p: PlayerPiece) -> char {
    if p.player == 0 {
        letter_of(p.piece_idx)
    } else {
        upper_of(letter_of(p.piece_idx))
    }
}

/// The decimal digit for a run of `n` empty cells, `1 <= n <= 9`.
pub open spec fn digit_of(n: nat) -> char {
    (('0' as u32) + n) as char
}

/// The text for a pending run of `run` empty cells: nothing when it is zero.
pub open spec fn run_text(run: nat) -> Seq<char> {
    if run == 0 {
        seq![]
    } else {
        seq![digit_of(run)]
    }
}

/// The text of `row` from column `j` on, with `run` empty cells already
/// counted before `j`.
pub open spec fn rank_from(row: Seq<PlayerPiece>, j: int, run: nat) -> Seq<char>
    decreases row.len() - j,
{
    if j >= row.len() {
        run_text(run)
    } else if row[j].piece_idx == Piece::Empty {
        rank_from(row, j + 1, run + 1)
    } else {
        run_text(run) + seq![piece_char(row[j])] + rank_from(row, j + 1, 0)
    }
}

/// The text of one row: each run of empty cells as its length, each piece as
/// its letter.
pub open spec fn rank_text(row: Seq<PlayerPiece>) -> Seq<char> {
    rank_from(row, 0, 0)
}

/// What follows row `i`: a slash between rows, a space after the last one.
pub open spec fn separator(i: int) -> char {
    if i < 7 {
        '/'
    } else {
        ' '
    }
}

/// The text of the first `n` rows of `grid`, each followed by its separator.
pub open spec fn placement(grid: Seq<Seq<PlayerPiece>>, n: int) -> Seq<char>
    decreases n,
{
    if n <= 0 {
        seq![]
    } else {
        placement(grid, n - 1) + rank_text(grid[n - 1]) + seq![separator(n - 1)]
    }
}

/// The side-to-move field: `"b "` for player 0, `"w "` otherwise.
pub open spec fn side_text(player: usize) -> Seq<char> {
    if player == 0 {
        seq!['b', ' ']
    } else {
        seq!['w', ' ']
    }
}

/// The castling field: `K`, `Q`, `k`, `q` for the rights that are set, in that
/// order; empty when none is.
pub open spec fn castling_text(white: (bool, bool), black: (bool, bool)) -> Seq<char> {
    (if white.0 { seq!['K'] } else { seq![] })
        + (if white.1 { seq!['Q'] } else { seq![] })
        + (if black.0 { seq!['k'] } else { seq![] })
        + (if black.1 { seq!['q'] } else { seq![] })
}

/// The fixed tail: no en-passant square, halfmove clock 0, fullmove 1.
pub open spec fn suffix_text() -> Seq<char> {
    seq![' ', '-', ' ', '0', ' ', '1']
}

/// The whole position string for `grid`, the side to move and the castling
/// rights.
pub open spec fn fen_text(
    grid: Seq<Seq<PlayerPiece>>,
    player: usize,
    white: (bool, bool),
    black: (bool, bool),
) -> Seq<char> {
    placement(grid, 8) + side_text(player) + castling_text(white, black) + suffix_text()
}

/// Relies on String::push: appends one character at the end.
#[verifier::external_body]
fn push_char(s: &mut String, c: char)
    ensures
        final(s)@ == old(s)@.push(c),
{
    s.push(c)
}

fn ascii_upper(c: char) -> (r: char)
    ensures
        r == upper_of(c),
{
    if 'a' <= c && c <= 'z' {
        ((c as u8) - 32) as char
    } else {
        c
    }
}

fn digit_char(n: usize) -> (r: char)
    requires
        1 <= n <= 9,
    ensures
        r == digit_of(n as nat),
{
    (('0' as u8) + (n as u8)) as char
}

/// The lower-case letter of a piece kind.
pub fn get_character_for_piece(piece: Piece) -> (r: char)
    ensures
        r == letter_of(piece),
{
    match piece {
        Piece::Rook => 'r',
        Piece::Bishop => 'b',
        Piece::Knight => 'n',
        Piece::Queen => 'q',
        Piece::King => 'k',
        Piece::Pawn => 'p',
        _ => ' ',
    }
}

/// The castling field for the (king side, queen side) rights of each side.
pub fn get_castling_data_as_string(white: (bool, bool), black: (bool, bool)) -> (r: String)
    ensures
        r@ == castling_text(white, black),
{
    proof {
        reveal_strlit("K");
        reveal_strlit("Q");
        reveal_strlit("k");
        reveal_strlit("q");
    }
    let mut data = String::new();
    if white.0 {
        data.append("K");
    }
    if white.1 {
        data.append("Q");
    }
    if black.0 {
        data.append("k");
    }
    if black.1 {
        data.append("q");
    }
    assert(data@ =~= castling_text(white, black));
    data
}

/// Encodes the grid, row 0 first, followed by the side to move (player 0 is
/// `b`), the castling rights and the fixed tail `" - 0 1"`.
pub fn generate_fen_from_board(
    board: [[PlayerPiece; 8]; 8],
    player: usize,
    castle_white: (bool, bool),
    castle_black: (bool, bool),
) -> (r: String)
    ensures
        r@ == fen_text(grid_view(board), player, castle_white, castle_black),
{
    let ghost grid = grid_view(board);
    let mut fen_string = String::new();
    let mut i: usize = 0;
    while i < 8
        invariant
            i <= 8,
            grid == grid_view(board),
            fen_string@ == placement(grid, i as int),
        decreases 8 - i,
    {
        let row = board[i];
        assert(grid[i as int] == row@);
        let mut empty_block_count: usize = 0;
        let mut j: usize = 0;
        while j < 8
            invariant
                i < 8,
                j <= 8,
                empty_block_count <= j,
                grid.len() == 8,
                grid[i as int] == row@,
                fen_string@ + rank_from(row@, j as int, empty_block_count as nat) == placement(
                    grid,
                    i as int,
                ) + rank_text(row@),
            decreases 8 - j,
        {
            let curr = row[j];
            let ghost before = fen_string@;
            let ghost run = empty_block_count as nat;
            match curr.piece_idx {
                Piece::Empty => empty_block_count += 1,
                _ => {
                    if empty_block_count > 0 {
                        push_char(&mut fen_string, digit_char(empty_block_count));
                        empty_block_count = 0;
                    }
                    let character = get_character_for_piece(curr.piece_idx);
                    push_char(
                        &mut fen_string,
                        if curr.player == 0 {
                            character
                        } else {
                            ascii_upper(character)
                        },
                    );
                    assert(fen_string@ + rank_from(row@, j + 1, 0) =~= before + rank_from(
                        row@,
                        j as int,
                        run,
                    ));
                },
            }
            j += 1;
        }
        if empty_block_count > 0 {
            push_char(&mut fen_string, digit_char(empty_block_count));
        }
        assert(fen_string@ =~= placement(grid, i as int) + rank_text(row@));
        push_char(&mut fen_string, if i < 7 { '/' } else { ' ' });
        assert(fen_string@ =~= placement(grid, i + 1));
        i += 1;
    }
    proof {
        reveal_strlit("b ");
        reveal_strlit("w ");
        reveal_strlit(" - 0 1");
    }
    fen_string.append(if player == 0 { "b " } else { "w " });
    let castling = get_castling_data_as_string(castle_white, castle_black);
    fen_string.append(castling.as_str());
    fen_string.append(" - 0 1");
    assert(fen_string@ =~= fen_text(grid, player, castle_white, castle_black));
    fen_string
}

/// How many columns a character of a row's text stands for: a digit its
/// value, anything else one.
pub open spec fn char_width(c: char) -> int {
    if '1' <= c && c <= '9' {
        (c as int) - ('0' as int)
    } else {
        1
    }
}

/// How many columns a row's text stands for.
pub open spec fn text_width(s: Seq<char>) -> int
    decreases s.len(),
{
    if s.len() == 0 {
        0
    } else {
        text_width(s.drop_last()) + char_width(s.last())
    }
}

/// How many times `c` occurs in `s`.
pub open spec fn count_char(s: Seq<char>, c: char) -> int
    decreases s.len(),
{
    if s.len() == 0 {
        0
    } else {
        count_char(s.drop_last(), c) + (if s.last() == c { 1int } else { 0 })
    }
}

proof fn lemma_text_concat(a: Seq<char>, b: Seq<char>, c: char)
    ensures
        text_width(a + b) == text_width(a) + text_width(b),
        count_char(a + b, c) == count_char(a, c) + count_char(b, c),
    decreases b.len(),
{
    if b.len() > 0 {
        lemma_text_concat(a, b.drop_last(), c);
        assert((a + b).drop_last() =~= a + b.drop_last());
    }
}

proof fn lemma_text_single(c: char, x: char)
    ensures
        text_width(seq![c]) == char_width(c),
        count_char(seq![c], x) == (if c == x { 1int } else { 0 }),
{
    assert(seq![c].drop_last() =~= Seq::<char>::empty());
    assert(text_width(Seq::<char>::empty()) == 0);
    assert(count_char(Seq::<char>::empty(), x) == 0);
}

proof fn lemma_rank_from_shape(row: Seq<PlayerPiece>, j: int, run: nat)
    requires
        0 <= j <= row.len() <= 9,
        run <= j,
    ensures
        text_width(rank_from(row, j, run)) == run + row.len() - j,
        count_char(rank_from(row, j, run), '/') == 0,
    decreases row.len() - j,
{
    let t = rank_from(row, j, run);
    assert(text_width(run_text(run)) == run && count_char(run_text(run), '/') == 0) by {
        if run > 0 {
            lemma_text_single(digit_of(run), '/');
        } else {
            assert(text_width(Seq::<char>::empty()) == 0);
            assert(count_char(Seq::<char>::empty(), '/') == 0);
        }
    }
    if j < row.len() {
        if row[j].piece_idx == Piece::Empty {
            lemma_rank_from_shape(row, j + 1, run + 1);
        } else {
            lemma_rank_from_shape(row, j + 1, 0);
            let p = seq![piece_char(row[j])];
            lemma_text_single(piece_char(row[j]), '/');
            lemma_text_concat(run_text(run), p, '/');
            lemma_text_concat(run_text(run) + p, rank_from(row, j + 1, 0), '/');
        }
    }
}

proof fn lemma_placement_slashes(grid: Seq<Seq<PlayerPiece>>, n: int)
    requires
        grid_shaped(grid),
        0 <= n <= 8,
    ensures
        count_char(placement(grid, n), '/') == (if n < 8 { n } else { 7 }),
    decreases n,
{
    if n > 0 {
        lemma_placement_slashes(grid, n - 1);
        lemma_rank_from_shape(grid[n - 1], 0, 0);
        let sep = seq![separator(n - 1)];
        lemma_text_single(separator(n - 1), '/');
        lemma_text_concat(placement(grid, n - 1), rank_text(grid[n - 1]), '/');
        lemma_text_concat(placement(grid, n - 1) + rank_text(grid[n - 1]), sep, '/');
    }
}

/// The position string depends on its inputs alone: two encodings of the
/// same grid, side and rights are the same text.
pub proof fn lemma_fen_deterministic(
    grid: Seq<Seq<PlayerPiece>>,
    player: usize,
    white: (bool, bool),
    black: (bool, bool),
    first: Seq<char>,
    second: Seq<char>,
)
    requires
        first == fen_text(grid, player, white, black),
        second == fen_text(grid, player, white, black),
    ensures
        first == second,
{
}

/// The row field holds exactly seven slashes, and the text of each row stands
/// for exactly eight columns (run lengths plus piece letters) and holds no
/// slash.
pub proof fn lemma_row_field_shape(grid: Seq<Seq<PlayerPiece>>)
    requires
        grid_shaped(grid),
    ensures
        count_char(placement(grid, 8), '/') == 7,
        forall|r: int|
            0 <= r < 8 ==> text_width(#[trigger] rank_text(grid[r])) == 8 && count_char(
                rank_text(grid[r]),
                '/',
            ) == 0,
{
    lemma_placement_slashes(grid, 8);
    assert forall|r: int| 0 <= r < 8 implies text_width(#[trigger] rank_text(grid[r])) == 8
        && count_char(rank_text(grid[r]), '/') == 0 by {
        lemma_rank_from_shape(grid[r], 0, 0);
    }
}

/// On a cleared grid every row is written `8`, so the position string is
/// `8/8/8/8/8/8/8/8 `, then the side to move, the castling rights and the tail.
pub proof fn lemma_cleared_board_fen(player: usize, white: (bool, bool), black: (bool, bool))
    ensures
        forall|r: int| 0 <= r < 8 ==> #[trigger] rank_text(empty_grid()[r]) == seq!['8'],
        fen_text(empty_grid(), player, white, black) == seq![
            '8', '/', '8', '/', '8', '/', '8', '/', '8', '/', '8', '/', '8', '/', '8', ' ',
        ] + side_text(player) + castling_text(white, black) + suffix_text(),
{
    let row = empty_grid()[0];
    reveal_with_fuel(rank_from, 9);
    assert(rank_text(row) =~= seq!['8']);
    assert forall|r: int| 0 <= r < 8 implies #[trigger] rank_text(empty_grid()[r]) == seq!['8'] by {
        assert(empty_grid()[r] =~= row);
    }
    reveal_with_fuel(placement, 9);
    assert(placement(empty_grid(), 8) =~= seq![
        '8', '/', '8', '/', '8', '/', '8', '/', '8', '/', '8', '/', '8', '/', '8', ' ',
    ]);
}

/// The initial position with no castling rights is written
/// `rnbqkbnr/pppppppp/8/8/8/8/PPPPPPPP/RNBQKBNR`, the side to move, an empty
/// castling field (two spaces in a row) and the tail.
pub proof fn lemma_starting_position_fen(player: usize)
    ensures
        fen_text(start_grid(), player, (false, false), (false, false)) == seq![
            'r', 'n', 'b', 'q', 'k', 'b', 'n', 'r', '/',
            'p', 'p', 'p', 'p', 'p', 'p', 'p', 'p', '/',
            '8', '/', '8', '/', '8', '/', '8', '/',
            'P', 'P', 'P', 'P', 'P', 'P', 'P', 'P', '/',
            'R', 'N', 'B', 'Q', 'K', 'B', 'N', 'R', ' ',
        ] + side_text(player) + seq![' ', '-', ' ', '0', ' ', '1'],
{
    let g = start_grid();
    reveal_with_fuel(rank_from, 9);
    assert(rank_text(g[0]) =~= seq!['r', 'n', 'b', 'q', 'k', 'b', 'n', 'r']);
    assert(rank_text(g[1]) =~= seq!['p', 'p', 'p', 'p', 'p', 'p', 'p', 'p']);
    assert(rank_text(g[2]) =~= seq!['8']);
    assert(rank_text(g[3]) =~= seq!['8']);
    assert(rank_text(g[4]) =~= seq!['8']);
    assert(rank_text(g[5]) =~= seq!['8']);
    assert(rank_text(g[6]) =~= seq!['P', 'P', 'P', 'P', 'P', 'P', 'P', 'P']);
    assert(rank_text(g[7]) =~= seq!['R', 'N', 'B', 'Q', 'K', 'B', 'N', 'R']);
    reveal_with_fuel(placement, 9);
    assert(castling_text((false, false), (false, false)) =~= Seq::<char>::empty());
    assert(fen_text(g, player, (false, false), (false, false)) =~= seq![
        'r', 'n', 'b', 'q', 'k', 'b', 'n', 'r', '/',
        'p', 'p', 'p', 'p', 'p', 'p', 'p', 'p', '/',
        '8', '/', '8', '/', '8', '/', '8', '/',
        'P', 'P', 'P', 'P', 'P', 'P', 'P', 'P', '/',
        'R', 'N', 'B', 'Q', 'K', 'B', 'N', 'R', ' ',
    ] + side_text(player) + seq![' ', '-', ' ', '0', ' ', '1']);
}

} // verus!
