//! The editor's board: the grid, the two shelves and the drag of one piece
//! between them.
use vstd::prelude::*;

use crate::fen::{fen_text, generate_fen_from_board};

verus! {

/// Number of rows of the grid.
pub const ROWS: usize = 8;

/// Number of columns of the grid.
pub const COLUMNS: usize = 8;

/// Left edge of the editor, in window pixels.
pub const BOARD_X: i32 = 100;

/// Top edge of the editor (the upper shelf), in window pixels.
pub const BOARD_Y: i32 = 100;

/// Side of one square, shelf slots included, in pixels.
pub const BOX_DIMENSION: i32 = 75;

/// The kind of a chess piece; `Empty` marks an empty cell.
#[derive(Debug, Copy, Clone, PartialEq, Eq, Structural)]
pub enum Piece {
    Bishop,
    King,
    Knight,
    Pawn,
    Queen,
    Rook,
    Empty,
}

/// Kind of the piece at shelf slot `value` (the slot after the marker is 0);
/// out-of-range values give `Empty`.
pub open spec fn piece_for_index(value: int) -> Piece {
    if value == 0 {
        Piece::Bishop
    } else if value == 1 {
        Piece::King
    } else if value == 2 {
        Piece::Knight
    } else if value == 3 {
        Piece::Pawn
    } else if value == 4 {
        Piece::Queen
    } else if value == 5 {
        Piece::Rook
    } else {
        Piece::Empty
    }
}

impl Piece {
    /// The kind at shelf slot `value`, counted from the first piece.
    pub fn from_usize(value: usize) -> (r: Piece)
        ensures
            r == piece_for_index(value as int),
    {
        match value {
            0 => Piece::Bishop,
            1 => Piece::King,
            2 => Piece::Knight,
            3 => Piece::Pawn,
            4 => Piece::Queen,
            5 => Piece::Rook,
            _ => Piece::Empty,
        }
    }
}

/// The occupant of one cell, or a held piece: the owning player (0 is
/// Black, any other value White) and its kind.
#[derive(Debug, Copy, Clone, PartialEq, Eq, Structural)]
pub struct PlayerPiece {
    pub player: usize,
    pub piece_idx: Piece,
}

/// Where a held piece was taken from.
#[derive(Debug, Copy, Clone, PartialEq, Eq, Structural)]
pub enum Source {
    /// A shelf, whose supply never runs out.
    Shelf,
    /// The grid cell at row `i`, column `j`.
    Board { i: usize, j: usize },
}

/// The piece being dragged, and where it came from.
#[derive(Debug, Copy, Clone, PartialEq, Eq, Structural)]
pub struct HeldPiece {
    pub piece: PlayerPiece,
    pub source: Source,
}

/// A pointer event in window pixel coordinates.
#[derive(Debug, Copy, Clone, PartialEq, Eq, Structural)]
pub enum PointerEvent {
    ButtonDown { x: i32, y: i32 },
    ButtonUp { x: i32, y: i32 },
    Axes { x: i32, y: i32 },
}

/// The grid as rows of cells.
pub open spec fn grid_view(board: [[PlayerPiece; 8]; 8]) -> Seq<Seq<PlayerPiece>> {
    board@.map_values(|row: [PlayerPiece; 8]| row@)
}

/// The abstract state of the editor: the grid, the held piece if a drag is in
/// progress, and the display orientation.
pub struct BoardView {
    pub grid: Seq<Seq<PlayerPiece>>,
    pub held: Option<HeldPiece>,
    pub flipped: bool,
}

/// A grid of 8 rows of 8 cells.
pub open spec fn grid_shaped(grid: Seq<Seq<PlayerPiece>>) -> bool {
    &&& grid.len() == 8
    &&& forall|r: int| 0 <= r < 8 ==> #[trigger] grid[r].len() == 8
}

/// A held piece is a real piece, and one taken from the grid names a cell of it.
pub open spec fn held_ok(held: Option<HeldPiece>) -> bool {
    match held {
        Option::None => true,
        Option::Some(h) => {
            &&& h.piece.piece_idx != Piece::Empty
            &&& match h.source {
                Source::Shelf => true,
                Source::Board { i, j } => i < 8 && j < 8,
            }
        },
    }
}

/// The invariant of the editor's state.
pub open spec fn well_formed(v: BoardView) -> bool {
    grid_shaped(v.grid) && held_ok(v.held)
}

/// `grid` with the cell at (`r`, `c`) replaced by `p`.
pub open spec fn with_cell(grid: Seq<Seq<PlayerPiece>>, r: int, c: int, p: PlayerPiece) -> Seq<
    Seq<PlayerPiece>,
> {
    grid.update(r, grid[r].update(c, p))
}

/// A cell emptied of its piece; its player stays.
pub open spec fn cleared(p: PlayerPiece) -> PlayerPiece {
    PlayerPiece { piece_idx: Piece::Empty, ..p }
}

/// Starts dragging `target` if there is one; otherwise nothing changes.
pub open spec fn select(v: BoardView, target: Option<HeldPiece>) -> BoardView {
    match target {
        Option::Some(h) => BoardView { held: Option::Some(h), ..v },
        Option::None => v,
    }
}

/// What a shelf offers: a piece of `player` of kind `piece`, unless `piece` is
/// `Empty`.
pub open spec fn shelf_target(player: usize, piece: Piece) -> Option<HeldPiece> {
    if piece == Piece::Empty {
        Option::None
    } else {
        Option::Some(
            HeldPiece { piece: PlayerPiece { player, piece_idx: piece }, source: Source::Shelf },
        )
    }
}

/// What the cell (`r`, `c`) offers: its piece if it is on the grid and occupied.
pub open spec fn cell_target(v: BoardView, r: int, c: int) -> Option<HeldPiece> {
    if 0 <= r < 8 && 0 <= c < 8 && v.grid[r][c].piece_idx != Piece::Empty {
        Option::Some(HeldPiece { piece: v.grid[r][c], source: Source::Board { i: r as usize, j: c as usize } })
    } else {
        Option::None
    }
}

/// Puts the held piece on (`r`, `c`), over whatever stood there, and empties
/// the cell it was taken from; a drop on its own cell changes nothing.
pub open spec fn drop_on_cell(v: BoardView, r: int, c: int) -> BoardView {
    match v.held {
        Option::None => v,
        Option::Some(h) => {
            let grid = match h.source {
                Source::Shelf => with_cell(v.grid, r, c, h.piece),
                Source::Board { i, j } => if i == r && j == c {
                    v.grid
                } else {
                    let placed = with_cell(v.grid, r, c, h.piece);
                    with_cell(placed, i as int, j as int, cleared(v.grid[i as int][j as int]))
                },
            };
            BoardView { grid, held: Option::None, ..v }
        },
    }
}

/// Lets go of the held piece away from the grid: one taken from the grid is
/// removed from it, one taken from a shelf is dropped.
pub open spec fn drop_outside(v: BoardView) -> BoardView {
    match v.held {
        Option::None => v,
        Option::Some(h) => {
            let grid = match h.source {
                Source::Shelf => v.grid,
                Source::Board { i, j } => with_cell(
                    v.grid,
                    i as int,
                    j as int,
                    cleared(v.grid[i as int][j as int]),
                ),
            };
            BoardView { grid, held: Option::None, ..v }
        },
    }
}

/// Visual row or column `k` as a grid index: reversed while the display is
/// turned around.
pub open spec fn oriented(flipped: bool, k: int) -> int {
    if flipped {
        7 - k
    } else {
        k
    }
}

/// The shelf slot under horizontal position `x`; slot 0 holds the marker.
pub open spec fn slot_at(x: int) -> int {
    if x > BOARD_X {
        (x - BOARD_X) / (BOX_DIMENSION as int)
    } else {
        0
    }
}

/// The kind offered by shelf slot `slot`: none for the marker or past the
/// last piece.
pub open spec fn slot_piece(slot: int) -> Piece {
    if slot >= 1 {
        piece_for_index(slot - 1)
    } else {
        Piece::Empty
    }
}

/// The player of the shelf drawn above the grid.
pub open spec fn top_player(flipped: bool) -> usize {
    if flipped {
        1
    } else {
        0
    }
}

/// The player of the shelf drawn below the grid.
pub open spec fn bottom_player(flipped: bool) -> usize {
    if flipped {
        0
    } else {
        1
    }
}

/// The grid cell (row, column) under (`x`, `y`) when the grid is pressed.
pub open spec fn cell_under(flipped: bool, x: int, y: int) -> Option<(int, int)> {
    let grid_top = BOARD_Y + BOX_DIMENSION;
    if x >= BOARD_X && y >= grid_top {
        let col = (x - BOARD_X) / (BOX_DIMENSION as int);
        let row = (y - grid_top) / (BOX_DIMENSION as int);
        if row < 8 && col < 8 {
            Option::Some((oriented(flipped, row), oriented(flipped, col)))
        } else {
            Option::None
        }
    } else {
        Option::None
    }
}

/// What a press on the grid at (`x`, `y`) picks up.
pub open spec fn board_target(v: BoardView, x: int, y: int) -> Option<HeldPiece> {
    match cell_under(v.flipped, x, y) {
        Option::Some((r, c)) => cell_target(v, r, c),
        Option::None => Option::None,
    }
}

/// Inside the editor: the two shelves and the grid between them.
pub open spec fn in_editor(x: int, y: int) -> bool {
    &&& BOARD_X < x < BOARD_X + 8 * BOX_DIMENSION
    &&& BOARD_Y < y < BOARD_Y + 10 * BOX_DIMENSION
}

/// What a press at (`x`, `y`) picks up: a piece from the shelf above or below
/// the grid, or from an occupied cell.
pub open spec fn press_target(v: BoardView, x: int, y: int) -> Option<HeldPiece> {
    if !in_editor(x, y) {
        Option::None
    } else if y < BOARD_Y + BOX_DIMENSION {
        shelf_target(top_player(v.flipped), slot_piece(slot_at(x)))
    } else if y > BOARD_Y + 9 * BOX_DIMENSION {
        shelf_target(bottom_player(v.flipped), slot_piece(slot_at(x)))
    } else {
        board_target(v, x, y)
    }
}

/// The grid cell under (`x`, `y`) when the pointer is released; none outside
/// the grid.
pub open spec fn release_cell(flipped: bool, x: int, y: int) -> Option<(int, int)> {
    let grid_top = BOARD_Y + BOX_DIMENSION;
    if BOARD_X < x < BOARD_X + 8 * BOX_DIMENSION && grid_top < y < grid_top + 8 * BOX_DIMENSION {
        Option::Some(
            (
                oriented(flipped, (y - grid_top) / (BOX_DIMENSION as int)),
                oriented(flipped, (x - BOARD_X) / (BOX_DIMENSION as int)),
            ),
        )
    } else {
        Option::None
    }
}

/// Releasing the pointer at (`x`, `y`): the held piece lands on the cell
/// there, or leaves the grid.
pub open spec fn release(v: BoardView, x: int, y: int) -> BoardView {
    match release_cell(v.flipped, x, y) {
        Option::Some((r, c)) => drop_on_cell(v, r, c),
        Option::None => drop_outside(v),
    }
}

/// The state after `event`.
pub open spec fn after_event(v: BoardView, event: PointerEvent) -> BoardView {
    match event {
        PointerEvent::ButtonDown { x, y } => select(v, press_target(v, x as int, y as int)),
        PointerEvent::ButtonUp { x, y } => release(v, x as int, y as int),
        PointerEvent::Axes { .. } => v,
    }
}

/// Whether the editor takes `event` for itself: a press inside it, or a
/// release while a piece is held.
pub open spec fn consumes(v: BoardView, event: PointerEvent) -> bool {
    match event {
        PointerEvent::ButtonDown { x, y } => in_editor(x as int, y as int),
        PointerEvent::ButtonUp { .. } => v.held is Some,
        PointerEvent::Axes { .. } => false,
    }
}

/// The cell every cleared grid holds.
pub open spec fn blank() -> PlayerPiece {
    PlayerPiece { player: 0, piece_idx: Piece::Empty }
}

/// A grid with no piece on it.
pub open spec fn empty_grid() -> Seq<Seq<PlayerPiece>> {
    Seq::new(8, |r: int| Seq::new(8, |c: int| blank()))
}

/// The piece that starts on column `c` of a back rank.
pub open spec fn back_rank(c: int) -> Piece {
    if c == 0 || c == 7 {
        Piece::Rook
    } else if c == 1 || c == 6 {
        Piece::Knight
    } else if c == 2 || c == 5 {
        Piece::Bishop
    } else if c == 3 {
        Piece::Queen
    } else {
        Piece::King
    }
}

/// The cell (`r`, `c`) of the initial position: Black (player 0) on rows 0
/// and 1, White (player 1) on rows 6 and 7.
pub open spec fn start_cell(r: int, c: int) -> PlayerPiece {
    if r == 0 {
        PlayerPiece { player: 0, piece_idx: back_rank(c) }
    } else if r == 1 {
        PlayerPiece { player: 0, piece_idx: Piece::Pawn }
    } else if r == 6 {
        PlayerPiece { player: 1, piece_idx: Piece::Pawn }
    } else if r == 7 {
        PlayerPiece { player: 1, piece_idx: back_rank(c) }
    } else {
        blank()
    }
}

/// The initial chess position.
pub open spec fn start_grid() -> Seq<Seq<PlayerPiece>> {
    Seq::new(8, |r: int| Seq::new(8, |c: int| start_cell(r, c)))
}

fn back_rank_row(player: usize) -> (r: [PlayerPiece; 8])
    ensures
        forall|c: int| 0 <= c < 8 ==> #[trigger] r[c] == (PlayerPiece { player, piece_idx: back_rank(c) }),
{
    [
        PlayerPiece { player, piece_idx: Piece::Rook },
        PlayerPiece { player, piece_idx: Piece::Knight },
        PlayerPiece { player, piece_idx: Piece::Bishop },
        PlayerPiece { player, piece_idx: Piece::Queen },
        PlayerPiece { player, piece_idx: Piece::King },
        PlayerPiece { player, piece_idx: Piece::Bishop },
        PlayerPiece { player, piece_idx: Piece::Knight },
        PlayerPiece { player, piece_idx: Piece::Rook },
    ]
}

fn orient(flipped: bool, k: usize) -> (r: usize)
    requires
        k < 8,
    ensures
        r == oriented(flipped, k as int),
        r < 8,
{
    if flipped {
        7 - k
    } else {
        k
    }
}

/// The editor's state, with its grid stored row 0 first whatever the
/// orientation of the display.
pub struct Board {
    board: [[PlayerPiece; 8]; 8],
    selected_piece: Option<HeldPiece>,
    flipped: bool,
}

impl View for Board {
    type V = BoardView;

    closed spec fn view(&self) -> BoardView {
        BoardView { grid: grid_view(self.board), held: self.selected_piece, flipped: self.flipped }
    }
}

proof fn lemma_grid_view_shaped(board: [[PlayerPiece; 8]; 8])
    ensures
        grid_shaped(grid_view(board)),
        forall|r: int| 0 <= r < 8 ==> #[trigger] grid_view(board)[r] == board[r]@,
{
}

impl Board {
    /// The board's invariant, which every method keeps.
    pub open spec fn wf(&self) -> bool {
        well_formed(self@)
    }

    /// An empty board, nothing held, shown the right way up.
    pub fn new() -> (r: Board)
        ensures
            r.wf(),
            r@.grid == empty_grid(),
            r@.held is None,
            !r@.flipped,
    {
        let cell = PlayerPiece { player: 0, piece_idx: Piece::Empty };
        let r = Board { board: [[cell; 8]; 8], selected_piece: Option::None, flipped: false };
        proof {
            lemma_grid_view_shaped(r.board);
            assert(r@.grid =~~= empty_grid());
        }
        r
    }

    /// A copy of the grid, row 0 first.
    pub fn grid(&self) -> (r: [[PlayerPiece; 8]; 8])
        ensures
            grid_view(r) == self@.grid,
    {
        self.board
    }

    /// The piece being dragged, if any.
    pub fn selected_piece(&self) -> (r: Option<HeldPiece>)
        ensures
            r == self@.held,
    {
        self.selected_piece
    }

    /// Whether the display is turned around.
    pub fn is_flipped(&self) -> (r: bool)
        ensures
            r == self@.flipped,
    {
        self.flipped
    }

    /// Starts dragging a fresh piece of `player` of kind `piece` from a
    /// shelf; asking for `Empty` changes nothing. A piece already held is
    /// replaced.
    pub fn pick_from_shelf(&mut self, player: usize, piece: Piece)
        requires
            old(self).wf(),
        ensures
            final(self).wf(),
            final(self)@ == select(old(self)@, shelf_target(player, piece)),
    {
        match piece {
            Piece::Empty => {},
            _ => {
                self.selected_piece = Option::Some(
                    HeldPiece { piece: PlayerPiece { player, piece_idx: piece }, source: Source::Shelf },
                );
            },
        }
    }

    /// Starts dragging the piece on (`row`, `col`); an empty cell or one off
    /// the grid changes nothing. A piece already held is replaced.
    pub fn pick_from_cell(&mut self, row: usize, col: usize)
        requires
            old(self).wf(),
        ensures
            final(self).wf(),
            final(self)@ == select(old(self)@, cell_target(old(self)@, row as int, col as int)),
    {
        proof {
            lemma_grid_view_shaped(self.board);
        }
        if row < ROWS && col < COLUMNS {
            let piece = self.board[row][col];
            match piece.piece_idx {
                Piece::Empty => {},
                _ => {
                    self.selected_piece = Option::Some(
                        HeldPiece { piece, source: Source::Board { i: row, j: col } },
                    );
                },
            }
        }
    }

    /// Drops the held piece on (`row`, `col`), as `drop_on_cell` says; a cell
    /// off the grid counts as a release away from it.
    pub fn move_selected_piece(&mut self, row: usize, col: usize)
        requires
            old(self).wf(),
        ensures
            final(self).wf(),
            final(self)@ == (if row < 8 && col < 8 {
                drop_on_cell(old(self)@, row as int, col as int)
            } else {
                drop_outside(old(self)@)
            }),
    {
        if row >= ROWS || col >= COLUMNS {
            self.discard_selected_piece();
            return;
        }
        proof {
            lemma_grid_view_shaped(self.board);
        }
        if let Option::Some(held) = self.selected_piece {
            match held.source {
                Source::Shelf => {
                    self.set_cell(row, col, held.piece);
                },
                Source::Board { i, j } => {
                    if i != row || j != col {
                        let origin = self.board[i][j];
                        self.set_cell(row, col, held.piece);
                        self.set_cell(i, j, PlayerPiece { piece_idx: Piece::Empty, ..origin });
                    }
                },
            }
            self.selected_piece = Option::None;
        }
        proof {
            lemma_grid_view_shaped(self.board);
        }
    }

    /// Lets go of the held piece away from the grid; see `drop_outside`.
    pub fn discard_selected_piece(&mut self)
        requires
            old(self).wf(),
        ensures
            final(self).wf(),
            final(self)@ == drop_outside(old(self)@),
    {
        proof {
            lemma_grid_view_shaped(self.board);
        }
        if let Option::Some(held) = self.selected_piece {
            if let Source::Board { i, j } = held.source {
                let origin = self.board[i][j];
                self.set_cell(i, j, PlayerPiece { piece_idx: Piece::Empty, ..origin });
            }
            self.selected_piece = Option::None;
        }
        proof {
            lemma_grid_view_shaped(self.board);
        }
    }

    /// Empties every cell and lets go of any held piece.
    pub fn clear_board(&mut self)
        requires
            old(self).wf(),
        ensures
            final(self).wf(),
            final(self)@ == (BoardView { grid: empty_grid(), held: Option::None, ..old(self)@ }),
    {
        let cell = PlayerPiece { player: 0, piece_idx: Piece::Empty };
        self.board = [[cell; 8]; 8];
        self.selected_piece = Option::None;
        proof {
            lemma_grid_view_shaped(self.board);
            assert(self@.grid =~~= empty_grid());
        }
    }

    /// Sets up the initial chess position and lets go of any held piece.
    pub fn set_starting_position(&mut self)
        requires
            old(self).wf(),
        ensures
            final(self).wf(),
            final(self)@ == (BoardView { grid: start_grid(), held: Option::None, ..old(self)@ }),
    {
        let blank = PlayerPiece { player: 0, piece_idx: Piece::Empty };
        let mut board = [[blank; 8]; 8];
        board[0] = back_rank_row(0);
        board[1] = [PlayerPiece { player: 0, piece_idx: Piece::Pawn }; 8];
        board[6] = [PlayerPiece { player: 1, piece_idx: Piece::Pawn }; 8];
        board[7] = back_rank_row(1);
        self.board = board;
        self.selected_piece = Option::None;
        proof {
            lemma_grid_view_shaped(self.board);
            assert(self@.grid =~~= start_grid());
        }
    }

    /// Turns the display around and lets go of any held piece; the grid is
    /// stored as it was.
    pub fn flip_board(&mut self)
        requires
            old(self).wf(),
        ensures
            final(self).wf(),
            final(self)@ == (BoardView { held: Option::None, flipped: !old(self)@.flipped, ..old(self)@ }),
    {
        self.flipped = !self.flipped;
        self.selected_piece = Option::None;
    }

    /// The position string of the grid, with `player` to move (0 is Black)
    /// and the given castling rights (king side, queen side) of each side.
    pub fn generate_fen(&self, player: usize, castle_white: (bool, bool), castle_black: (bool, bool)) -> (r: String)
        ensures
            r@ == fen_text(self@.grid, player, castle_white, castle_black),
    {
        generate_fen_from_board(self.board, player, castle_white, castle_black)
    }

    /// A press at horizontal position `x` on the shelf of `player`.
    pub fn select_piece_from_shelf(&mut self, x: i32, side: usize)
        requires
            old(self).wf(),
        ensures
            final(self).wf(),
            final(self)@ == select(old(self)@, shelf_target(side, slot_piece(slot_at(x as int)))),
    {
        if x > BOARD_X {
            let idx = ((x - BOARD_X) / BOX_DIMENSION) as usize;
            if idx > 0 {
                self.pick_from_shelf(side, Piece::from_usize(idx - 1));
            }
        }
    }

    /// A press at (`x`, `y`) on the grid.
    pub fn select_piece_from_board(&mut self, x: i32, y: i32)
        requires
            old(self).wf(),
        ensures
            final(self).wf(),
            final(self)@ == select(old(self)@, board_target(old(self)@, x as int, y as int)),
    {
        let grid_top = BOARD_Y + BOX_DIMENSION;
        if x >= BOARD_X && y >= grid_top {
            let col = ((x - BOARD_X) / BOX_DIMENSION) as usize;
            let row = ((y - grid_top) / BOX_DIMENSION) as usize;
            if row < ROWS && col < COLUMNS {
                let r = orient(self.flipped, row);
                let c = orient(self.flipped, col);
                self.pick_from_cell(r, c);
            }
        }
    }

    /// Handles one pointer event and says whether the editor took it.
    pub fn event_listener(&mut self, event: &PointerEvent) -> (r: bool)
        requires
            old(self).wf(),
        ensures
            final(self).wf(),
            final(self)@ == after_event(old(self)@, *event),
            r == consumes(old(self)@, *event),
    {
        match *event {
            PointerEvent::ButtonDown { x, y } => {
                if BOARD_X < x && x < BOARD_X + 8 * BOX_DIMENSION && BOARD_Y < y && y < BOARD_Y + 10
                    * BOX_DIMENSION {
                    let (top, bottom): (usize, usize) = if self.flipped {
                        (1, 0)
                    } else {
                        (0, 1)
                    };
                    if y < BOARD_Y + BOX_DIMENSION {
                        self.select_piece_from_shelf(x, top);
                    } else if y > BOARD_Y + 9 * BOX_DIMENSION {
                        self.select_piece_from_shelf(x, bottom);
                    } else {
                        self.select_piece_from_board(x, y);
                    }
                    return true;
                }
                false
            },
            PointerEvent::ButtonUp { x, y } => {
                if self.selected_piece.is_some() {
                    let grid_top = BOARD_Y + BOX_DIMENSION;
                    if BOARD_X < x && x < BOARD_X + 8 * BOX_DIMENSION && grid_top < y && y < grid_top
                        + 8 * BOX_DIMENSION {
                        let col = ((x - BOARD_X) / BOX_DIMENSION) as usize;
                        let row = ((y - grid_top) / BOX_DIMENSION) as usize;
                        let r = orient(self.flipped, row);
                        let c = orient(self.flipped, col);
                        self.move_selected_piece(r, c);
                    } else {
                        self.discard_selected_piece();
                    }
                    return true;
                }
                false
            },
            PointerEvent::Axes { .. } => false,
        }
    }

    fn set_cell(&mut self, r: usize, c: usize, p: PlayerPiece)
        requires
            r < 8,
            c < 8,
        ensures
            final(self)@ == (BoardView { grid: with_cell(old(self)@.grid, r as int, c as int, p), ..old(self)@ }),
    {
        let mut row = self.board[r];
        row[c] = p;
        self.board[r] = row;
        proof {
            lemma_grid_view_shaped(self.board);
            lemma_grid_view_shaped(old(self).board);
            assert(grid_view(self.board) =~~= with_cell(grid_view(old(self).board), r as int, c as int, p));
        }
    }
}

/// A piece taken from a shelf and dropped on cell (`r`, `c`) lands there as
/// it was offered, and every other cell keeps what it held.
pub proof fn lemma_shelf_piece_drop(v: BoardView, player: usize, piece: Piece, r: int, c: int)
    requires
        well_formed(v),
        piece != Piece::Empty,
        0 <= r < 8,
        0 <= c < 8,
    ensures
        ({
            let w = drop_on_cell(select(v, shelf_target(player, piece)), r, c);
            &&& well_formed(w)
            &&& w.held is None
            &&& w.grid[r][c] == (PlayerPiece { player, piece_idx: piece })
            &&& forall|r2: int, c2: int|
                0 <= r2 < 8 && 0 <= c2 < 8 && (r2 != r || c2 != c) ==> #[trigger] w.grid[r2][c2]
                    == v.grid[r2][c2]
        }),
{
}

/// A piece dragged from cell (`i`, `j`) to another cell (`r`, `c`) leaves its
/// cell empty and stands on the new one, every other cell unchanged; dropped
/// back on its own cell it changes nothing.
pub proof fn lemma_board_piece_drop(v: BoardView, i: int, j: int, r: int, c: int)
    requires
        well_formed(v),
        0 <= i < 8,
        0 <= j < 8,
        0 <= r < 8,
        0 <= c < 8,
        v.grid[i][j].piece_idx != Piece::Empty,
    ensures
        ({
            let w = drop_on_cell(select(v, cell_target(v, i, j)), r, c);
            &&& well_formed(w)
            &&& w.held is None
            &&& (i == r && j == c) ==> w.grid == v.grid
            &&& (i != r || j != c) ==> {
                &&& w.grid[i][j].piece_idx == Piece::Empty
                &&& w.grid[r][c] == v.grid[i][j]
                &&& forall|r2: int, c2: int|
                    0 <= r2 < 8 && 0 <= c2 < 8 && (r2 != r || c2 != c) && (r2 != i || c2 != j)
                        ==> #[trigger] w.grid[r2][c2] == v.grid[r2][c2]
            }
        }),
{
}

/// A piece dragged from cell (`i`, `j`) and released away from the grid is
/// gone from it, and no other cell changes.
pub proof fn lemma_board_piece_removed(v: BoardView, i: int, j: int)
    requires
        well_formed(v),
        0 <= i < 8,
        0 <= j < 8,
        v.grid[i][j].piece_idx != Piece::Empty,
    ensures
        ({
            let w = drop_outside(select(v, cell_target(v, i, j)));
            &&& well_formed(w)
            &&& w.held is None
            &&& w.grid[i][j].piece_idx == Piece::Empty
            &&& forall|r2: int, c2: int|
                0 <= r2 < 8 && 0 <= c2 < 8 && (r2 != i || c2 != j) ==> #[trigger] w.grid[r2][c2]
                    == v.grid[r2][c2]
        }),
{
}

/// Of two presses with no release between them, the second one picks up
/// what it hits in place of what the first one picked up, and keeps the first
/// one's piece when it hits nothing; neither changes the grid.
pub proof fn lemma_second_press(v: BoardView, x1: i32, y1: i32, x2: i32, y2: i32)
    ensures
        ({
            let first = after_event(v, PointerEvent::ButtonDown { x: x1, y: y1 });
            let second = after_event(first, PointerEvent::ButtonDown { x: x2, y: y2 });
            let target = press_target(v, x2 as int, y2 as int);
            &&& second.grid == v.grid
            &&& second.flipped == v.flipped
            &&& target is Some ==> second.held == target
            &&& target is None ==> second.held == first.held
        }),
{
    let first = after_event(v, PointerEvent::ButtonDown { x: x1, y: y1 });
    assert(press_target(first, x2 as int, y2 as int) == press_target(v, x2 as int, y2 as int));
}

} // verus!
