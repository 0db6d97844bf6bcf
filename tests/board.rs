use board_editor::board::{
    Board, HeldPiece, Piece, PlayerPiece, PointerEvent, Source, BOARD_X, BOARD_Y, BOX_DIMENSION,
};

fn shelf_point(slot: i32, top: bool) -> (i32, i32) {
    let y = if top { BOARD_Y + BOX_DIMENSION / 2 } else { BOARD_Y + 9 * BOX_DIMENSION + BOX_DIMENSION / 2 };
    (BOARD_X + slot * BOX_DIMENSION + BOX_DIMENSION / 2, y)
}

fn cell_point(row: i32, col: i32) -> (i32, i32) {
    (
        BOARD_X + col * BOX_DIMENSION + BOX_DIMENSION / 2,
        BOARD_Y + (row + 1) * BOX_DIMENSION + BOX_DIMENSION / 2,
    )
}

fn down(p: (i32, i32)) -> PointerEvent {
    PointerEvent::ButtonDown { x: p.0, y: p.1 }
}

fn up(p: (i32, i32)) -> PointerEvent {
    PointerEvent::ButtonUp { x: p.0, y: p.1 }
}

fn kind(board: &Board, r: usize, c: usize) -> Piece {
    board.grid()[r][c].piece_idx
}

#[test]
fn piece_from_index() {
    assert_eq!(Piece::from_usize(0), Piece::Bishop);
    assert_eq!(Piece::from_usize(1), Piece::King);
    assert_eq!(Piece::from_usize(2), Piece::Knight);
    assert_eq!(Piece::from_usize(3), Piece::Pawn);
    assert_eq!(Piece::from_usize(4), Piece::Queen);
    assert_eq!(Piece::from_usize(5), Piece::Rook);
    assert_eq!(Piece::from_usize(6), Piece::Empty);
    assert_eq!(Piece::from_usize(usize::MAX), Piece::Empty);
}

#[test]
fn new_board_is_empty_and_idle() {
    let board = Board::new();
    assert!(board.selected_piece().is_none());
    assert!(!board.is_flipped());
    for row in board.grid().iter() {
        for cell in row.iter() {
            assert_eq!(cell.piece_idx, Piece::Empty);
        }
    }
}

#[test]
fn shelf_piece_dropped_on_cell() {
    let mut board = Board::new();
    board.set_starting_position();
    let before = board.grid();
    board.pick_from_shelf(1, Piece::Queen);
    board.move_selected_piece(3, 5);
    let after = board.grid();
    assert_eq!(after[3][5], PlayerPiece { player: 1, piece_idx: Piece::Queen });
    for r in 0..8 {
        for c in 0..8 {
            if (r, c) != (3, 5) {
                assert_eq!(after[r][c], before[r][c]);
            }
        }
    }
    assert!(board.selected_piece().is_none());
}

#[test]
fn shelf_piece_overwrites_occupied_cell() {
    let mut board = Board::new();
    board.set_starting_position();
    board.pick_from_shelf(0, Piece::Knight);
    board.move_selected_piece(7, 4);
    assert_eq!(board.grid()[7][4], PlayerPiece { player: 0, piece_idx: Piece::Knight });
}

#[test]
fn shelf_marker_and_empty_pick_nothing() {
    let mut board = Board::new();
    board.pick_from_shelf(0, Piece::Empty);
    assert!(board.selected_piece().is_none());
    assert!(board.event_listener(&down(shelf_point(0, true))));
    assert!(board.selected_piece().is_none());
    board.select_piece_from_shelf(BOARD_X + 7 * BOX_DIMENSION + 10, 0);
    assert!(board.selected_piece().is_none());
    board.select_piece_from_shelf(BOARD_X - 10, 0);
    assert!(board.selected_piece().is_none());
}

#[test]
fn shelf_slots_by_pointer() {
    let mut board = Board::new();
    let kinds = [Piece::Bishop, Piece::King, Piece::Knight, Piece::Pawn, Piece::Queen, Piece::Rook];
    for slot in 1..7 {
        assert!(board.event_listener(&down(shelf_point(slot, true))));
        assert_eq!(
            board.selected_piece(),
            Some(HeldPiece {
                piece: PlayerPiece { player: 0, piece_idx: kinds[(slot - 1) as usize] },
                source: Source::Shelf
            })
        );
        assert!(board.event_listener(&down(shelf_point(slot, false))));
        assert_eq!(
            board.selected_piece(),
            Some(HeldPiece {
                piece: PlayerPiece { player: 1, piece_idx: kinds[(slot - 1) as usize] },
                source: Source::Shelf
            })
        );
    }
}

#[test]
fn drag_piece_to_other_cell() {
    let mut board = Board::new();
    board.set_starting_position();
    let before = board.grid();
    assert!(board.event_listener(&down(cell_point(1, 4))));
    assert!(board.event_listener(&up(cell_point(3, 4))));
    let after = board.grid();
    assert_eq!(after[1][4].piece_idx, Piece::Empty);
    assert_eq!(after[3][4], PlayerPiece { player: 0, piece_idx: Piece::Pawn });
    for r in 0..8 {
        for c in 0..8 {
            if (r, c) != (1, 4) && (r, c) != (3, 4) {
                assert_eq!(after[r][c], before[r][c]);
            }
        }
    }
    assert!(board.selected_piece().is_none());
}

#[test]
fn drag_piece_captures_by_overwriting() {
    let mut board = Board::new();
    board.set_starting_position();
    board.pick_from_cell(7, 3);
    board.move_selected_piece(0, 3);
    assert_eq!(board.grid()[0][3], PlayerPiece { player: 1, piece_idx: Piece::Queen });
    assert_eq!(kind(&board, 7, 3), Piece::Empty);
}

#[test]
fn drop_on_own_cell_changes_nothing() {
    let mut board = Board::new();
    board.set_starting_position();
    let before = board.grid();
    assert!(board.event_listener(&down(cell_point(0, 0))));
    assert!(board.event_listener(&up(cell_point(0, 0))));
    assert_eq!(board.grid(), before);
    assert!(board.selected_piece().is_none());
}

#[test]
fn drag_piece_off_the_grid_removes_it() {
    let mut board = Board::new();
    board.set_starting_position();
    let before = board.grid();
    board.pick_from_cell(6, 2);
    assert!(board.event_listener(&up((20, 20))));
    let after = board.grid();
    assert_eq!(after[6][2].piece_idx, Piece::Empty);
    for r in 0..8 {
        for c in 0..8 {
            if (r, c) != (6, 2) {
                assert_eq!(after[r][c], before[r][c]);
            }
        }
    }
    assert!(board.selected_piece().is_none());
}

#[test]
fn release_on_shelf_discards_shelf_piece() {
    let mut board = Board::new();
    let before = board.grid();
    board.pick_from_shelf(1, Piece::Rook);
    assert!(board.event_listener(&up(shelf_point(3, true))));
    assert_eq!(board.grid(), before);
    assert!(board.selected_piece().is_none());
}

#[test]
fn second_press_reselects() {
    let mut board = Board::new();
    board.set_starting_position();
    let before = board.grid();
    assert!(board.event_listener(&down(cell_point(7, 6))));
    assert!(board.event_listener(&down(shelf_point(5, true))));
    assert_eq!(
        board.selected_piece(),
        Some(HeldPiece { piece: PlayerPiece { player: 0, piece_idx: Piece::Queen }, source: Source::Shelf })
    );
    assert_eq!(board.grid(), before);
    assert!(board.event_listener(&down(cell_point(4, 4))));
    assert_eq!(
        board.selected_piece(),
        Some(HeldPiece { piece: PlayerPiece { player: 0, piece_idx: Piece::Queen }, source: Source::Shelf })
    );
    assert!(board.event_listener(&down(cell_point(6, 0))));
    assert_eq!(
        board.selected_piece(),
        Some(HeldPiece { piece: PlayerPiece { player: 1, piece_idx: Piece::Pawn }, source: Source::Board { i: 6, j: 0 } })
    );
    assert_eq!(board.grid(), before);
}

#[test]
fn press_on_empty_cell_or_outside_is_ignored() {
    let mut board = Board::new();
    assert!(board.event_listener(&down(cell_point(3, 3))));
    assert!(board.selected_piece().is_none());
    assert!(!board.event_listener(&down((5, 5))));
    assert!(!board.event_listener(&down((BOARD_X + 8 * BOX_DIMENSION + 1, 300))));
    assert!(board.selected_piece().is_none());
}

#[test]
fn release_without_held_piece_is_not_taken() {
    let mut board = Board::new();
    board.set_starting_position();
    let before = board.grid();
    assert!(!board.event_listener(&up(cell_point(2, 2))));
    assert_eq!(board.grid(), before);
}

#[test]
fn pointer_motion_is_not_taken() {
    let mut board = Board::new();
    board.pick_from_shelf(0, Piece::Pawn);
    let held = board.selected_piece();
    assert!(!board.event_listener(&PointerEvent::Axes { x: 300, y: 300 }));
    assert_eq!(board.selected_piece(), held);
}

#[test]
fn flipped_board_maps_pointer_to_turned_cells() {
    let mut board = Board::new();
    board.set_starting_position();
    board.flip_board();
    assert!(board.is_flipped());
    assert!(board.event_listener(&down(cell_point(0, 0))));
    assert_eq!(
        board.selected_piece(),
        Some(HeldPiece { piece: PlayerPiece { player: 1, piece_idx: Piece::Rook }, source: Source::Board { i: 7, j: 7 } })
    );
    assert!(board.event_listener(&up(cell_point(2, 0))));
    assert_eq!(board.grid()[5][7], PlayerPiece { player: 1, piece_idx: Piece::Rook });
    assert_eq!(kind(&board, 7, 7), Piece::Empty);
    assert!(board.event_listener(&down(shelf_point(2, true))));
    assert_eq!(board.selected_piece().unwrap().piece.player, 1);
    assert!(board.event_listener(&down(shelf_point(2, false))));
    assert_eq!(board.selected_piece().unwrap().piece.player, 0);
}

#[test]
fn commands_let_go_of_held_piece() {
    let mut board = Board::new();
    board.pick_from_shelf(0, Piece::King);
    board.flip_board();
    assert!(board.selected_piece().is_none());
    board.pick_from_shelf(0, Piece::King);
    board.clear_board();
    assert!(board.selected_piece().is_none());
    board.pick_from_shelf(0, Piece::King);
    board.set_starting_position();
    assert!(board.selected_piece().is_none());
    board.flip_board();
    assert!(!board.is_flipped());
}

#[test]
fn discard_with_nothing_held_changes_nothing() {
    let mut board = Board::new();
    board.set_starting_position();
    let before = board.grid();
    board.discard_selected_piece();
    board.move_selected_piece(4, 4);
    assert_eq!(board.grid(), before);
}

#[test]
fn pick_from_cell_out_of_range_is_ignored() {
    let mut board = Board::new();
    board.set_starting_position();
    board.pick_from_cell(8, 0);
    board.pick_from_cell(0, 9);
    board.pick_from_cell(4, 4);
    assert!(board.selected_piece().is_none());
    board.select_piece_from_board(BOARD_X + 1, BOARD_Y + 9 * BOX_DIMENSION + 5);
    assert!(board.selected_piece().is_none());
}

#[test]
fn move_to_cell_off_the_grid_removes_piece() {
    let mut board = Board::new();
    board.set_starting_position();
    board.pick_from_cell(0, 1);
    board.move_selected_piece(8, 1);
    assert_eq!(kind(&board, 0, 1), Piece::Empty);
    assert!(board.selected_piece().is_none());
    board.pick_from_shelf(1, Piece::Bishop);
    let before = board.grid();
    board.move_selected_piece(2, 11);
    assert_eq!(board.grid(), before);
    assert!(board.selected_piece().is_none());
}
