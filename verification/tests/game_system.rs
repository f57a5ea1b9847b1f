use tetris_game::events::{GameRxEvent, GameTxEvent, InputEvent};
use tetris_game::game_system::{
    BoardPixel, TetrisGameSystem, BOARD_HEIGHT, BOARD_WIDTH, VISIBLE_HEIGHT, VISIBLE_WIDTH,
};
use tetris_game::piece::Piece;
use tetris_game::tetrimino::{PieceColor, Tetrimino};

const GRAY: BoardPixel = BoardPixel::Filled(PieceColor::Gray);

fn offset(system: &TetrisGameSystem) -> (usize, usize) {
    system.piece().expect("a fresh board has a piece").offset()
}

#[test]
fn fresh_board_has_gray_walls_and_floor() {
    let system = TetrisGameSystem::new();
    for x in 0..BOARD_WIDTH {
        for y in 0..BOARD_HEIGHT {
            let expected = if x == 0 || x == BOARD_WIDTH - 1 || y == 0 {
                GRAY
            } else {
                BoardPixel::Empty
            };
            assert_eq!(system.board_pixel(x, y), expected, "pixel ({}, {})", x, y);
        }
    }
    assert_eq!(BOARD_WIDTH, 12);
    assert_eq!(BOARD_HEIGHT, 24);
    assert_eq!(VISIBLE_WIDTH, 12);
    assert_eq!(VISIBLE_HEIGHT, 22);
}

#[test]
fn fresh_board_spawns_an_s_piece_at_five_five() {
    let system = TetrisGameSystem::new();
    let piece = system.piece().expect("a fresh board has a piece");
    assert_eq!(piece.offset(), (5, 5));
    assert_eq!(piece.tetrimino(), Tetrimino::S);
}

#[test]
fn moves_shift_the_piece() {
    let mut system = TetrisGameSystem::new();
    let cases = [
        (InputEvent::Left, (4, 5)),
        (InputEvent::Right, (5, 5)),
        (InputEvent::Right, (6, 5)),
        (InputEvent::RotateClockwise, (6, 6)),
        (InputEvent::DropSoft, (6, 5)),
        (InputEvent::DropSoft, (6, 4)),
        (InputEvent::RotateCounterClockwise, (6, 4)),
        (InputEvent::DropHard, (6, 4)),
    ];
    for (input, expected) in cases {
        let event = GameRxEvent::Input(input);
        assert!(system.accepts(&event));
        let answer = system.receive(event);
        assert!(answer.board_changed);
        assert_eq!(answer.events, vec![GameTxEvent::RxEvent(event)]);
        assert_eq!(offset(&system), expected, "after {:?}", input);
    }
}

#[test]
fn handle_input_matches_receive() {
    let mut system = TetrisGameSystem::new();
    let answer = system.handle_input(InputEvent::Right);
    assert!(answer.board_changed);
    assert_eq!(
        answer.events,
        vec![GameTxEvent::RxEvent(GameRxEvent::Input(InputEvent::Right))]
    );
    assert_eq!(offset(&system), (6, 5));
}

#[test]
fn tick_and_add_rows_are_forwarded_and_change_nothing() {
    let mut system = TetrisGameSystem::new();
    let answer = system.receive(GameRxEvent::Tick);
    assert!(answer.board_changed);
    assert_eq!(answer.events, vec![GameTxEvent::RxEvent(GameRxEvent::Tick)]);
    let answer = system.receive(GameRxEvent::AddRows(3));
    assert!(answer.board_changed);
    assert_eq!(answer.events, vec![GameTxEvent::RxEvent(GameRxEvent::AddRows(3))]);
    assert_eq!(offset(&system), (5, 5));
    let answer = system.tick();
    assert_eq!(answer.events, vec![GameTxEvent::RxEvent(GameRxEvent::Tick)]);
    let answer = system.add_rows(7);
    assert_eq!(answer.events, vec![GameTxEvent::RxEvent(GameRxEvent::AddRows(7))]);
}

#[test]
fn left_then_right_restores_the_piece() {
    let mut system = TetrisGameSystem::new();
    system.receive(GameRxEvent::Input(InputEvent::Left));
    system.receive(GameRxEvent::Input(InputEvent::Right));
    assert_eq!(offset(&system), (5, 5));
    system.receive(GameRxEvent::Input(InputEvent::DropSoft));
    system.receive(GameRxEvent::Input(InputEvent::RotateClockwise));
    assert_eq!(offset(&system), (5, 5));
}

#[test]
fn a_move_at_the_edge_of_usize_is_refused() {
    let mut system = TetrisGameSystem::new();
    for _ in 0..5 {
        system.receive(GameRxEvent::Input(InputEvent::Left));
    }
    assert_eq!(offset(&system), (0, 5));
    assert!(!system.accepts(&GameRxEvent::Input(InputEvent::Left)));
    assert!(system.accepts(&GameRxEvent::Input(InputEvent::Right)));
    assert!(system.accepts(&GameRxEvent::Tick));
    for _ in 0..5 {
        system.receive(GameRxEvent::Input(InputEvent::DropSoft));
    }
    assert!(!system.accepts(&GameRxEvent::Input(InputEvent::DropSoft)));
}

#[test]
fn moves_never_change_the_settled_pixels() {
    let mut system = TetrisGameSystem::new();
    let before: Vec<BoardPixel> = (0..BOARD_WIDTH)
        .flat_map(|x| (0..BOARD_HEIGHT).map(move |y| (x, y)))
        .map(|(x, y)| system.board_pixel(x, y))
        .collect();
    for input in [InputEvent::Left, InputEvent::DropSoft, InputEvent::RotateClockwise] {
        system.receive(GameRxEvent::Input(input));
    }
    system.receive(GameRxEvent::AddRows(2));
    let after: Vec<BoardPixel> = (0..BOARD_WIDTH)
        .flat_map(|x| (0..BOARD_HEIGHT).map(move |y| (x, y)))
        .map(|(x, y)| system.board_pixel(x, y))
        .collect();
    assert_eq!(before, after);
}

#[test]
fn frame_draws_the_piece_over_the_board() {
    let system = TetrisGameSystem::new();
    assert!(system.piece_in_view());
    let frame = system.frame();
    assert_eq!(frame.len(), VISIBLE_WIDTH);
    let green = BoardPixel::Filled(PieceColor::Green);
    let piece_cells = [(6, 5), (7, 5), (5, 6), (6, 6)];
    for x in 0..VISIBLE_WIDTH {
        assert_eq!(frame[x].len(), VISIBLE_HEIGHT);
        for y in 0..VISIBLE_HEIGHT {
            let expected = if piece_cells.contains(&(x, y)) {
                green
            } else {
                system.board_pixel(x, y)
            };
            assert_eq!(frame[x][y], expected, "pixel ({}, {})", x, y);
            assert_eq!(system.shown_pixel(x, y), expected);
        }
    }
}

#[test]
fn piece_at_the_left_wall_is_drawn_over_it() {
    let mut system = TetrisGameSystem::new();
    for _ in 0..5 {
        system.receive(GameRxEvent::Input(InputEvent::Left));
    }
    assert!(system.piece_in_view());
    let frame = system.frame();
    assert_eq!(frame[0][6], BoardPixel::Filled(PieceColor::Green));
    assert_eq!(frame[0][5], GRAY);
}

#[test]
fn piece_past_the_right_edge_is_out_of_view() {
    let mut system = TetrisGameSystem::new();
    for _ in 0..4 {
        system.receive(GameRxEvent::Input(InputEvent::Right));
    }
    // the box stands at column 9; its rightmost filled cell at column 11
    assert!(system.piece_in_view());
    system.receive(GameRxEvent::Input(InputEvent::Right));
    assert!(!system.piece_in_view());
    let mut system = TetrisGameSystem::new();
    for _ in 0..16 {
        system.receive(GameRxEvent::Input(InputEvent::RotateClockwise));
    }
    assert_eq!(offset(&system), (5, 21));
    assert!(!system.piece_in_view());
}

#[test]
fn new_piece_keeps_offset_and_tetrimino() {
    let piece = Piece::new(Tetrimino::T, (2, 9));
    assert_eq!(piece.offset(), (2, 9));
    assert_eq!(piece.tetrimino(), Tetrimino::T);
    assert_eq!(piece.box_size(), 3);
    assert!(piece.fills(0, 1));
    assert!(!piece.fills(0, 0));
    assert!(!piece.fills(3, 1));
    assert!(!piece.fills(1, 3));
}

#[test]
fn set_offset_moves_only_the_box() {
    let mut piece = Piece::new(Tetrimino::L, (1, 1));
    piece.set_offset((4, 7));
    assert_eq!(piece.offset(), (4, 7));
    assert_eq!(piece.tetrimino(), Tetrimino::L);
    assert!(piece.fills(0, 2));
}

#[test]
fn offset_after_a_run_counts_each_move() {
    let runs = [
        vec![
            InputEvent::Left,
            InputEvent::Left,
            InputEvent::RotateClockwise,
            InputEvent::Right,
            InputEvent::DropSoft,
            InputEvent::DropSoft,
            InputEvent::DropHard,
        ],
        vec![
            InputEvent::DropSoft,
            InputEvent::DropHard,
            InputEvent::Right,
            InputEvent::DropSoft,
            InputEvent::Left,
            InputEvent::RotateClockwise,
            InputEvent::Left,
        ],
    ];
    for run in runs {
        let mut system = TetrisGameSystem::new();
        for input in &run {
            let event = GameRxEvent::Input(*input);
            assert!(system.accepts(&event));
            system.receive(event);
            system.receive(GameRxEvent::Tick);
        }
        // two left, one right, one up, two down from (5, 5)
        assert_eq!(offset(&system), (4, 4));
    }
}
