use tetris_game::piece::{Piece, Rotation};
use tetris_game::tetrimino::{PieceColor, Tetrimino};

const ALL: [Tetrimino; 7] = [
    Tetrimino::I,
    Tetrimino::J,
    Tetrimino::L,
    Tetrimino::O,
    Tetrimino::S,
    Tetrimino::T,
    Tetrimino::Z,
];

#[test]
fn colors_of_each_tetrimino() {
    let expected = [
        PieceColor::LightBlue,
        PieceColor::DarkBlue,
        PieceColor::Orange,
        PieceColor::Yellow,
        PieceColor::Green,
        PieceColor::Magenta,
        PieceColor::Red,
    ];
    for (t, c) in ALL.iter().zip(expected.iter()) {
        assert_eq!(t.color(), *c);
    }
}

#[test]
fn colors_are_distinct_and_never_gray() {
    for a in ALL {
        assert_ne!(a.color(), PieceColor::Gray);
        for b in ALL {
            if a != b {
                assert_ne!(a.color(), b.color());
            }
        }
    }
}

#[test]
fn every_bounding_box_is_square_with_four_cells() {
    for t in ALL {
        let b = t.bounding_box();
        let size = match t {
            Tetrimino::I => 4,
            Tetrimino::O => 2,
            _ => 3,
        };
        assert_eq!(b.len(), size);
        assert!(b.iter().all(|row| row.len() == size));
        let filled: usize = b.iter().map(|row| row.iter().filter(|c| **c).count()).sum();
        assert_eq!(filled, 4, "{:?}", t);
    }
}

#[test]
fn bounding_boxes_of_i_and_s() {
    assert_eq!(
        Tetrimino::I.bounding_box(),
        vec![vec![false; 4], vec![true; 4], vec![false; 4], vec![false; 4]]
    );
    assert_eq!(
        Tetrimino::S.bounding_box(),
        vec![vec![false, true, true], vec![true, true, false], vec![false, false, false]]
    );
    assert_eq!(Tetrimino::O.bounding_box(), vec![vec![true; 2], vec![true; 2]]);
}

#[test]
fn rotation_points_of_a_spawned_piece() {
    let s = Piece::new(Tetrimino::S, (5, 5));
    assert_eq!(
        s.rotation_points(Rotation::Clockwise),
        [(0, 0), (-1, 0), (-1, 1), (0, -2), (-1, -2)]
    );
    assert_eq!(
        s.rotation_points(Rotation::CounterClockwise),
        [(0, 0), (1, 0), (1, 1), (0, -2), (1, -2)]
    );
    let i = Piece::new(Tetrimino::I, (0, 0));
    assert_eq!(
        i.rotation_points(Rotation::Clockwise),
        [(0, 0), (-2, 0), (1, 0), (-2, -1), (1, 2)]
    );
    assert_eq!(
        i.rotation_points(Rotation::CounterClockwise),
        [(0, 0), (-1, 0), (2, 0), (-1, 2), (2, -1)]
    );
    let o = Piece::new(Tetrimino::O, (3, 3));
    assert_eq!(o.rotation_points(Rotation::Clockwise), [(0, 0); 5]);
    assert_eq!(o.rotation_points(Rotation::CounterClockwise), [(0, 0); 5]);
}

#[test]
fn every_rotation_starts_with_no_kick() {
    for t in ALL {
        let p = Piece::new(t, (1, 1));
        assert_eq!(p.rotation_points(Rotation::Clockwise)[0], (0, 0));
        assert_eq!(p.rotation_points(Rotation::CounterClockwise)[0], (0, 0));
    }
}
