use vstd::prelude::*;
use crate::tetrimino::{Tetrimino, spec_shape};

verus! {

/// A turn of a piece by a quarter.
#[derive(Copy, Clone, Debug, PartialEq, Eq, Structural)]
pub enum Rotation {
    Clockwise,
    CounterClockwise,
}

/// Where a piece's spawn-orientation top points.
#[derive(Copy, Clone, Debug, PartialEq, Eq, Structural)]
pub enum Orientation {
    North,
    East,
    South,
    West,
}

/// The orientation reached by a clockwise quarter turn.
pub open spec fn turned_clockwise(o: Orientation) -> Orientation {
    match o {
        Orientation::North => Orientation::East,
        Orientation::East => Orientation::South,
        Orientation::South => Orientation::West,
        Orientation::West => Orientation::North,
    }
}

/// The orientation reached by a counter-clockwise quarter turn.
pub open spec fn turned_counter_clockwise(o: Orientation) -> Orientation {
    match o {
        Orientation::North => Orientation::West,
        Orientation::East => Orientation::North,
        Orientation::South => Orientation::East,
        Orientation::West => Orientation::South,
    }
}

/// The five offsets tried, in order, when a piece of tetrimino `t` turns
/// clockwise out of orientation `o` (the super rotation system's wall kicks).
pub open spec fn clockwise_kicks(t: Tetrimino, o: Orientation) -> Seq<(int, int)> {
    match t {
        Tetrimino::O => seq![(0, 0), (0, 0), (0, 0), (0, 0), (0, 0)],
        Tetrimino::I => match o {
            Orientation::North => seq![(0, 0), (-2, 0), (1, 0), (-2, -1), (1, 2)],
            Orientation::East => seq![(0, 0), (-1, 0), (2, 0), (-1, 2), (2, -1)],
            Orientation::South => seq![(0, 0), (2, 0), (-1, 0), (2, 1), (-1, -2)],
            Orientation::West => seq![(0, 0), (1, 0), (-2, 0), (1, -2), (-2, 1)],
        },
        _ => match o {
            Orientation::North => seq![(0, 0), (-1, 0), (-1, 1), (0, -2), (-1, -2)],
            Orientation::East => seq![(0, 0), (1, 0), (1, -1), (0, 2), (1, 2)],
            Orientation::South => seq![(0, 0), (1, 0), (1, 1), (0, -2), (1, -2)],
            Orientation::West => seq![(0, 0), (-1, 0), (-1, -1), (0, 2), (-1, 2)],
        },
    }
}

/// Each offset of a list, pointed the other way.
pub open spec fn negated(s: Seq<(int, int)>) -> Seq<(int, int)> {
    Seq::new(s.len(), |i: int| (-s[i].0, -s[i].1))
}

/// The wall kicks of a turn: a counter-clockwise turn out of `o` undoes the
/// clockwise turn into `o`, so its kicks are those of that turn, negated.
pub open spec fn spec_kicks(t: Tetrimino, o: Orientation, r: Rotation) -> Seq<(int, int)> {
    match r {
        Rotation::Clockwise => clockwise_kicks(t, o),
        Rotation::CounterClockwise => negated(clockwise_kicks(t, turned_counter_clockwise(o))),
    }
}

/// What a piece is, as far as the game's rules go: where its box stands on
/// the board, which tetrimino it is, and how it is turned.
pub struct PieceState {
    pub offset: (usize, usize),
    pub tetrimino: Tetrimino,
    pub orientation: Orientation,
}

/// A falling piece: a tetrimino, the box of cells it fills, and the board
/// position of that box's first cell.
pub struct Piece {
    offset: (usize, usize),
    bounding_box: Vec<Vec<bool>>,
    tetrimino: Tetrimino,
    orientation: Orientation,
}

impl View for Piece {
    type V = PieceState;

    closed spec fn view(&self) -> PieceState {
        PieceState { offset: self.offset, tetrimino: self.tetrimino, orientation: self.orientation }
    }
}

impl Piece {
    /// A piece's box is always the shape of its tetrimino.
    #[verifier::type_invariant]
    closed spec fn box_matches_tetrimino(&self) -> bool {
        self.bounding_box.deep_view() == spec_shape(self.tetrimino)
    }

    /// A new piece of tetrimino `t`, its box at `offset`, pointing north.
    pub fn new(tetrimino: Tetrimino, offset: (usize, usize)) -> (p: Piece)
        ensures
            p@ == (PieceState { offset, tetrimino, orientation: Orientation::North }),
    {
        Piece {
            offset,
            bounding_box: tetrimino.bounding_box(),
            tetrimino,
            orientation: Orientation::North,
        }
    }

    /// Where the piece's box stands on the board.
    pub fn offset(&self) -> (o: (usize, usize))
        ensures
            o == self@.offset,
    {
        self.offset
    }

    /// Moves the piece's box to `offset`; the piece is otherwise unchanged.
    pub fn set_offset(&mut self, offset: (usize, usize))
        ensures
            final(self)@ == (PieceState { offset, ..old(self)@ }),
    {
        proof {
            use_type_invariant(&*self);
        }
        self.offset = offset;
    }

    /// The side of the piece's box.
    pub fn box_size(&self) -> (n: usize)
        ensures
            n == spec_shape(self@.tetrimino).len(),
    {
        proof {
            use_type_invariant(self);
        }
        self.bounding_box.len()
    }

    /// The piece's tetrimino.
    pub fn tetrimino(&self) -> (t: Tetrimino)
        ensures
            t == self@.tetrimino,
    {
        self.tetrimino
    }

    /// Whether the piece fills the cell in row `row` and column `col` of its
    /// box; `false` outside the box.
    pub fn fills(&self, row: usize, col: usize) -> (b: bool)
        ensures
            b == (row < spec_shape(self@.tetrimino).len()
                && col < spec_shape(self@.tetrimino)[row as int].len()
                && spec_shape(self@.tetrimino)[row as int][col as int]),
    {
        proof {
            use_type_invariant(self);
        }
        if row < self.bounding_box.len() {
            let r = &self.bounding_box[row];
            proof {
                assert(self.bounding_box.deep_view()[row as int] == r.deep_view());
            }
            if col < r.len() {
                r[col]
            } else {
                false
            }
        } else {
            false
        }
    }

    /// The five offsets tried, in order, when the piece turns by `rotation`.
    pub fn rotation_points(&self, rotation: Rotation) -> (pts: [(isize, isize); 5])
        ensures
            forall|i: int|
                0 <= i < 5 ==> ((#[trigger] pts[i]).0 as int, pts[i].1 as int) == spec_kicks(
                    self@.tetrimino,
                    self@.orientation,
                    rotation,
                )[i],
    {
        let pts: [(isize, isize); 5] = match self.tetrimino {
            Tetrimino::J | Tetrimino::L | Tetrimino::S | Tetrimino::T | Tetrimino::Z => {
                match (self.orientation, rotation) {
                    (Orientation::North, Rotation::Clockwise) => {
                        [(0, 0), (-1, 0), (-1, 1), (0, -2), (-1, -2)]
                    },
                    (Orientation::North, Rotation::CounterClockwise) => {
                        [(0, 0), (1, 0), (1, 1), (0, -2), (1, -2)]
                    },
                    (Orientation::East, Rotation::Clockwise) => {
                        [(0, 0), (1, 0), (1, -1), (0, 2), (1, 2)]
                    },
                    (Orientation::East, Rotation::CounterClockwise) => {
                        [(0, 0), (1, 0), (1, -1), (0, 2), (1, 2)]
                    },
                    (Orientation::South, Rotation::Clockwise) => {
                        [(0, 0), (1, 0), (1, 1), (0, -2), (1, -2)]
                    },
                    (Orientation::South, Rotation::CounterClockwise) => {
                        [(0, 0), (-1, 0), (-1, 1), (0, -2), (-1, -2)]
                    },
                    (Orientation::West, Rotation::Clockwise) => {
                        [(0, 0), (-1, 0), (-1, -1), (0, 2), (-1, 2)]
                    },
                    (Orientation::West, Rotation::CounterClockwise) => {
                        [(0, 0), (-1, 0), (-1, -1), (0, 2), (-1, 2)]
                    },
                }
            },
            Tetrimino::I => match (self.orientation, rotation) {
                (Orientation::North, Rotation::Clockwise) => {
                    [(0, 0), (-2, 0), (1, 0), (-2, -1), (1, 2)]
                },
                (Orientation::North, Rotation::CounterClockwise) => {
                    [(0, 0), (-1, 0), (2, 0), (-1, 2), (2, -1)]
                },
                (Orientation::East, Rotation::Clockwise) => {
                    [(0, 0), (-1, 0), (2, 0), (-1, 2), (2, -1)]
                },
                (Orientation::East, Rotation::CounterClockwise) => {
                    [(0, 0), (2, 0), (-1, 0), (2, 1), (-1, -2)]
                },
                (Orientation::South, Rotation::Clockwise) => {
                    [(0, 0), (2, 0), (-1, 0), (2, 1), (-1, -2)]
                },
                (Orientation::South, Rotation::CounterClockwise) => {
                    [(0, 0), (1, 0), (-2, 0), (1, -2), (-2, 1)]
                },
                (Orientation::West, Rotation::Clockwise) => {
                    [(0, 0), (1, 0), (-2, 0), (1, -2), (-2, 1)]
                },
                (Orientation::West, Rotation::CounterClockwise) => {
                    [(0, 0), (-2, 0), (1, 0), (-2, -1), (1, 2)]
                },
            },
            Tetrimino::O => [(0, 0); 5],
        };
        pts
    }
}

/// Turning clockwise and then counter-clockwise, or the other way round,
/// gives back the orientation one started from.
pub proof fn lemma_turns_undo(o: Orientation)
    ensures
        turned_counter_clockwise(turned_clockwise(o)) == o,
        turned_clockwise(turned_counter_clockwise(o)) == o,
{
}

/// Every turn tries five offsets, the first of which leaves the piece where
/// it is; an O piece is never kicked.
pub proof fn lemma_kicks_shape(t: Tetrimino, o: Orientation, r: Rotation)
    ensures
        spec_kicks(t, o, r).len() == 5,
        spec_kicks(t, o, r)[0] == (0int, 0int),
        t == Tetrimino::O ==> forall|i: int| 0 <= i < 5 ==> #[trigger] spec_kicks(t, o, r)[i] == (0int, 0int),
{
}

/// The kicks of a turn and of the turn that undoes it are opposite: the
/// `i`-th offset tried when turning back is the `i`-th offset of the first
/// turn, negated.
pub proof fn lemma_kicks_undo(t: Tetrimino, o: Orientation, i: int)
    requires
        0 <= i < 5,
    ensures
        spec_kicks(t, turned_clockwise(o), Rotation::CounterClockwise)[i] == (
            -spec_kicks(t, o, Rotation::Clockwise)[i].0,
            -spec_kicks(t, o, Rotation::Clockwise)[i].1,
        ),
        spec_kicks(t, turned_counter_clockwise(o), Rotation::Clockwise)[i] == (
            -spec_kicks(t, o, Rotation::CounterClockwise)[i].0,
            -spec_kicks(t, o, Rotation::CounterClockwise)[i].1,
        ),
{
    lemma_turns_undo(o);
}

/// The orientation seen in a mirror held upright: east and west swap.
pub open spec fn mirrored_orientation(o: Orientation) -> Orientation {
    match o {
        Orientation::East => Orientation::West,
        Orientation::West => Orientation::East,
        _ => o,
    }
}

/// Whether a tetrimino uses the kicks shared by J, L, S, T and Z.
pub open spec fn uses_common_kicks(t: Tetrimino) -> bool {
    t == Tetrimino::J || t == Tetrimino::L || t == Tetrimino::S || t == Tetrimino::T
        || t == Tetrimino::Z
}

/// J, L, S, T and Z all kick alike, for every orientation and turn; a
/// north-pointing one turning clockwise tries (0,0), (-1,0), (-1,1), (0,-2)
/// and (-1,-2), and one turning counter-clockwise the same offsets mirrored.
pub proof fn lemma_common_kicks(t: Tetrimino, u: Tetrimino, o: Orientation, r: Rotation)
    requires
        uses_common_kicks(t),
        uses_common_kicks(u),
    ensures
        spec_kicks(t, o, r) == spec_kicks(u, o, r),
        spec_kicks(t, Orientation::North, Rotation::Clockwise)
            == seq![(0int, 0int), (-1int, 0int), (-1int, 1int), (0int, -2int), (-1int, -2int)],
        spec_kicks(t, Orientation::North, Rotation::CounterClockwise)
            == seq![(0int, 0int), (1int, 0int), (1int, 1int), (0int, -2int), (1int, -2int)],
{
    assert(spec_kicks(t, o, r) =~= spec_kicks(u, o, r));
    assert(spec_kicks(t, Orientation::North, Rotation::CounterClockwise) =~= seq![
        (0int, 0int),
        (1int, 0int),
        (1int, 1int),
        (0int, -2int),
        (1int, -2int),
    ]);
}

/// For J, L, S, T and Z, a counter-clockwise turn kicks as the mirror image
/// of the clockwise turn out of the mirrored orientation: the same offsets
/// with left and right swapped.
pub proof fn lemma_common_kicks_mirror(t: Tetrimino, o: Orientation, i: int)
    requires
        uses_common_kicks(t),
        0 <= i < 5,
    ensures
        spec_kicks(t, o, Rotation::CounterClockwise)[i] == (
            -spec_kicks(t, mirrored_orientation(o), Rotation::Clockwise)[i].0,
            spec_kicks(t, mirrored_orientation(o), Rotation::Clockwise)[i].1,
        ),
{
}

/// The I piece kicks by offsets of its own: for every orientation and turn
/// its list differs from that of any other tetrimino. Turning clockwise out
/// of north it tries (0,0), (-2,0), (1,0), (-2,-1) and (1,2).
pub proof fn lemma_i_kicks(t: Tetrimino, o: Orientation, r: Rotation)
    requires
        t != Tetrimino::I,
    ensures
        spec_kicks(t, o, r) != spec_kicks(Tetrimino::I, o, r),
        spec_kicks(Tetrimino::I, Orientation::North, Rotation::Clockwise)
            == seq![(0int, 0int), (-2int, 0int), (1int, 0int), (-2int, -1int), (1int, 2int)],
{
    assert(spec_kicks(t, o, r)[2] != spec_kicks(Tetrimino::I, o, r)[2]);
}

} // verus!
