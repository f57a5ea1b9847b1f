use vstd::prelude::*;

verus! {

/// The seven tetriminoes.
#[derive(Copy, Clone, Debug, PartialEq, Eq, Structural)]
pub enum Tetrimino {
    I,
    J,
    L,
    O,
    S,
    T,
    Z,
}

/// The colours a pixel of the board can be filled with.
#[derive(Copy, Clone, Debug, PartialEq, Eq, Structural)]
pub enum PieceColor {
    LightBlue,
    DarkBlue,
    Orange,
    Yellow,
    Green,
    Red,
    Magenta,
    Gray,
}

/// The colour in which each tetrimino is drawn.
pub open spec fn spec_color(t: Tetrimino) -> PieceColor {
    match t {
        Tetrimino::I => PieceColor::LightBlue,
        Tetrimino::J => PieceColor::DarkBlue,
        Tetrimino::L => PieceColor::Orange,
        Tetrimino::O => PieceColor::Yellow,
        Tetrimino::S => PieceColor::Green,
        Tetrimino::T => PieceColor::Magenta,
        Tetrimino::Z => PieceColor::Red,
    }
}

impl Tetrimino {
    /// The colour in which this tetrimino is drawn.
    pub fn color(&self) -> (c: PieceColor)
        ensures
            c == spec_color(*self),
    {
        match self {
            Tetrimino::I => PieceColor::LightBlue,
            Tetrimino::J => PieceColor::DarkBlue,
            Tetrimino::L => PieceColor::Orange,
            Tetrimino::O => PieceColor::Yellow,
            Tetrimino::S => PieceColor::Green,
            Tetrimino::T => PieceColor::Magenta,
            Tetrimino::Z => PieceColor::Red,
        }
    }
}

/// The shape of each tetrimino in its spawn orientation: a square box, given
/// row by row, in which `true` marks a cell the tetrimino fills.
pub open spec fn spec_shape(t: Tetrimino) -> Seq<Seq<bool>> {
    match t {
        Tetrimino::I => seq![
            seq![false, false, false, false],
            seq![true, true, true, true],
            seq![false, false, false, false],
            seq![false, false, false, false],
        ],
        Tetrimino::J => seq![
            seq![true, false, false],
            seq![true, true, true],
            seq![false, false, false],
        ],
        Tetrimino::L => seq![
            seq![false, false, true],
            seq![true, true, true],
            seq![false, false, false],
        ],
        Tetrimino::O => seq![seq![true, true], seq![true, true]],
        Tetrimino::S => seq![
            seq![false, true, true],
            seq![true, true, false],
            seq![false, false, false],
        ],
        Tetrimino::T => seq![
            seq![false, true, false],
            seq![true, true, true],
            seq![false, false, false],
        ],
        Tetrimino::Z => seq![
            seq![true, true, false],
            seq![false, true, true],
            seq![false, false, false],
        ],
    }
}

/// The side of the square box that holds a tetrimino.
pub open spec fn spec_box_size(t: Tetrimino) -> nat {
    match t {
        Tetrimino::I => 4,
        Tetrimino::O => 2,
        _ => 3,
    }
}

/// The number of `true` cells among the first `n` cells of a row.
pub open spec fn row_count_upto(row: Seq<bool>, n: nat) -> nat
    decreases n,
{
    if n == 0 {
        0
    } else {
        row_count_upto(row, (n - 1) as nat) + if row[n - 1] { 1nat } else { 0nat }
    }
}

/// The number of `true` cells in a row.
pub open spec fn row_count(row: Seq<bool>) -> nat {
    row_count_upto(row, row.len())
}

/// The number of `true` cells in the first `n` rows of a box.
pub open spec fn box_count_upto(rows: Seq<Seq<bool>>, n: nat) -> nat
    decreases n,
{
    if n == 0 {
        0
    } else {
        box_count_upto(rows, (n - 1) as nat) + row_count(rows[n - 1])
    }
}

/// The number of `true` cells in a box.
pub open spec fn box_count(rows: Seq<Seq<bool>>) -> nat {
    box_count_upto(rows, rows.len())
}

impl Tetrimino {
    /// The box of cells this tetrimino fills in its spawn orientation.
    pub fn bounding_box(&self) -> (b: Vec<Vec<bool>>)
        ensures
            b.deep_view() == spec_shape(*self),
    {
        let b = match self {
            Tetrimino::I => vec![
                vec![false, false, false, false],
                vec![true, true, true, true],
                vec![false, false, false, false],
                vec![false, false, false, false],
            ],
            Tetrimino::J => vec![
                vec![true, false, false],
                vec![true, true, true],
                vec![false, false, false],
            ],
            Tetrimino::L => vec![
                vec![false, false, true],
                vec![true, true, true],
                vec![false, false, false],
            ],
            Tetrimino::O => vec![vec![true, true], vec![true, true]],
            Tetrimino::S => vec![
                vec![false, true, true],
                vec![true, true, false],
                vec![false, false, false],
            ],
            Tetrimino::T => vec![
                vec![false, true, false],
                vec![true, true, true],
                vec![false, false, false],
            ],
            Tetrimino::Z => vec![
                vec![true, true, false],
                vec![false, true, true],
                vec![false, false, false],
            ],
        };
        assert forall|i: int| 0 <= i < b@.len() implies #[trigger] b.deep_view()[i]
            =~= spec_shape(*self)[i] by {
            assert(b.deep_view()[i] == b@[i].deep_view());
        }
        assert(b.deep_view() =~= spec_shape(*self));
        b
    }
}

/// Every tetrimino's box is square, of the tetrimino's box size, and fills
/// exactly four cells.
pub proof fn lemma_shape_is_tetromino(t: Tetrimino)
    ensures
        spec_shape(t).len() == spec_box_size(t),
        forall|r: int| 0 <= r < spec_shape(t).len() ==> #[trigger] spec_shape(t)[r].len() == spec_box_size(t),
        box_count(spec_shape(t)) == 4,
{
    reveal_with_fuel(row_count_upto, 5);
    reveal_with_fuel(box_count_upto, 5);
}

/// No two tetriminoes share a colour, and none is drawn in the gray of the
/// board's walls.
pub proof fn lemma_colors_distinct(a: Tetrimino, b: Tetrimino)
    ensures
        spec_color(a) == spec_color(b) ==> a == b,
        spec_color(a) != PieceColor::Gray,
{
}

/// A box seen in a mirror held upright: each row read right to left.
pub open spec fn mirrored(rows: Seq<Seq<bool>>) -> Seq<Seq<bool>> {
    Seq::new(rows.len(), |r: int| Seq::new(rows[r].len(), |c: int| rows[r][rows[r].len() - 1 - c]))
}

/// J and L are mirror images of each other, and so are S and Z; I, O and T
/// are their own mirror images.
pub proof fn lemma_shape_mirrors()
    ensures
        spec_shape(Tetrimino::L) == mirrored(spec_shape(Tetrimino::J)),
        spec_shape(Tetrimino::Z) == mirrored(spec_shape(Tetrimino::S)),
        spec_shape(Tetrimino::I) == mirrored(spec_shape(Tetrimino::I)),
        spec_shape(Tetrimino::O) == mirrored(spec_shape(Tetrimino::O)),
        spec_shape(Tetrimino::T) == mirrored(spec_shape(Tetrimino::T)),
{
    assert(spec_shape(Tetrimino::L) =~~= mirrored(spec_shape(Tetrimino::J)));
    assert(spec_shape(Tetrimino::Z) =~~= mirrored(spec_shape(Tetrimino::S)));
    assert(spec_shape(Tetrimino::I) =~~= mirrored(spec_shape(Tetrimino::I)));
    assert(spec_shape(Tetrimino::O) =~~= mirrored(spec_shape(Tetrimino::O)));
    assert(spec_shape(Tetrimino::T) =~~= mirrored(spec_shape(Tetrimino::T)));
}

/// Each tetrimino has a shape of its own: no two share a box.
pub proof fn lemma_shapes_distinct(a: Tetrimino, b: Tetrimino)
    ensures
        spec_shape(a) == spec_shape(b) ==> a == b,
{
    if spec_shape(a) == spec_shape(b) && a != b {
        let sa = spec_shape(a);
        let sb = spec_shape(b);
        assert(sa.len() == sb.len());
        assert(sa[0] == sb[0]);
        assert(sa[1] == sb[1]);
        assert(sa[0][0] == sb[0][0]);
        assert(sa[0][1] == sb[0][1]);
        assert(sa[1][0] == sb[1][0]);
        assert(sa[1][1] == sb[1][1]);
        if sa.len() > 2 {
            assert(sa[0][2] == sb[0][2]);
            assert(sa[1][2] == sb[1][2]);
        }
    }
}

/// Where the spawned tetriminoes stand in their boxes: every one fills
/// only the top two rows, and fills some cell of the second row; I lies
/// flat along the second row; O fills its whole box; J's top row holds its
/// leftmost cell only, S's the two rightmost, T's the middle one.
pub proof fn lemma_shape_cells(t: Tetrimino)
    ensures
        forall|r: int, c: int|
            0 <= r < spec_shape(t).len() && 0 <= c < spec_shape(t)[r].len()
                && #[trigger] spec_shape(t)[r][c] ==> r <= 1,
        spec_shape(t)[1].contains(true),
        forall|c: int| 0 <= c < 4 ==> #[trigger] spec_shape(Tetrimino::I)[1][c] && !spec_shape(Tetrimino::I)[0][c],
        forall|r: int, c: int| 0 <= r < 2 && 0 <= c < 2 ==> #[trigger] spec_shape(Tetrimino::O)[r][c],
        spec_shape(Tetrimino::J)[0] == seq![true, false, false],
        spec_shape(Tetrimino::S)[0] == seq![false, true, true],
        spec_shape(Tetrimino::T)[0] == seq![false, true, false],
{
    assert(spec_shape(t)[1][1]);
    assert forall|r: int, c: int|
        0 <= r < spec_shape(t).len() && 0 <= c < spec_shape(t)[r].len()
            && #[trigger] spec_shape(t)[r][c] implies r <= 1 by {
        if r >= 2 {
            assert(!spec_shape(t)[r][c]);
        }
    }
}

} // verus!
