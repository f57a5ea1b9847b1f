use vstd::prelude::*;
use crate::events::{GameRxEvent, GameTxEvent, InputEvent, UpdatedState};
use crate::piece::{Piece, PieceState, Orientation};
use crate::tetrimino::{PieceColor, Tetrimino, spec_color, spec_shape, lemma_shape_is_tetromino};

verus! {

pub const PLAYABLE_WIDTH: usize = 10;
pub const PLAYABLE_HEIGHT: usize = 20;

pub const BORDER_WIDTH: usize = 1;
pub const STAGING_HEIGHT: usize = 2;

pub const VISIBLE_WIDTH: usize = PLAYABLE_WIDTH + BORDER_WIDTH + BORDER_WIDTH;
pub const VISIBLE_HEIGHT: usize = PLAYABLE_HEIGHT + BORDER_WIDTH + BORDER_WIDTH;

pub const BOARD_WIDTH: usize = VISIBLE_WIDTH;
pub const BOARD_HEIGHT: usize = VISIBLE_HEIGHT + STAGING_HEIGHT;

/// One pixel of the board.
#[derive(Copy, Clone, Debug, PartialEq, Eq, Structural)]
pub enum BoardPixel {
    Filled(PieceColor),
    Empty,
}

/// The state of a board as the rules see it: the falling piece, if any,
/// and the settled pixels, column by column (`board[x][y]`, `y` upwards).
pub struct GameState {
    pub piece: Option<PieceState>,
    pub board: Seq<Seq<BoardPixel>>,
}

/// The pixel a fresh board holds at column `x`, row `y`: gray on the two
/// side walls and on the floor, empty elsewhere.
pub open spec fn initial_pixel(x: int, y: int) -> BoardPixel {
    if x == 0 || x == BOARD_WIDTH - 1 || y == 0 {
        BoardPixel::Filled(PieceColor::Gray)
    } else {
        BoardPixel::Empty
    }
}

/// The settled pixels of a fresh board.
pub open spec fn initial_board() -> Seq<Seq<BoardPixel>> {
    Seq::new(BOARD_WIDTH as nat, |x: int| Seq::new(BOARD_HEIGHT as nat, |y: int| initial_pixel(x, y)))
}

/// Where a move sends a piece's box; a turn moves the box up by one for now.
pub open spec fn moved(offset: (usize, usize), input: InputEvent) -> (usize, usize) {
    match input {
        InputEvent::Left => ((offset.0 - 1) as usize, offset.1),
        InputEvent::Right => ((offset.0 + 1) as usize, offset.1),
        InputEvent::RotateClockwise => (offset.0, (offset.1 + 1) as usize),
        InputEvent::DropSoft => (offset.0, (offset.1 - 1) as usize),
        _ => offset,
    }
}

/// Whether the board can take `event`: a move may not push the piece's box
/// out of the range of `usize`.
pub open spec fn spec_accepts(s: GameState, event: GameRxEvent) -> bool {
    match (s.piece, event) {
        (Some(p), GameRxEvent::Input(InputEvent::Left)) => p.offset.0 > 0,
        (Some(p), GameRxEvent::Input(InputEvent::Right)) => p.offset.0 < usize::MAX,
        (Some(p), GameRxEvent::Input(InputEvent::RotateClockwise)) => p.offset.1 < usize::MAX,
        (Some(p), GameRxEvent::Input(InputEvent::DropSoft)) => p.offset.1 > 0,
        _ => true,
    }
}

/// The state of a board after it receives `event`.
pub open spec fn next_state(s: GameState, event: GameRxEvent) -> GameState {
    match (s.piece, event) {
        (Some(p), GameRxEvent::Input(input)) => GameState {
            piece: Some(PieceState { offset: moved(p.offset, input), ..p }),
            ..s
        },
        _ => s,
    }
}

/// Whether what the board shows may have changed after it receives `event`:
/// always, except for a move with no piece to move.
pub open spec fn spec_board_changed(s: GameState, event: GameRxEvent) -> bool {
    match event {
        GameRxEvent::Input(_) => s.piece is Some,
        _ => true,
    }
}

/// The events a board sends on when it receives `event`: the event itself
/// when it acted on it, nothing otherwise.
pub open spec fn spec_sent(s: GameState, event: GameRxEvent) -> Seq<GameTxEvent> {
    if spec_board_changed(s, event) {
        seq![GameTxEvent::RxEvent(event)]
    } else {
        seq![]
    }
}

/// Whether the piece fills the board cell at column `x`, row `y`.
pub open spec fn covers(p: PieceState, x: int, y: int) -> bool {
    let shape = spec_shape(p.tetrimino);
    let row = y - p.offset.1;
    let col = x - p.offset.0;
    &&& 0 <= row < shape.len()
    &&& 0 <= col < shape[row].len()
    &&& shape[row][col]
}

/// Whether every cell the piece fills lies in the visible part of the board.
pub open spec fn spec_in_view(p: PieceState) -> bool {
    let shape = spec_shape(p.tetrimino);
    forall|row: int, col: int|
        0 <= row < shape.len() && 0 <= col < shape[row].len() && #[trigger] shape[row][col]
            ==> p.offset.0 + col < VISIBLE_WIDTH && p.offset.1 + row < VISIBLE_HEIGHT
}

/// The pixel shown at column `x`, row `y`: the piece's colour where the
/// piece is, the settled pixel elsewhere.
pub open spec fn shown_pixel(s: GameState, x: int, y: int) -> BoardPixel {
    match s.piece {
        Some(p) => if covers(p, x, y) {
            BoardPixel::Filled(spec_color(p.tetrimino))
        } else {
            s.board[x][y]
        },
        None => s.board[x][y],
    }
}

/// One board: the falling piece and the settled pixels.
pub struct TetrisGameSystem {
    piece: Option<Piece>,
    board_state: Vec<Vec<BoardPixel>>,
}

impl View for TetrisGameSystem {
    type V = GameState;

    closed spec fn view(&self) -> GameState {
        GameState {
            piece: match self.piece {
                Some(p) => Some(p@),
                None => None,
            },
            board: self.board_state@.map_values(|column: Vec<BoardPixel>| column@),
        }
    }
}

impl TetrisGameSystem {
    /// The board always has `BOARD_WIDTH` columns of `BOARD_HEIGHT` pixels.
    #[verifier::type_invariant]
    closed spec fn board_has_its_size(&self) -> bool {
        &&& self.board_state@.len() == BOARD_WIDTH
        &&& forall|x: int| 0 <= x < BOARD_WIDTH ==> #[trigger] self.board_state@[x]@.len() == BOARD_HEIGHT
    }

    /// A fresh board: walls and floor gray, the rest empty, and an S piece
    /// pointing north with its box at column 5, row 5.
    pub fn new() -> (s: TetrisGameSystem)
        ensures
            s@.board == initial_board(),
            s@.piece == Some(PieceState {
                offset: (5, 5),
                tetrimino: Tetrimino::S,
                orientation: Orientation::North,
            }),
    {
        let mut board_state: Vec<Vec<BoardPixel>> = Vec::new();
        let mut x: usize = 0;
        while x < BOARD_WIDTH
            invariant
                x <= BOARD_WIDTH,
                board_state@.len() == x,
                forall|i: int| 0 <= i < x ==> #[trigger] board_state@[i]@ == initial_board()[i],
            decreases BOARD_WIDTH - x,
        {
            let mut column: Vec<BoardPixel> = Vec::new();
            let mut y: usize = 0;
            while y < BOARD_HEIGHT
                invariant
                    x < BOARD_WIDTH,
                    y <= BOARD_HEIGHT,
                    column@.len() == y,
                    forall|j: int| 0 <= j < y ==> #[trigger] column@[j] == initial_pixel(x as int, j),
                decreases BOARD_HEIGHT - y,
            {
                if x == 0 || x == BOARD_WIDTH - 1 || y == 0 {
                    column.push(BoardPixel::Filled(PieceColor::Gray));
                } else {
                    column.push(BoardPixel::Empty);
                }
                y = y + 1;
            }
            assert(column@ =~= initial_board()[x as int]);
            board_state.push(column);
            x = x + 1;
        }
        let s = TetrisGameSystem { piece: Some(Piece::new(Tetrimino::S, (5, 5))), board_state };
        assert(s@.board =~= initial_board());
        s
    }

    /// Whether the board can take `event` without moving the piece's box
    /// out of the range of `usize`.
    pub fn accepts(&self, event: &GameRxEvent) -> (b: bool)
        ensures
            b == spec_accepts(self@, *event),
    {
        match &self.piece {
            Some(piece) => {
                let (x, y) = piece.offset();
                match event {
                    GameRxEvent::Input(InputEvent::Left) => x > 0,
                    GameRxEvent::Input(InputEvent::Right) => x < usize::MAX,
                    GameRxEvent::Input(InputEvent::RotateClockwise) => y < usize::MAX,
                    GameRxEvent::Input(InputEvent::DropSoft) => y > 0,
                    _ => true,
                }
            },
            None => true,
        }
    }

    /// Acts on one event and says what came of it.
    pub fn receive(&mut self, event: GameRxEvent) -> (u: UpdatedState)
        requires
            spec_accepts(old(self)@, event),
        ensures
            final(self)@ == next_state(old(self)@, event),
            u.board_changed == spec_board_changed(old(self)@, event),
            u.events@ == spec_sent(old(self)@, event),
    {
        match event {
            GameRxEvent::Input(input) => self.handle_input(input),
            GameRxEvent::Tick => self.tick(),
            GameRxEvent::AddRows(count) => self.add_rows(count),
        }
    }

    /// Moves the piece as the player asked; with no piece, nothing changes
    /// and nothing is sent on.
    pub fn handle_input(&mut self, event: InputEvent) -> (u: UpdatedState)
        requires
            spec_accepts(old(self)@, GameRxEvent::Input(event)),
        ensures
            final(self)@ == next_state(old(self)@, GameRxEvent::Input(event)),
            u.board_changed == spec_board_changed(old(self)@, GameRxEvent::Input(event)),
            u.events@ == spec_sent(old(self)@, GameRxEvent::Input(event)),
    {
        proof {
            use_type_invariant(&*self);
        }
        let mut current: Option<Piece> = None;
        std::mem::swap(&mut current, &mut self.piece);
        let u = match &mut current {
            Some(piece) => {
                let (x, y) = piece.offset();
                match event {
                    InputEvent::Left => piece.set_offset((x - 1, y)),
                    InputEvent::Right => piece.set_offset((x + 1, y)),
                    InputEvent::RotateClockwise => piece.set_offset((x, y + 1)),
                    InputEvent::DropSoft => piece.set_offset((x, y - 1)),
                    _ => {},
                }
                UpdatedState::rx_event(true, GameRxEvent::Input(event))
            },
            None => UpdatedState { board_changed: false, events: Vec::new() },
        };
        self.piece = current;
        u
    }

    /// A tick of the clock; the board forwards it.
    pub fn tick(&self) -> (u: UpdatedState)
        ensures
            u.board_changed == spec_board_changed(self@, GameRxEvent::Tick),
            u.events@ == spec_sent(self@, GameRxEvent::Tick),
    {
        UpdatedState::rx_event(true, GameRxEvent::Tick)
    }

    /// Rows sent by the opponent; the board forwards them.
    pub fn add_rows(&self, count: usize) -> (u: UpdatedState)
        ensures
            u.board_changed == spec_board_changed(self@, GameRxEvent::AddRows(count)),
            u.events@ == spec_sent(self@, GameRxEvent::AddRows(count)),
    {
        UpdatedState::rx_event(true, GameRxEvent::AddRows(count))
    }

    /// The falling piece, if there is one.
    pub fn piece(&self) -> (p: Option<&Piece>)
        ensures
            match (p, self@.piece) {
                (Some(q), Some(r)) => q@ == r,
                (None, None) => true,
                _ => false,
            },
    {
        match &self.piece {
            Some(q) => Some(q),
            None => None,
        }
    }

    /// The settled pixel at column `x`, row `y`.
    pub fn board_pixel(&self, x: usize, y: usize) -> (b: BoardPixel)
        requires
            x < BOARD_WIDTH,
            y < BOARD_HEIGHT,
        ensures
            b == self@.board[x as int][y as int],
    {
        proof {
            use_type_invariant(self);
        }
        self.board_state[x][y]
    }

    /// The pixel shown at column `x`, row `y`: the piece's colour where the
    /// piece is, the settled pixel elsewhere.
    pub fn shown_pixel(&self, x: usize, y: usize) -> (b: BoardPixel)
        requires
            x < BOARD_WIDTH,
            y < BOARD_HEIGHT,
        ensures
            b == shown_pixel(self@, x as int, y as int),
    {
        match &self.piece {
            Some(piece) => {
                let (ox, oy) = piece.offset();
                if x >= ox && y >= oy && piece.fills(y - oy, x - ox) {
                    BoardPixel::Filled(piece.tetrimino().color())
                } else {
                    self.board_pixel(x, y)
                }
            },
            None => self.board_pixel(x, y),
        }
    }

    /// Whether every cell of the falling piece lies in the visible part of
    /// the board (true when there is no piece).
    pub fn piece_in_view(&self) -> (b: bool)
        ensures
            b == match self@.piece {
                Some(p) => spec_in_view(p),
                None => true,
            },
    {
        match &self.piece {
            Some(piece) => {
                let ghost p = piece@;
                let ghost shape = spec_shape(p.tetrimino);
                proof {
                    lemma_shape_is_tetromino(p.tetrimino);
                }
                let (ox, oy) = piece.offset();
                let n = piece.box_size();
                let mut row: usize = 0;
                while row < n
                    invariant
                        p == piece@,
                        self@.piece == Some(p),
                        shape == spec_shape(p.tetrimino),
                        n == shape.len(),
                        forall|r: int| 0 <= r < shape.len() ==> #[trigger] shape[r].len() == n,
                        (ox, oy) == p.offset,
                        row <= n,
                        forall|r: int, c: int|
                            0 <= r < row && 0 <= c < shape[r].len() && #[trigger] shape[r][c]
                                ==> ox + c < VISIBLE_WIDTH && oy + r < VISIBLE_HEIGHT,
                    decreases n - row,
                {
                    let mut col: usize = 0;
                    while col < n
                        invariant
                            p == piece@,
                            self@.piece == Some(p),
                            shape == spec_shape(p.tetrimino),
                            n == shape.len(),
                            forall|r: int| 0 <= r < shape.len() ==> #[trigger] shape[r].len() == n,
                            (ox, oy) == p.offset,
                            row < n,
                            col <= n,
                            forall|r: int, c: int|
                                0 <= r < row && 0 <= c < shape[r].len() && #[trigger] shape[r][c]
                                    ==> ox + c < VISIBLE_WIDTH && oy + r < VISIBLE_HEIGHT,
                            forall|c: int|
                                0 <= c < col && #[trigger] shape[row as int][c]
                                    ==> ox + c < VISIBLE_WIDTH && oy + row < VISIBLE_HEIGHT,
                        decreases n - col,
                    {
                        if piece.fills(row, col) {
                            if ox >= VISIBLE_WIDTH || VISIBLE_WIDTH - ox <= col
                                || oy >= VISIBLE_HEIGHT || VISIBLE_HEIGHT - oy <= row {
                                assert(shape[row as int][col as int]);
                                return false;
                            }
                        }
                        col = col + 1;
                    }
                    row = row + 1;
                }
                true
            },
            None => true,
        }
    }

    /// What the board shows, column by column over its visible part: the
    /// falling piece in its colour over the settled pixels.
    pub fn frame(&self) -> (f: Vec<Vec<BoardPixel>>)
        requires
            match self@.piece {
                Some(p) => spec_in_view(p),
                None => true,
            },
        ensures
            f@.len() == VISIBLE_WIDTH,
            forall|x: int| 0 <= x < VISIBLE_WIDTH ==> #[trigger] f@[x]@.len() == VISIBLE_HEIGHT,
            forall|x: int, y: int|
                0 <= x < VISIBLE_WIDTH && 0 <= y < VISIBLE_HEIGHT ==> #[trigger] f@[x]@[y]
                    == shown_pixel(self@, x, y),
    {
        let mut f: Vec<Vec<BoardPixel>> = Vec::new();
        let mut x: usize = 0;
        while x < VISIBLE_WIDTH
            invariant
                x <= VISIBLE_WIDTH,
                f@.len() == x,
                forall|i: int| 0 <= i < x ==> #[trigger] f@[i]@.len() == VISIBLE_HEIGHT,
                forall|i: int, j: int|
                    0 <= i < x && 0 <= j < VISIBLE_HEIGHT ==> #[trigger] f@[i]@[j] == shown_pixel(self@, i, j),
            decreases VISIBLE_WIDTH - x,
        {
            let mut column: Vec<BoardPixel> = Vec::new();
            let mut y: usize = 0;
            while y < VISIBLE_HEIGHT
                invariant
                    x < VISIBLE_WIDTH,
                    y <= VISIBLE_HEIGHT,
                    column@.len() == y,
                    forall|j: int| 0 <= j < y ==> #[trigger] column@[j] == shown_pixel(self@, x as int, j),
                decreases VISIBLE_HEIGHT - y,
            {
                column.push(self.shown_pixel(x, y));
                y = y + 1;
            }
            f.push(column);
            x = x + 1;
        }
        f
    }
}

/// The state after a run of events, received one after the other.
pub open spec fn after_run(s: GameState, events: Seq<GameRxEvent>) -> GameState
    decreases events.len(),
{
    if events.len() == 0 {
        s
    } else {
        next_state(after_run(s, events.drop_last()), events.last())
    }
}

/// No event changes the settled pixels, and no event changes which piece
/// is falling or how it is turned: only the position of its box moves.
pub proof fn lemma_event_keeps_board_and_piece(s: GameState, event: GameRxEvent)
    ensures
        next_state(s, event).board == s.board,
        next_state(s, event).piece is Some <==> s.piece is Some,
        s.piece is Some ==> next_state(s, event).piece->0.tetrimino == s.piece->0.tetrimino
            && next_state(s, event).piece->0.orientation == s.piece->0.orientation,
{
}

/// However many events a board receives, its settled pixels stay those it
/// started with.
pub proof fn lemma_run_keeps_board(s: GameState, events: Seq<GameRxEvent>)
    ensures
        after_run(s, events).board == s.board,
    decreases events.len(),
{
    if events.len() > 0 {
        lemma_run_keeps_board(s, events.drop_last());
        lemma_event_keeps_board_and_piece(after_run(s, events.drop_last()), events.last());
    }
}

/// A board sends on exactly the event it received when what it shows may
/// have changed, and nothing otherwise; only a move with no piece changes
/// nothing.
pub proof fn lemma_sent_is_the_event(s: GameState, event: GameRxEvent)
    ensures
        spec_board_changed(s, event) ==> spec_sent(s, event) == seq![GameTxEvent::RxEvent(event)],
        !spec_board_changed(s, event) ==> spec_sent(s, event).len() == 0,
        !spec_board_changed(s, event) <==> (event is Input && s.piece is None),
{
}

/// Ticks, added rows, and moves the board does not act on leave its state
/// as it was; so does any move with no piece.
pub proof fn lemma_still_events_keep_state(s: GameState, event: GameRxEvent)
    ensures
        (event is Tick || event is AddRows || s.piece is None
            || event == GameRxEvent::Input(InputEvent::RotateCounterClockwise)
            || event == GameRxEvent::Input(InputEvent::DropHard)) ==> next_state(s, event) == s,
{
}

/// A board takes every event but a move that would push the piece's box
/// below zero or past the largest `usize`.
pub proof fn lemma_accepts(s: GameState, event: GameRxEvent)
    ensures
        (event is Tick || event is AddRows || s.piece is None) ==> spec_accepts(s, event),
{
}

/// A move right undoes a move left, and a move left undoes a move right.
pub proof fn lemma_left_right_undo(s: GameState)
    requires
        s.piece is Some,
    ensures
        spec_accepts(s, GameRxEvent::Input(InputEvent::Left)) ==> {
            let t = next_state(s, GameRxEvent::Input(InputEvent::Left));
            spec_accepts(t, GameRxEvent::Input(InputEvent::Right))
                && next_state(t, GameRxEvent::Input(InputEvent::Right)) == s
        },
        spec_accepts(s, GameRxEvent::Input(InputEvent::Right)) ==> {
            let t = next_state(s, GameRxEvent::Input(InputEvent::Right));
            spec_accepts(t, GameRxEvent::Input(InputEvent::Left))
                && next_state(t, GameRxEvent::Input(InputEvent::Left)) == s
        },
{
}

/// A soft drop undoes the upward step of a clockwise turn, and that step
/// undoes a soft drop.
pub proof fn lemma_drop_turn_undo(s: GameState)
    requires
        s.piece is Some,
    ensures
        spec_accepts(s, GameRxEvent::Input(InputEvent::DropSoft)) ==> {
            let t = next_state(s, GameRxEvent::Input(InputEvent::DropSoft));
            spec_accepts(t, GameRxEvent::Input(InputEvent::RotateClockwise))
                && next_state(t, GameRxEvent::Input(InputEvent::RotateClockwise)) == s
        },
        spec_accepts(s, GameRxEvent::Input(InputEvent::RotateClockwise)) ==> {
            let t = next_state(s, GameRxEvent::Input(InputEvent::RotateClockwise));
            spec_accepts(t, GameRxEvent::Input(InputEvent::DropSoft))
                && next_state(t, GameRxEvent::Input(InputEvent::DropSoft)) == s
        },
{
}

/// Moves along different axes commute: a sideways move and a vertical move
/// lead to the same state in either order.
pub proof fn lemma_moves_commute(s: GameState, a: InputEvent, b: InputEvent)
    requires
        a == InputEvent::Left || a == InputEvent::Right,
        b == InputEvent::DropSoft || b == InputEvent::RotateClockwise,
        spec_accepts(s, GameRxEvent::Input(a)),
        spec_accepts(s, GameRxEvent::Input(b)),
    ensures
        spec_accepts(next_state(s, GameRxEvent::Input(a)), GameRxEvent::Input(b)),
        spec_accepts(next_state(s, GameRxEvent::Input(b)), GameRxEvent::Input(a)),
        next_state(next_state(s, GameRxEvent::Input(a)), GameRxEvent::Input(b))
            == next_state(next_state(s, GameRxEvent::Input(b)), GameRxEvent::Input(a)),
{
}

/// How many times `event` occurs in a run of events.
pub open spec fn count_of(events: Seq<GameRxEvent>, event: GameRxEvent) -> int
    decreases events.len(),
{
    if events.len() == 0 {
        0
    } else {
        count_of(events.drop_last(), event) + if events.last() == event { 1int } else { 0int }
    }
}

/// Whether a board takes each event of a run in the state the earlier
/// events left it in.
pub open spec fn run_accepted(s: GameState, events: Seq<GameRxEvent>) -> bool
    decreases events.len(),
{
    if events.len() == 0 {
        true
    } else {
        run_accepted(s, events.drop_last()) && spec_accepts(
            after_run(s, events.drop_last()),
            events.last(),
        )
    }
}

/// After a run of events that the board takes one by one, the piece is the
/// same piece, its box shifted left once per `Left`, right once per `Right`,
/// up once per `RotateClockwise` and down once per `DropSoft`, in whatever
/// order they came.
pub proof fn lemma_run_offset(s: GameState, events: Seq<GameRxEvent>)
    requires
        s.piece is Some,
        run_accepted(s, events),
    ensures
        after_run(s, events).piece is Some,
        after_run(s, events).piece->0.tetrimino == s.piece->0.tetrimino,
        after_run(s, events).piece->0.orientation == s.piece->0.orientation,
        after_run(s, events).piece->0.offset.0 == s.piece->0.offset.0
            - count_of(events, GameRxEvent::Input(InputEvent::Left))
            + count_of(events, GameRxEvent::Input(InputEvent::Right)),
        after_run(s, events).piece->0.offset.1 == s.piece->0.offset.1
            + count_of(events, GameRxEvent::Input(InputEvent::RotateClockwise))
            - count_of(events, GameRxEvent::Input(InputEvent::DropSoft)),
    decreases events.len(),
{
    if events.len() > 0 {
        lemma_run_offset(s, events.drop_last());
    }
}

/// A piece is in view exactly when every board cell it covers is visible;
/// the empty cells of its box do not count. Since every spawned shape fills
/// its second row and no row below, and reaches three columns right of its
/// box's corner for I, one for O and two for the others, that is: its box
/// stands at most `VISIBLE_WIDTH - 4`, `- 2` or `- 3` columns across and at
/// most `VISIBLE_HEIGHT - 2` rows up.
pub proof fn lemma_in_view(p: PieceState)
    ensures
        spec_in_view(p) <==> (forall|x: int, y: int|
            #[trigger] covers(p, x, y) ==> x < VISIBLE_WIDTH && y < VISIBLE_HEIGHT),
        spec_in_view(p) <==> (p.offset.0 + (if p.tetrimino == Tetrimino::I {
            3int
        } else if p.tetrimino == Tetrimino::O {
            1int
        } else {
            2int
        }) < VISIBLE_WIDTH && p.offset.1 + 1 < VISIBLE_HEIGHT),
{
    let shape = spec_shape(p.tetrimino);
    let (ox, oy) = (p.offset.0 as int, p.offset.1 as int);
    let reach: int = if p.tetrimino == Tetrimino::I {
        3
    } else if p.tetrimino == Tetrimino::O {
        1
    } else {
        2
    };
    lemma_shape_is_tetromino(p.tetrimino);
    // the cells that reach furthest right and furthest up
    let far_row: int = if p.tetrimino == Tetrimino::S { 0 } else { 1 };
    assert(shape[far_row][reach]);
    assert(shape[1][1]);
    assert(covers(p, ox + reach, oy + far_row));
    assert(covers(p, ox + 1, oy + 1));
    if spec_in_view(p) {
        assert forall|x: int, y: int| #[trigger] covers(p, x, y) implies x < VISIBLE_WIDTH
            && y < VISIBLE_HEIGHT by {
            assert(shape[y - oy][x - ox]);
        }
    }
    if forall|x: int, y: int| #[trigger] covers(p, x, y) ==> x < VISIBLE_WIDTH && y < VISIBLE_HEIGHT {
        assert forall|row: int, col: int|
            0 <= row < shape.len() && 0 <= col < shape[row].len() && #[trigger] shape[row][col]
                implies p.offset.0 + col < VISIBLE_WIDTH && p.offset.1 + row < VISIBLE_HEIGHT by {
            assert(covers(p, ox + col, oy + row));
        }
    }
    assert forall|row: int, col: int|
        0 <= row < shape.len() && 0 <= col < shape[row].len() && #[trigger] shape[row][col]
            implies row <= 1 && col <= reach by {
        if row > 1 || col > reach {
            assert(!shape[row][col]);
        }
    }
}

} // verus!
