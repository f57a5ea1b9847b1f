use vstd::prelude::*;

verus! {

/// What a player can ask of the falling piece.
#[derive(Copy, Clone, Debug, PartialEq, Eq, Structural)]
pub enum InputEvent {
    Left,
    Right,
    RotateClockwise,
    RotateCounterClockwise,
    DropSoft,
    DropHard,
}

/// What a board receives.
#[derive(Copy, Clone, Debug, PartialEq, Eq, Structural)]
pub enum GameRxEvent {
    Input(InputEvent),
    Tick,
    AddRows(usize),
}

/// What a board sends on: for now, the events it acted on.
#[derive(Copy, Clone, Debug, PartialEq, Eq, Structural)]
pub enum GameTxEvent {
    RxEvent(GameRxEvent),
}

/// The answer of a board to one event: whether what it shows may have
/// changed, and the events it sends on.
pub struct UpdatedState {
    pub board_changed: bool,
    pub events: Vec<GameTxEvent>,
}

impl UpdatedState {
    /// The answer that forwards the received `event`.
    pub fn rx_event(board_changed: bool, event: GameRxEvent) -> (u: UpdatedState)
        ensures
            u.board_changed == board_changed,
            u.events@ == seq![GameTxEvent::RxEvent(event)],
    {
        UpdatedState { board_changed, events: vec![GameTxEvent::RxEvent(event)] }
    }
}

} // verus!
