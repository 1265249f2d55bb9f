//! State-change notifications emitted on every transition.

use crate::bus::DupEvent;
use crate::state::GameState;
use crate::state::ProgramState;
use vstd::prelude::*;

verus! {

/// A transition of the program state or of the game state, stamped with the
/// wall-clock second at which it was made.
#[derive(Debug, Clone, Copy, PartialEq, Eq, Structural)]
pub enum StateChangeEvent {
    ProgramStateChanged { old_state: ProgramState, new_state: ProgramState, timestamp: u64 },
    GameStateChanged { old_state: GameState, new_state: GameState, timestamp: u64 },
}

impl DupEvent for StateChangeEvent {
    fn dup(&self) -> (r: Self)
        ensures
            r == *self,
    {
        *self
    }
}

impl StateChangeEvent {
    /// The event records the given program-state transition, whatever its
    /// timestamp.
    pub open spec fn is_program_change(self, from: ProgramState, to: ProgramState) -> bool {
        match self {
            StateChangeEvent::ProgramStateChanged { old_state, new_state, .. } => {
                old_state == from && new_state == to
            },
            _ => false,
        }
    }

    /// The event records the given game-state transition, whatever its
    /// timestamp.
    pub open spec fn is_game_change(self, from: GameState, to: GameState) -> bool {
        match self {
            StateChangeEvent::GameStateChanged { old_state, new_state, .. } => {
                old_state == from && new_state == to
            },
            _ => false,
        }
    }
}

} // verus!
