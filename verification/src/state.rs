//! The canonical application state: program lifecycle and game detection.

use vstd::prelude::*;

verus! {

/// Lifecycle of the core automation process.
#[derive(Debug, Clone, Copy, PartialEq, Eq, Structural)]
pub enum ProgramState {
    Stopped,
    Starting,
    Running,
    Stopping,
}

/// What the window tracker currently knows about the target game.
#[derive(Debug, Clone, Copy, PartialEq, Eq, Structural)]
pub enum GameState {
    NotDetected,
    Detected,
    InBattle,
}

impl ProgramState {
    /// The canonical name of the state, as persisted and reported.
    pub open spec fn spec_name(self) -> Seq<char> {
        match self {
            ProgramState::Stopped => "Stopped"@,
            ProgramState::Starting => "Starting"@,
            ProgramState::Running => "Running"@,
            ProgramState::Stopping => "Stopping"@,
        }
    }

    pub fn name(&self) -> (r: &'static str)
        ensures
            r@ == self.spec_name(),
    {
        match self {
            ProgramState::Stopped => "Stopped",
            ProgramState::Starting => "Starting",
            ProgramState::Running => "Running",
            ProgramState::Stopping => "Stopping",
        }
    }
}

impl GameState {
    /// The canonical name of the state, as persisted and reported.
    pub open spec fn spec_name(self) -> Seq<char> {
        match self {
            GameState::NotDetected => "NotDetected"@,
            GameState::Detected => "Detected"@,
            GameState::InBattle => "InBattle"@,
        }
    }

    pub fn name(&self) -> (r: &'static str)
        ensures
            r@ == self.spec_name(),
    {
        match self {
            GameState::NotDetected => "NotDetected",
            GameState::Detected => "Detected",
            GameState::InBattle => "InBattle",
        }
    }
}

/// The single shared application state, owned by the state manager and
/// mutated only through its transition operations.
#[derive(Debug, Clone, Copy, PartialEq, Eq, Structural)]
pub struct AppState {
    pub program_state: ProgramState,
    pub game_state: GameState,
    /// Wall-clock seconds since the Unix epoch of the last mutation.
    pub last_updated: u64,
}

impl AppState {
    /// Starting the core is legal exactly when the program is stopped and a
    /// game window has been detected (idle or in battle).
    pub open spec fn spec_can_start_core(self) -> bool {
        &&& self.program_state == ProgramState::Stopped
        &&& (self.game_state == GameState::Detected || self.game_state == GameState::InBattle)
    }

    /// Stopping the core is legal exactly when the program is running.
    pub open spec fn spec_can_stop_core(self) -> bool {
        self.program_state == ProgramState::Running
    }

    /// Configuration editing is locked out whenever the program is not
    /// fully stopped.
    pub open spec fn spec_should_disable_config(self) -> bool {
        self.program_state != ProgramState::Stopped
    }

    /// A fresh state: stopped, no game detected, stamped with the given time.
    pub fn new(now: u64) -> (s: Self)
        ensures
            s.program_state == ProgramState::Stopped,
            s.game_state == GameState::NotDetected,
            s.last_updated == now,
    {
        AppState { program_state: ProgramState::Stopped, game_state: GameState::NotDetected, last_updated: now }
    }

    pub fn update_program_state(&mut self, state: ProgramState, now: u64)
        ensures
            *final(self) == (AppState { program_state: state, last_updated: now, ..*old(self) }),
    {
        self.program_state = state;
        self.last_updated = now;
    }

    pub fn update_game_state(&mut self, state: GameState, now: u64)
        ensures
            *final(self) == (AppState { game_state: state, last_updated: now, ..*old(self) }),
    {
        self.game_state = state;
        self.last_updated = now;
    }

    pub fn can_start_core(&self) -> (r: bool)
        ensures
            r == self.spec_can_start_core(),
    {
        matches!(self.program_state, ProgramState::Stopped)
            && matches!(self.game_state, GameState::Detected | GameState::InBattle)
    }

    pub fn can_stop_core(&self) -> (r: bool)
        ensures
            r == self.spec_can_stop_core(),
    {
        matches!(self.program_state, ProgramState::Running)
    }

    pub fn should_disable_config(&self) -> (r: bool)
        ensures
            r == self.spec_should_disable_config(),
    {
        !matches!(self.program_state, ProgramState::Stopped)
    }
}

impl Default for AppState {
    /// A fresh state stamped with the current wall-clock time.
    fn default() -> (s: Self)
        ensures
            s.program_state == ProgramState::Stopped,
            s.game_state == GameState::NotDetected,
    {
        let now = crate::clock::now_seconds();
        AppState::new(now)
    }
}

} // verus!
