//! Runtime state and window-session orchestration for a single-window
//! automation controller.
//!
//! The crate models the program/game state machine, its synchronous observer
//! registry and lossy broadcast bus, the persisted-state codec, the
//! window-session tracker, and the operating-mode manager.  Every executable
//! function is verified against its contract with Verus.

pub mod actions;
pub mod bus;
pub mod clock;
pub mod config;
pub mod errors;
pub mod events;
pub mod keymap;
pub mod logger;
pub mod manager;
pub mod mode_manager;
pub mod operations;
pub mod overlay;
pub mod persist;
pub mod state;
pub mod textops;
pub mod tracker;
pub mod window;

pub use config::AppConfig;
pub use config::OperationMode;
pub use manager::StateManager;
pub use manager::StateObserver;
pub use mode_manager::ModeManager;
pub use state::AppState;
pub use state::GameState;
pub use state::ProgramState;
pub use tracker::WindowService;
pub use window::WindowInfo;
