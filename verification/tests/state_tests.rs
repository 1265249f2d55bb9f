use arknights_macro::bus::PollResult;
use arknights_macro::errors::StateError;
use arknights_macro::events::StateChangeEvent;
use arknights_macro::manager::StateManager;
use arknights_macro::manager::StateObserver;
use arknights_macro::manager::StatePersistenceConfig;
use arknights_macro::state::GameState;
use arknights_macro::state::ProgramState;
use std::sync::atomic::AtomicUsize;
use std::sync::atomic::Ordering;
use std::sync::Arc;

struct TestObserver {
    program_state_changes: Arc<AtomicUsize>,
    game_state_changes: Arc<AtomicUsize>,
}

impl TestObserver {
    fn make() -> Self {
        TestObserver {
            program_state_changes: Arc::new(AtomicUsize::new(0)),
            game_state_changes: Arc::new(AtomicUsize::new(0)),
        }
    }
}

impl StateObserver for TestObserver {
    fn on_program_state_changed(&self, _old_state: ProgramState, _new_state: ProgramState) {
        self.program_state_changes.fetch_add(1, Ordering::SeqCst);
    }

    fn on_game_state_changed(&self, _old_state: GameState, _new_state: GameState) {
        self.game_state_changes.fetch_add(1, Ordering::SeqCst);
    }
}

#[test]
fn test_state_manager_creation() {
    let manager: StateManager<TestObserver> = StateManager::new();
    let state = manager.get_state();

    assert_eq!(state.program_state, ProgramState::Stopped);
    assert_eq!(state.game_state, GameState::NotDetected);
}

#[test]
fn test_state_manager_with_persistence() {
    let persistence_config = StatePersistenceConfig::new("test_state.json".to_string());
    let manager: StateManager<TestObserver> = StateManager::with_persistence(persistence_config);

    let state = manager.get_state();
    assert_eq!(state.program_state, ProgramState::Stopped);
    assert_eq!(state.game_state, GameState::NotDetected);
}

#[test]
fn test_state_transitions() {
    let mut manager: StateManager<TestObserver> = StateManager::new();

    assert_eq!(manager.get_program_state(), ProgramState::Stopped);
    assert!(!manager.can_start_core());

    manager.update_game_state(GameState::Detected);
    assert!(manager.can_start_core());

    manager.start_core().unwrap();
    assert_eq!(manager.get_program_state(), ProgramState::Running);
    assert!(manager.can_stop_core());

    manager.stop_core().unwrap();
    assert_eq!(manager.get_program_state(), ProgramState::Stopped);
}

#[test]
fn test_invalid_state_transitions() {
    let mut manager: StateManager<TestObserver> = StateManager::new();

    let result = manager.start_core();
    assert!(result.is_err());

    let result = manager.stop_core();
    assert!(result.is_err());
}

#[test]
fn test_observer_notifications() {
    let mut manager: StateManager<TestObserver> = StateManager::new();
    let observer = TestObserver::make();

    let program_changes = Arc::clone(&observer.program_state_changes);
    let game_changes = Arc::clone(&observer.game_state_changes);

    manager.add_observer(observer);

    manager.update_game_state(GameState::Detected);
    assert_eq!(game_changes.load(Ordering::SeqCst), 1);

    manager.start_core().unwrap();
    manager.stop_core().unwrap();

    assert_eq!(program_changes.load(Ordering::SeqCst), 4);
}

#[test]
fn test_multiple_observers() {
    let mut manager: StateManager<TestObserver> = StateManager::new();
    let observer1 = TestObserver::make();
    let observer2 = TestObserver::make();

    let program_changes1 = Arc::clone(&observer1.program_state_changes);
    let program_changes2 = Arc::clone(&observer2.program_state_changes);

    manager.add_observer(observer1);
    manager.add_observer(observer2);

    manager.update_game_state(GameState::Detected);
    manager.start_core().unwrap();

    assert_eq!(program_changes1.load(Ordering::SeqCst), 2);
    assert_eq!(program_changes2.load(Ordering::SeqCst), 2);
}

#[test]
fn test_event_broadcasting() {
    let mut manager: StateManager<TestObserver> = StateManager::new();
    let receiver = manager.subscribe_events();

    manager.update_game_state(GameState::Detected);
    manager.start_core().unwrap();
    manager.stop_core().unwrap();

    let mut event_count = 0;
    loop {
        match manager.poll_event(receiver) {
            PollResult::Event(_) => event_count += 1,
            PollResult::Lagged(_) => panic!("subscriber should not lag"),
            PollResult::Empty => break,
        }
    }

    assert_eq!(event_count, 5);
}

#[test]
fn test_start_core_event_order() {
    let mut manager: StateManager<TestObserver> = StateManager::new();
    let receiver = manager.subscribe_events();

    manager.update_game_state(GameState::Detected);
    manager.start_core().unwrap();

    match manager.poll_event(receiver) {
        PollResult::Event(StateChangeEvent::GameStateChanged { old_state, new_state, .. }) => {
            assert_eq!(old_state, GameState::NotDetected);
            assert_eq!(new_state, GameState::Detected);
        }
        other => panic!("expected a game-state event, got {:?}", other),
    }
    match manager.poll_event(receiver) {
        PollResult::Event(StateChangeEvent::ProgramStateChanged { old_state, new_state, .. }) => {
            assert_eq!(old_state, ProgramState::Stopped);
            assert_eq!(new_state, ProgramState::Starting);
        }
        other => panic!("expected the starting transition, got {:?}", other),
    }
    match manager.poll_event(receiver) {
        PollResult::Event(StateChangeEvent::ProgramStateChanged { old_state, new_state, .. }) => {
            assert_eq!(old_state, ProgramState::Starting);
            assert_eq!(new_state, ProgramState::Running);
        }
        other => panic!("expected the running transition, got {:?}", other),
    }
    assert!(matches!(manager.poll_event(receiver), PollResult::Empty));
}

#[test]
fn test_failed_start_emits_nothing() {
    let mut manager: StateManager<TestObserver> = StateManager::new();
    let receiver = manager.subscribe_events();

    let before = manager.get_state();
    assert!(manager.start_core().is_err());
    assert_eq!(manager.get_state(), before);
    assert!(matches!(manager.poll_event(receiver), PollResult::Empty));
}

#[test]
fn test_redundant_game_update_is_silent() {
    let mut manager: StateManager<TestObserver> = StateManager::new();
    let receiver = manager.subscribe_events();

    manager.update_game_state(GameState::Detected);
    assert!(matches!(manager.poll_event(receiver), PollResult::Event(_)));
    let stamped = manager.get_state();

    manager.update_game_state(GameState::Detected);
    assert_eq!(manager.get_state(), stamped);
    assert_eq!(manager.get_state().last_updated, stamped.last_updated);
    assert!(matches!(manager.poll_event(receiver), PollResult::Empty));
}

#[test]
fn test_subscriber_gap_detection() {
    let mut manager: StateManager<TestObserver> = StateManager::new();
    let receiver = manager.subscribe_events();

    // Alternate the game state so every update publishes one event; the
    // subscriber never polls while 105 events stream past its
    // 100-slot buffer.
    for i in 0..105 {
        if i % 2 == 0 {
            manager.update_game_state(GameState::Detected);
        } else {
            manager.update_game_state(GameState::InBattle);
        }
    }

    match manager.poll_event(receiver) {
        PollResult::Lagged(n) => assert_eq!(n, 5),
        other => panic!("expected a gap report, got {:?}", other),
    }

    let mut remaining = 0;
    loop {
        match manager.poll_event(receiver) {
            PollResult::Event(_) => remaining += 1,
            PollResult::Lagged(_) => panic!("gap already reported"),
            PollResult::Empty => break,
        }
    }
    assert_eq!(remaining, 100);
}

#[test]
fn test_config_disable_logic() {
    let mut manager: StateManager<TestObserver> = StateManager::new();

    assert!(!manager.should_disable_config());

    manager.update_game_state(GameState::Detected);
    manager.start_core().unwrap();
    assert!(manager.should_disable_config());

    manager.stop_core().unwrap();
    assert!(!manager.should_disable_config());
}

#[test]
fn test_game_state_updates() {
    let mut manager: StateManager<TestObserver> = StateManager::new();

    assert_eq!(manager.get_game_state(), GameState::NotDetected);

    manager.update_game_state(GameState::Detected);
    assert_eq!(manager.get_game_state(), GameState::Detected);

    manager.update_game_state(GameState::InBattle);
    assert_eq!(manager.get_game_state(), GameState::InBattle);

    manager.update_game_state(GameState::NotDetected);
    assert_eq!(manager.get_game_state(), GameState::NotDetected);
}

#[test]
fn test_persistence_config() {
    let config = StatePersistenceConfig::default();
    assert!(!config.enabled);
    assert_eq!(config.auto_save_interval, 60);

    let custom_config = StatePersistenceConfig::new("custom.json".to_string())
        .with_auto_save_interval(30)
        .without_auto_save();

    assert!(custom_config.enabled);
    assert_eq!(custom_config.auto_save_interval, 0);
    assert_eq!(custom_config.state_file_path, "custom.json");
}

#[test]
fn test_observer_removal() {
    let mut manager: StateManager<TestObserver> = StateManager::new();
    let observer1 = TestObserver::make();
    let observer2 = TestObserver::make();

    manager.add_observer(observer1);
    manager.add_observer(observer2);

    assert!(manager.remove_observer(0));

    assert!(!manager.remove_observer(10));
}

#[test]
fn test_pause_requires_running() {
    let mut manager: StateManager<TestObserver> = StateManager::new();

    assert!(manager.pause_core().is_err());

    manager.update_game_state(GameState::Detected);
    manager.start_core().unwrap();
    assert!(manager.pause_core().is_ok());
    assert_eq!(manager.get_program_state(), ProgramState::Running);
}

#[test]
fn test_invalid_transition_error_detail() {
    let mut manager: StateManager<TestObserver> = StateManager::new();
    match manager.start_core() {
        Err(StateError::InvalidTransition { from, to }) => {
            assert_eq!(from, "Stopped");
            assert_eq!(to, "Starting");
        }
        other => panic!("expected an invalid transition, got {:?}", other),
    }
    match manager.stop_core() {
        Err(StateError::InvalidTransition { from, to }) => {
            assert_eq!(from, "Stopped");
            assert_eq!(to, "Stopping");
        }
        other => panic!("expected an invalid transition, got {:?}", other),
    }
}
