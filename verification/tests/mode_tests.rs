use arknights_macro::bus::PollResult;
use arknights_macro::config::IntelligentModeConfig;
use arknights_macro::config::MacroModeConfig;
use arknights_macro::config::OperationMode;
use arknights_macro::mode_manager::ModeChangeEvent;
use arknights_macro::mode_manager::ModeManager;
use arknights_macro::operations::GameOperation;

#[test]
fn test_mode_manager_creation() {
    let manager = ModeManager::new();
    assert_eq!(*manager.get_current_mode(), OperationMode::Macro);
    assert!(!manager.get_all_game_operations().is_empty());
}

#[test]
fn test_mode_switching() {
    let mut manager = ModeManager::new();

    assert_eq!(*manager.get_current_mode(), OperationMode::Macro);

    manager.switch_mode(OperationMode::Intelligent).unwrap();
    assert_eq!(*manager.get_current_mode(), OperationMode::Intelligent);

    manager.switch_mode(OperationMode::Macro).unwrap();
    assert_eq!(*manager.get_current_mode(), OperationMode::Macro);
}

#[test]
fn test_hotkey_updates() {
    let mut manager = ModeManager::new();

    manager.update_hotkey("test_operation".to_string(), "Ctrl+T".to_string()).unwrap();

    let hotkeys = manager.get_current_hotkeys();
    assert_eq!(hotkeys.get("test_operation"), Some(&"Ctrl+T".to_string()));
}

#[test]
fn test_hotkey_update_event_carries_old_binding() {
    let mut manager = ModeManager::new();
    let receiver = manager.subscribe_events();

    // A fresh operation has no previous binding.
    manager.update_hotkey("test_operation".to_string(), "Ctrl+T".to_string()).unwrap();
    match manager.poll_event(receiver) {
        PollResult::Event(ModeChangeEvent::HotkeyUpdate { operation, old_hotkey, new_hotkey, .. }) => {
            assert_eq!(operation, "test_operation");
            assert_eq!(old_hotkey, None);
            assert_eq!(new_hotkey, "Ctrl+T");
        }
        other => panic!("expected a hotkey update event, got {:?}", other),
    }

    // Rebinding a stock operation reports the stock key as the old one.
    manager.update_hotkey("deploy_operator".to_string(), "F5".to_string()).unwrap();
    match manager.poll_event(receiver) {
        PollResult::Event(ModeChangeEvent::HotkeyUpdate { operation, old_hotkey, new_hotkey, .. }) => {
            assert_eq!(operation, "deploy_operator");
            assert_eq!(old_hotkey, Some("1".to_string()));
            assert_eq!(new_hotkey, "F5");
        }
        other => panic!("expected a hotkey update event, got {:?}", other),
    }
}

#[test]
fn test_mode_history() {
    let mut manager = ModeManager::new();

    manager.switch_mode(OperationMode::Intelligent).unwrap();
    manager.switch_mode(OperationMode::Macro).unwrap();

    let history = manager.get_mode_history();
    assert_eq!(history.len(), 3);
}

#[test]
fn test_config_validation() {
    let manager = ModeManager::new();

    assert!(manager.validate_current_config().is_ok());
    assert!(manager.can_switch_to(OperationMode::Intelligent));
}

#[test]
fn test_game_operations() {
    let mut manager = ModeManager::new();

    let operation = GameOperation::new(
        "test_op".to_string(),
        "T".to_string(),
        "T".to_string(),
    );

    manager.set_game_operation(operation);

    let retrieved = manager.get_game_operation("test_op");
    assert!(retrieved.is_some());
    assert_eq!(retrieved.unwrap().name, "test_op");
}

#[test]
fn test_enabled_features() {
    let manager = ModeManager::new();

    let features = manager.get_current_enabled_features();
    assert!(!features.is_empty());
}

#[test]
fn test_reset_to_defaults() {
    let mut manager = ModeManager::new();

    manager.switch_mode(OperationMode::Intelligent).unwrap();
    manager.update_hotkey("test".to_string(), "X".to_string()).unwrap();

    manager.reset_to_defaults().unwrap();

    assert_eq!(*manager.get_current_mode(), OperationMode::Macro);
    assert!(!manager.get_current_hotkeys().contains_key("test"));
    assert_eq!(manager.get_current_hotkeys().get("deploy_operator"), Some(&"1".to_string()));
    assert_eq!(manager.get_all_game_operations()[0].hotkey, "1");
    assert_eq!(manager.get_mode_history().len(), 1);
}

#[test]
fn test_switch_blocked_by_invalid_config() {
    let mut manager = ModeManager::new();

    // Break the intelligent mode's hotkey map deliberately.
    let mut broken = IntelligentModeConfig::default();
    broken.hotkeys.remove("pause_game");
    manager.set_intelligent_config(broken);

    assert!(!manager.can_switch_to(OperationMode::Intelligent));
    let receiver = manager.subscribe_events();
    let result = manager.switch_mode(OperationMode::Intelligent);
    assert!(result.is_err());
    assert_eq!(*manager.get_current_mode(), OperationMode::Macro);
    assert!(matches!(manager.poll_event(receiver), PollResult::Empty));

    // Repair the configuration and retry: the switch now succeeds and
    // emits exactly one ModeSwitch event.
    let mut repaired = manager.get_intelligent_config().clone();
    repaired.fix_invalid_values();
    manager.set_intelligent_config(repaired);

    assert!(manager.can_switch_to(OperationMode::Intelligent));
    manager.switch_mode(OperationMode::Intelligent).unwrap();
    assert_eq!(*manager.get_current_mode(), OperationMode::Intelligent);

    match manager.poll_event(receiver) {
        PollResult::Event(ModeChangeEvent::ModeSwitch { from, to }) => {
            assert_eq!(from, OperationMode::Macro);
            assert_eq!(to, OperationMode::Intelligent);
        }
        other => panic!("expected one mode switch event, got {:?}", other),
    }
    assert!(matches!(manager.poll_event(receiver), PollResult::Empty));
}

#[test]
fn test_switch_to_current_mode_is_noop() {
    let mut manager = ModeManager::new();
    let receiver = manager.subscribe_events();

    manager.switch_mode(OperationMode::Macro).unwrap();
    assert_eq!(*manager.get_current_mode(), OperationMode::Macro);
    assert_eq!(manager.get_mode_history().len(), 1);
    assert!(matches!(manager.poll_event(receiver), PollResult::Empty));
}

#[test]
fn test_with_configs_uses_given_configs() {
    let mut macro_config = MacroModeConfig::default();
    macro_config.battle_detection_enabled = false;
    let intelligent_config = IntelligentModeConfig::default();

    let manager = ModeManager::with_configs(macro_config, intelligent_config);
    assert!(!manager.get_macro_config().battle_detection_enabled);
    assert_eq!(*manager.get_current_mode(), OperationMode::Macro);
}

#[test]
fn test_max_history_truncation() {
    let mut manager = ModeManager::new();

    manager.switch_mode(OperationMode::Intelligent).unwrap();
    manager.switch_mode(OperationMode::Macro).unwrap();
    manager.switch_mode(OperationMode::Intelligent).unwrap();
    assert_eq!(manager.get_mode_history().len(), 4);

    manager.set_max_history(2);
    let history = manager.get_mode_history();
    assert_eq!(history.len(), 2);
    assert_eq!(history[1].0, OperationMode::Intelligent);
}

#[test]
fn test_mode_stats_counts() {
    let mut manager = ModeManager::new();
    manager.switch_mode(OperationMode::Intelligent).unwrap();
    manager.switch_mode(OperationMode::Macro).unwrap();

    let stats = manager.get_mode_stats();
    assert_eq!(stats.len(), 2);
    assert_eq!(stats[0].0, OperationMode::Macro);
    assert_eq!(stats[1].0, OperationMode::Intelligent);
    // History holds the initial macro entry plus both switches.
    assert_eq!(stats[0].1 .0, 2);
    assert_eq!(stats[1].1 .0, 1);
}
