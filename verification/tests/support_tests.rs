use arknights_macro::actions::ActionService;
use arknights_macro::keymap::KeyTable;
use arknights_macro::logger::Logger;
use arknights_macro::operations::ActionSequence;
use arknights_macro::operations::ActionType;
use arknights_macro::operations::DefaultOperations;
use arknights_macro::operations::MouseButton;

#[test]
fn test_action_sequence_building() {
    let mut sequence = ActionSequence::new("demo".to_string());
    assert!(sequence.is_empty());

    sequence.add_key_press("1".to_string());
    sequence.add_mouse_click(MouseButton::Left, 10, 20);
    sequence.add_wait(100);
    sequence.add_action(ActionType::MouseMove(5, 6));

    assert_eq!(sequence.len(), 4);
    assert!(!sequence.is_empty());
    assert!(matches!(&sequence.actions[0], ActionType::KeyPress(k) if k == "1"));
    assert!(matches!(sequence.actions[1], ActionType::MouseClick(MouseButton::Left, 10, 20)));
    assert!(matches!(sequence.actions[2], ActionType::Wait(100)));
    assert!(matches!(sequence.actions[3], ActionType::MouseMove(5, 6)));
}

#[test]
fn test_default_operations() {
    let ops = DefaultOperations::get_default_operations();
    assert_eq!(ops.len(), 5);
    assert_eq!(ops[0].name, "deploy_operator");
    assert_eq!(ops[0].hotkey, "1");
    assert_eq!(ops[0].sequence.len(), 2);
    assert_eq!(ops[4].name, "pause_game");
    assert_eq!(ops[4].game_key, "Escape");
    assert!(ops.iter().all(|op| op.enabled));
}

#[test]
fn test_action_service_key_map() {
    let mut service = ActionService::new();

    assert_eq!(service.key_code("Space"), Some(0x20));
    assert_eq!(service.key_code("1"), Some(0x31));
    assert_eq!(service.key_code("Q"), None);

    service.add_key_mapping("Q".to_string(), 0x51);
    assert_eq!(service.key_code("Q"), Some(0x51));

    let keys = service.get_supported_keys();
    assert_eq!(keys.len(), 9);
    assert!(keys.contains(&"Escape".to_string()));
    assert!(service.get_cursor_position().is_err());
}

#[test]
fn test_logger_ring() {
    let mut logger = Logger::new(3);
    logger.add_log("a".to_string());
    logger.add_log("b".to_string());
    logger.add_log("c".to_string());
    assert_eq!(logger.get_logs().len(), 3);

    logger.add_log("d".to_string());
    let logs = logger.get_logs();
    assert_eq!(logs.len(), 3);
    assert_eq!(logs[0], "b");
    assert_eq!(logs[2], "d");

    logger.clear();
    assert!(logger.get_logs().is_empty());
}

#[test]
fn test_key_table_semantics() {
    let mut table = KeyTable::new();
    assert!(table.is_empty());

    table.insert("a".to_string(), "1".to_string());
    table.insert("b".to_string(), "2".to_string());
    table.insert("a".to_string(), "3".to_string());

    assert_eq!(table.len(), 2);
    assert_eq!(table.get("a"), Some(&"3".to_string()));
    assert_eq!(table.get("b"), Some(&"2".to_string()));
    assert!(table.contains_key("a"));
    assert!(!table.contains_key("c"));
    assert_eq!(table.keys(), vec!["a".to_string(), "b".to_string()]);

    assert!(table.remove("a"));
    assert!(!table.remove("a"));
    assert_eq!(table.len(), 1);
    assert!(!table.contains_key("a"));
}
