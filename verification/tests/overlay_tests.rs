use arknights_macro::config::OverlayDisplayMode;
use arknights_macro::config::OverlaySettings;
use arknights_macro::keymap::KeyTable;
use arknights_macro::overlay::OverlayContent;
use arknights_macro::overlay::OverlayManager;
use arknights_macro::overlay::OverlayPosition;
use arknights_macro::overlay::StatusInfo;
use arknights_macro::window::WindowInfo;

fn window(foreground: bool) -> WindowInfo {
    WindowInfo {
        handle: 0,
        title: "Test".to_string(),
        position: (0, 0),
        size: (100, 100),
        process_id: 0,
        is_visible: true,
        is_foreground: foreground,
    }
}

#[test]
fn test_overlay_manager_creation() {
    let manager = OverlayManager::new();
    assert!(!manager.is_visible());
    assert!(manager.get_settings().enabled);
}

#[test]
fn test_overlay_settings_update() {
    let mut manager = OverlayManager::new();
    let mut settings = OverlaySettings::default();
    settings.transparency = 50;

    manager.update_settings(settings);
    assert_eq!(manager.get_settings().transparency, 50);
}

#[test]
fn test_overlay_content_management() {
    let mut manager = OverlayManager::new();

    let status = StatusInfo {
        program_status: "运行中".to_string(),
        game_status: "已连接".to_string(),
        current_mode: "宏模式".to_string(),
        extra_info: KeyTable::new(),
    };

    manager.update_status(status);
    assert_eq!(manager.content.len(), 1);

    manager.clear_content();
    assert_eq!(manager.content.len(), 0);
}

#[test]
fn test_overlay_status_replaced_in_place() {
    let mut manager = OverlayManager::new();
    manager.update_content(vec![OverlayContent::CustomText("hello".to_string())]);

    let status_a = StatusInfo {
        program_status: "a".to_string(),
        game_status: "a".to_string(),
        current_mode: "a".to_string(),
        extra_info: KeyTable::new(),
    };
    let status_b = StatusInfo {
        program_status: "b".to_string(),
        game_status: "b".to_string(),
        current_mode: "b".to_string(),
        extra_info: KeyTable::new(),
    };

    manager.update_status(status_a);
    assert_eq!(manager.content.len(), 2);
    manager.update_status(status_b);
    assert_eq!(manager.content.len(), 2);
    match &manager.content[1] {
        OverlayContent::StatusInfo(s) => assert_eq!(s.program_status, "b"),
        other => panic!("expected the status block, got {:?}", other),
    }
}

#[test]
fn test_overlay_position() {
    let mut manager = OverlayManager::new();
    let position = OverlayPosition { x: 200, y: 300, width: 400, height: 500 };

    manager.set_position(position);
    let retrieved = manager.get_position();
    assert_eq!(retrieved.x, 200);
    assert_eq!(retrieved.y, 300);
    assert_eq!(retrieved.width, 400);
    assert_eq!(retrieved.height, 500);
}

#[test]
fn test_should_show_logic() {
    let mut settings = OverlaySettings::default();
    settings.display_mode = OverlayDisplayMode::Always;
    let manager = OverlayManager::with_settings(settings);

    assert!(manager.should_show(&window(true), false));
    assert!(manager.should_show(&window(true), true));

    let default_manager = OverlayManager::new();
    assert!(!default_manager.should_show(&window(true), false));
    assert!(default_manager.should_show(&window(true), true));

    let mut above = OverlaySettings::default();
    above.display_mode = OverlayDisplayMode::OnlyAboveProgram;
    let above_manager = OverlayManager::with_settings(above);
    assert!(!above_manager.should_show(&window(false), true));
    assert!(above_manager.should_show(&window(true), true));

    let mut disabled = OverlaySettings::default();
    disabled.enabled = false;
    let disabled_manager = OverlayManager::with_settings(disabled);
    assert!(!disabled_manager.should_show(&window(true), true));
}

#[test]
fn test_overlay_show_hide_and_redraw() {
    let mut manager = OverlayManager::new();
    assert!(manager.show().is_ok());
    assert!(manager.is_visible());

    // The first tick past the interval claims the pending redraw.
    assert!(manager.update(1_000));
    // Immediately afterwards nothing is due.
    assert!(!manager.update(1_001));

    manager.hide_overlay();
    assert!(!manager.is_visible());
    assert!(!manager.update(10_000));
}
