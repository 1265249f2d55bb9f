use arknights_macro::config::AppConfig;
use arknights_macro::config::GlobalSettings;
use arknights_macro::config::IntelligentModeConfig;
use arknights_macro::config::MacroModeConfig;
use arknights_macro::config::OperationMode;
use arknights_macro::config::OverlaySettings;
use arknights_macro::config::Theme;
use arknights_macro::config::UISettings;

#[test]
fn test_app_config_default() {
    let config = AppConfig::default();

    assert_eq!(config.mode, OperationMode::Macro);
    assert!(config.macro_config.battle_detection_enabled);
    assert!(config.macro_config.overlay_settings.enabled);
    assert_eq!(config.macro_config.overlay_settings.transparency, 80);
    assert_eq!(config.ui_settings.theme, Theme::Light);
    assert_eq!(config.ui_settings.language, "zh-CN");
    assert_eq!(config.ui_settings.window_size, (800, 600));
    assert!(!config.global_settings.auto_start_on_detection);
}

#[test]
fn test_app_config_validation() {
    let mut config = AppConfig::default();

    assert!(config.validate().is_ok());

    config.macro_config.overlay_settings.transparency = 150;
    assert!(config.validate().is_err());

    config.fix_invalid_values();
    assert_eq!(config.macro_config.overlay_settings.transparency, 100);
    assert!(config.validate().is_ok());
}

#[test]
fn test_macro_mode_config_validation() {
    let mut config = MacroModeConfig::default();

    assert!(config.validate().is_ok());

    config.hotkeys.remove("deploy_operator");
    assert!(config.validate().is_err());

    config.fix_invalid_values();
    assert!(config.hotkeys.contains_key("deploy_operator"));
    assert!(config.validate().is_ok());

    config.hotkeys.insert("activate_skill".to_string(), "".to_string());
    assert!(config.validate().is_err());

    config.fix_invalid_values();
    assert!(!config.hotkeys.get("activate_skill").unwrap().is_empty());
    assert!(config.validate().is_ok());
}

#[test]
fn test_intelligent_mode_config_validation() {
    let mut config = IntelligentModeConfig::default();

    assert!(config.validate().is_ok());

    config.intelligent_features.push("unsupported_feature".to_string());
    assert!(config.validate().is_err());

    config.fix_invalid_values();
    assert!(!config.intelligent_features.contains(&"unsupported_feature".to_string()));
    assert!(config.validate().is_ok());

    config.intelligent_features.clear();
    config.fix_invalid_values();
    assert!(!config.intelligent_features.is_empty());
}

#[test]
fn test_global_settings_validation() {
    let mut settings = GlobalSettings::default();

    assert!(settings.validate().is_ok());

    settings.game_keys.remove("battle_speed");
    assert!(settings.validate().is_err());

    settings.fix_invalid_values();
    assert!(settings.game_keys.contains_key("battle_speed"));
    assert!(settings.validate().is_ok());
}

#[test]
fn test_ui_settings_validation() {
    let mut settings = UISettings::default();

    assert!(settings.validate().is_ok());

    settings.window_size = (100, 100);
    assert!(settings.validate().is_err());

    settings.window_size = (5000, 5000);
    assert!(settings.validate().is_err());

    settings.fix_invalid_values();
    assert!(settings.window_size.0 >= 400 && settings.window_size.0 <= 3840);
    assert!(settings.window_size.1 >= 300 && settings.window_size.1 <= 2160);
    assert!(settings.validate().is_ok());

    settings.language = "invalid-lang".to_string();
    assert!(settings.validate().is_err());

    settings.fix_invalid_values();
    assert_eq!(settings.language, "zh-CN");
    assert!(settings.validate().is_ok());
}

#[test]
fn test_overlay_settings_validation() {
    let mut settings = OverlaySettings::default();

    assert!(settings.validate().is_ok());

    settings.transparency = 150;
    assert!(settings.validate().is_err());

    settings.fix_invalid_values();
    assert_eq!(settings.transparency, 100);
    assert!(settings.validate().is_ok());
}

#[test]
fn test_supported_operations() {
    let operations = AppConfig::get_supported_operations();
    assert_eq!(operations.len(), 5);
    assert!(operations.contains(&"deploy_operator"));
    assert!(operations.contains(&"activate_skill"));
    assert!(operations.contains(&"retreat_operator"));
    assert!(operations.contains(&"focus_view"));
    assert!(operations.contains(&"pause_game"));
}

#[test]
fn test_supported_game_functions() {
    let functions = AppConfig::get_supported_game_functions();
    assert_eq!(functions.len(), 4);
    assert!(functions.contains(&"battle_speed"));
    assert!(functions.contains(&"skill_activation"));
    assert!(functions.contains(&"retreat_operator"));
    assert!(functions.contains(&"exit_return"));
}

#[test]
fn test_supported_intelligent_features() {
    let features = IntelligentModeConfig::get_supported_intelligent_features();
    assert_eq!(features.len(), 3);
    assert!(features.contains(&"small_number_selection"));
    assert!(features.contains(&"auto_skill_timing"));
    assert!(features.contains(&"smart_deployment"));
}

#[test]
fn test_supported_languages() {
    let languages = UISettings::get_supported_languages();
    assert_eq!(languages.len(), 5);
    assert!(languages.contains(&"zh-CN"));
    assert!(languages.contains(&"zh-TW"));
    assert!(languages.contains(&"en-US"));
    assert!(languages.contains(&"ja-JP"));
    assert!(languages.contains(&"ko-KR"));
}

#[test]
fn test_config_fix_comprehensive() {
    let mut config = AppConfig::default();

    config.macro_config.hotkeys.remove("deploy_operator");
    config.macro_config.hotkeys.remove("activate_skill");
    config.macro_config.hotkeys.remove("retreat_operator");
    config.macro_config.hotkeys.remove("focus_view");
    config.macro_config.hotkeys.remove("pause_game");
    config.macro_config.overlay_settings.transparency = 200;
    config.intelligent_config.intelligent_features.clear();
    config.intelligent_config.intelligent_features.push("invalid_feature".to_string());
    config.global_settings.game_keys.remove("battle_speed");
    config.global_settings.game_keys.remove("skill_activation");
    config.global_settings.game_keys.remove("retreat_operator");
    config.global_settings.game_keys.remove("exit_return");
    config.ui_settings.window_size = (50, 50);
    config.ui_settings.language = "invalid".to_string();

    assert!(config.validate().is_err());

    config.fix_invalid_values();

    assert!(config.validate().is_ok());

    assert_eq!(config.macro_config.hotkeys.len(), 5);
    assert_eq!(config.macro_config.overlay_settings.transparency, 100);
    assert!(!config.intelligent_config.intelligent_features.is_empty());
    assert!(!config.intelligent_config.intelligent_features.contains(&"invalid_feature".to_string()));
    assert_eq!(config.global_settings.game_keys.len(), 4);
    assert!(config.ui_settings.window_size.0 >= 400);
    assert!(config.ui_settings.window_size.1 >= 300);
    assert_eq!(config.ui_settings.language, "zh-CN");
}

#[test]
fn test_unicode_whitespace_hotkey_is_blank() {
    let mut config = MacroModeConfig::default();

    // A binding of only a no-break space trims to nothing and must be
    // rejected, exactly like an ASCII-blank binding.
    config.hotkeys.insert("pause_game".to_string(), "\u{00A0}".to_string());
    assert!(config.validate().is_err());

    config.hotkeys.insert("pause_game".to_string(), "\u{2003}\u{3000}".to_string());
    assert!(config.validate().is_err());

    config.fix_invalid_values();
    assert_eq!(config.hotkeys.get("pause_game"), Some(&"Space".to_string()));
    assert!(config.validate().is_ok());

    let mut settings = GlobalSettings::default();
    settings.game_keys.insert("battle_speed".to_string(), "\u{00A0}".to_string());
    assert!(settings.validate().is_err());

    let mut intelligent = IntelligentModeConfig::default();
    intelligent.hotkeys.insert("focus_view".to_string(), "\u{00A0}".to_string());
    assert!(intelligent.validate().is_err());
}
