use arknights_macro::errors::ActionError;
use arknights_macro::errors::AppError;
use arknights_macro::errors::ConfigError;
use arknights_macro::errors::ErrorContext;
use arknights_macro::errors::ErrorFormatter;
use arknights_macro::errors::ErrorSeverity;
use arknights_macro::errors::RecoveryStrategy;
use arknights_macro::errors::WindowError;

#[test]
fn test_error_severity() {
    let config_error = ConfigError::FileNotFound;
    assert_eq!(config_error.severity(), ErrorSeverity::Warning);

    let window_error = WindowError::AccessDenied;
    assert_eq!(window_error.severity(), ErrorSeverity::Error);

    let action_error = ActionError::InsufficientResources;
    assert_eq!(action_error.severity(), ErrorSeverity::Fatal);
}

#[test]
fn test_app_error_conversion() {
    let config_error = ConfigError::ParseError("invalid format".to_string());
    let app_error: AppError = config_error.into();

    assert_eq!(app_error.component(), "Config");
    assert_eq!(app_error.severity(), ErrorSeverity::Error);
}

#[test]
fn test_error_context() {
    let context = ErrorContext::new("TestComponent", "test_operation")
        .with_details("test details")
        .with_severity(ErrorSeverity::Warning);

    assert_eq!(context.component, "TestComponent");
    assert_eq!(context.operation, "test_operation");
    assert_eq!(context.details, Some("test details".to_string()));
    assert_eq!(context.severity, ErrorSeverity::Warning);
}

#[test]
fn test_error_formatter() {
    let error = AppError::Config(ConfigError::FileNotFound);
    let user_msg = ErrorFormatter::format_user_message(&error);
    assert_eq!(user_msg, "配置文件不存在，将使用默认配置");

    let is_recoverable = ErrorFormatter::is_recoverable(&error);
    assert!(is_recoverable);

    let suggestion = ErrorFormatter::get_suggestion(&error);
    assert_eq!(suggestion, Some("程序将自动创建默认配置文件".to_string()));
}

#[test]
fn test_recovery_strategy() {
    let window_error = AppError::Window(WindowError::WindowNotFound);
    let strategy = RecoveryStrategy::for_error(&window_error);

    match strategy {
        RecoveryStrategy::Retry { max_attempts, delay_ms } => {
            assert_eq!(max_attempts, 5);
            assert_eq!(delay_ms, 1000);
        }
        _ => panic!("Expected Retry strategy"),
    }
}

#[test]
fn test_error_creation_helpers() {
    let config_error = ConfigError::validation_error("invalid value");
    assert!(matches!(config_error, ConfigError::ValidationError(_)));

    let window_error = WindowError::capture_error("screenshot failed");
    assert!(matches!(window_error, WindowError::CaptureError(_)));

    let action_error = ActionError::key_send_error("key not found");
    assert!(matches!(action_error, ActionError::KeySendError(_)));
}
