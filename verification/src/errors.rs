//! The error taxonomy: typed domain errors, their severity, and the
//! user-facing reporting helpers.

use vstd::prelude::*;
use vstd::string::StringExecFns;

verus! {

/// How bad an error is for the program as a whole.
#[derive(Debug, Clone, Copy, PartialEq, Eq, Structural)]
pub enum ErrorSeverity {
    /// Informational; no functional impact.
    Info,
    /// May degrade a feature; execution continues.
    Warning,
    /// A feature failed; the process survives.
    Error,
    /// The process cannot meaningfully continue.
    Fatal,
}

/// Where and during what operation an error arose.
#[derive(Debug, Clone, PartialEq)]
pub struct ErrorContext {
    pub component: String,
    pub operation: String,
    pub details: Option<String>,
    pub severity: ErrorSeverity,
}

impl ErrorContext {
    pub fn new(component: &str, operation: &str) -> (c: Self)
        ensures
            c.component@ == component@,
            c.operation@ == operation@,
            c.details is None,
            c.severity == ErrorSeverity::Error,
    {
        ErrorContext {
            component: component.to_owned(),
            operation: operation.to_owned(),
            details: None,
            severity: ErrorSeverity::Error,
        }
    }

    pub fn with_details(self, details: &str) -> (c: Self)
        ensures
            c.component == self.component,
            c.operation == self.operation,
            c.severity == self.severity,
            c.details matches Some(d) && d@ == details@,
    {
        ErrorContext { details: Some(details.to_owned()), ..self }
    }

    pub fn with_severity(self, severity: ErrorSeverity) -> (c: Self)
        ensures
            c == (ErrorContext { severity, ..self }),
    {
        ErrorContext { severity, ..self }
    }
}

/// Errors of configuration loading, validation and storage.
#[derive(Debug, PartialEq)]
pub enum ConfigError {
    FileNotFound,
    ParseError(String),
    SaveError(String),
    ValidationError(String),
    IoError(String),
    SerializationError(String),
    InvalidPath(String),
    PermissionDenied,
    CorruptedFile,
}

impl ConfigError {
    pub open spec fn spec_severity(self) -> ErrorSeverity {
        match self {
            ConfigError::FileNotFound => ErrorSeverity::Warning,
            ConfigError::ParseError(_) => ErrorSeverity::Error,
            ConfigError::SaveError(_) => ErrorSeverity::Error,
            ConfigError::ValidationError(_) => ErrorSeverity::Warning,
            ConfigError::IoError(_) => ErrorSeverity::Error,
            ConfigError::SerializationError(_) => ErrorSeverity::Error,
            ConfigError::InvalidPath(_) => ErrorSeverity::Error,
            ConfigError::PermissionDenied => ErrorSeverity::Fatal,
            ConfigError::CorruptedFile => ErrorSeverity::Error,
        }
    }

    pub fn severity(&self) -> (r: ErrorSeverity)
        ensures
            r == self.spec_severity(),
    {
        match self {
            ConfigError::FileNotFound => ErrorSeverity::Warning,
            ConfigError::ParseError(_) => ErrorSeverity::Error,
            ConfigError::SaveError(_) => ErrorSeverity::Error,
            ConfigError::ValidationError(_) => ErrorSeverity::Warning,
            ConfigError::IoError(_) => ErrorSeverity::Error,
            ConfigError::SerializationError(_) => ErrorSeverity::Error,
            ConfigError::InvalidPath(_) => ErrorSeverity::Error,
            ConfigError::PermissionDenied => ErrorSeverity::Fatal,
            ConfigError::CorruptedFile => ErrorSeverity::Error,
        }
    }

    pub fn serialization_error(message: &str) -> (r: Self)
        ensures
            r matches ConfigError::SerializationError(m) && m@ == message@,
    {
        ConfigError::SerializationError(message.to_owned())
    }

    pub fn validation_error(message: &str) -> (r: Self)
        ensures
            r matches ConfigError::ValidationError(m) && m@ == message@,
    {
        ConfigError::ValidationError(message.to_owned())
    }
}

/// Errors of window lookup, tracking and capture.
#[derive(Debug, PartialEq)]
pub enum WindowError {
    WindowNotFound,
    AccessDenied,
    CaptureError(String),
    InfoError(String),
    CoordinateError,
    InvalidHandle,
    WindowClosed,
    SystemApiError(String),
}

impl WindowError {
    pub open spec fn spec_severity(self) -> ErrorSeverity {
        match self {
            WindowError::WindowNotFound => ErrorSeverity::Warning,
            WindowError::AccessDenied => ErrorSeverity::Error,
            WindowError::CaptureError(_) => ErrorSeverity::Warning,
            WindowError::InfoError(_) => ErrorSeverity::Warning,
            WindowError::CoordinateError => ErrorSeverity::Error,
            WindowError::InvalidHandle => ErrorSeverity::Error,
            WindowError::WindowClosed => ErrorSeverity::Warning,
            WindowError::SystemApiError(_) => ErrorSeverity::Error,
        }
    }

    pub fn severity(&self) -> (r: ErrorSeverity)
        ensures
            r == self.spec_severity(),
    {
        match self {
            WindowError::WindowNotFound => ErrorSeverity::Warning,
            WindowError::AccessDenied => ErrorSeverity::Error,
            WindowError::CaptureError(_) => ErrorSeverity::Warning,
            WindowError::InfoError(_) => ErrorSeverity::Warning,
            WindowError::CoordinateError => ErrorSeverity::Error,
            WindowError::InvalidHandle => ErrorSeverity::Error,
            WindowError::WindowClosed => ErrorSeverity::Warning,
            WindowError::SystemApiError(_) => ErrorSeverity::Error,
        }
    }

    pub fn capture_error(message: &str) -> (r: Self)
        ensures
            r matches WindowError::CaptureError(m) && m@ == message@,
    {
        WindowError::CaptureError(message.to_owned())
    }

    pub fn info_error(message: &str) -> (r: Self)
        ensures
            r matches WindowError::InfoError(m) && m@ == message@,
    {
        WindowError::InfoError(message.to_owned())
    }

    pub fn system_api_error(message: &str) -> (r: Self)
        ensures
            r matches WindowError::SystemApiError(m) && m@ == message@,
    {
        WindowError::SystemApiError(message.to_owned())
    }
}

/// Errors of keystroke and mouse injection.
#[derive(Debug, PartialEq)]
pub enum ActionError {
    KeySendError(String),
    MouseError(String),
    CoordinateError,
    SequenceError(String),
    Timeout,
    Cancelled,
    InvalidParameter(String),
    UnsupportedOperation(String),
    InsufficientResources,
    InvalidKey(String),
    SystemCall(String),
    UnsupportedPlatform(String),
}

impl ActionError {
    pub open spec fn spec_severity(self) -> ErrorSeverity {
        match self {
            ActionError::KeySendError(_) => ErrorSeverity::Error,
            ActionError::MouseError(_) => ErrorSeverity::Error,
            ActionError::CoordinateError => ErrorSeverity::Error,
            ActionError::SequenceError(_) => ErrorSeverity::Error,
            ActionError::Timeout => ErrorSeverity::Warning,
            ActionError::Cancelled => ErrorSeverity::Info,
            ActionError::InvalidParameter(_) => ErrorSeverity::Error,
            ActionError::UnsupportedOperation(_) => ErrorSeverity::Error,
            ActionError::InsufficientResources => ErrorSeverity::Fatal,
            ActionError::InvalidKey(_) => ErrorSeverity::Error,
            ActionError::SystemCall(_) => ErrorSeverity::Error,
            ActionError::UnsupportedPlatform(_) => ErrorSeverity::Warning,
        }
    }

    pub fn severity(&self) -> (r: ErrorSeverity)
        ensures
            r == self.spec_severity(),
    {
        match self {
            ActionError::KeySendError(_) => ErrorSeverity::Error,
            ActionError::MouseError(_) => ErrorSeverity::Error,
            ActionError::CoordinateError => ErrorSeverity::Error,
            ActionError::SequenceError(_) => ErrorSeverity::Error,
            ActionError::Timeout => ErrorSeverity::Warning,
            ActionError::Cancelled => ErrorSeverity::Info,
            ActionError::InvalidParameter(_) => ErrorSeverity::Error,
            ActionError::UnsupportedOperation(_) => ErrorSeverity::Error,
            ActionError::InsufficientResources => ErrorSeverity::Fatal,
            ActionError::InvalidKey(_) => ErrorSeverity::Error,
            ActionError::SystemCall(_) => ErrorSeverity::Error,
            ActionError::UnsupportedPlatform(_) => ErrorSeverity::Warning,
        }
    }

    pub fn key_send_error(message: &str) -> (r: Self)
        ensures
            r matches ActionError::KeySendError(m) && m@ == message@,
    {
        ActionError::KeySendError(message.to_owned())
    }

    pub fn mouse_error(message: &str) -> (r: Self)
        ensures
            r matches ActionError::MouseError(m) && m@ == message@,
    {
        ActionError::MouseError(message.to_owned())
    }

    pub fn sequence_error(message: &str) -> (r: Self)
        ensures
            r matches ActionError::SequenceError(m) && m@ == message@,
    {
        ActionError::SequenceError(message.to_owned())
    }

    pub fn invalid_parameter(message: &str) -> (r: Self)
        ensures
            r matches ActionError::InvalidParameter(m) && m@ == message@,
    {
        ActionError::InvalidParameter(message.to_owned())
    }

    pub fn unsupported_operation(message: &str) -> (r: Self)
        ensures
            r matches ActionError::UnsupportedOperation(m) && m@ == message@,
    {
        ActionError::UnsupportedOperation(message.to_owned())
    }

    pub fn invalid_key(key: &str) -> (r: Self)
        ensures
            r matches ActionError::InvalidKey(m) && m@ == key@,
    {
        ActionError::InvalidKey(key.to_owned())
    }

    pub fn system_call(message: &str) -> (r: Self)
        ensures
            r matches ActionError::SystemCall(m) && m@ == message@,
    {
        ActionError::SystemCall(message.to_owned())
    }

    pub fn unsupported_platform(message: &str) -> (r: Self)
        ensures
            r matches ActionError::UnsupportedPlatform(m) && m@ == message@,
    {
        ActionError::UnsupportedPlatform(message.to_owned())
    }
}

/// Errors of the program/game state machine and its persistence.
#[derive(Debug, PartialEq)]
pub enum StateError {
    InvalidTransition { from: String, to: String },
    LockError,
    ObserverError(String),
    InconsistentState,
    InitializationError(String),
    PersistenceError(String),
}

impl StateError {
    pub open spec fn spec_severity(self) -> ErrorSeverity {
        match self {
            StateError::InvalidTransition { .. } => ErrorSeverity::Error,
            StateError::LockError => ErrorSeverity::Error,
            StateError::ObserverError(_) => ErrorSeverity::Warning,
            StateError::InconsistentState => ErrorSeverity::Error,
            StateError::InitializationError(_) => ErrorSeverity::Fatal,
            StateError::PersistenceError(_) => ErrorSeverity::Warning,
        }
    }

    pub fn severity(&self) -> (r: ErrorSeverity)
        ensures
            r == self.spec_severity(),
    {
        match self {
            StateError::InvalidTransition { .. } => ErrorSeverity::Error,
            StateError::LockError => ErrorSeverity::Error,
            StateError::ObserverError(_) => ErrorSeverity::Warning,
            StateError::InconsistentState => ErrorSeverity::Error,
            StateError::InitializationError(_) => ErrorSeverity::Fatal,
            StateError::PersistenceError(_) => ErrorSeverity::Warning,
        }
    }

    pub fn invalid_transition(from: &str, to: &str) -> (r: Self)
        ensures
            r matches StateError::InvalidTransition { from: f, to: t } && f@ == from@ && t@ == to@,
    {
        StateError::InvalidTransition { from: from.to_owned(), to: to.to_owned() }
    }

    pub fn observer_error(message: &str) -> (r: Self)
        ensures
            r matches StateError::ObserverError(m) && m@ == message@,
    {
        StateError::ObserverError(message.to_owned())
    }

    pub fn initialization_error(message: &str) -> (r: Self)
        ensures
            r matches StateError::InitializationError(m) && m@ == message@,
    {
        StateError::InitializationError(message.to_owned())
    }

    pub fn persistence_error(message: &str) -> (r: Self)
        ensures
            r matches StateError::PersistenceError(m) && m@ == message@,
    {
        StateError::PersistenceError(message.to_owned())
    }
}

/// Errors of operating-mode switching and validation.
#[derive(Debug, PartialEq)]
pub enum ModeError {
    SwitchError(String),
    ConfigError(String),
    UnsupportedMode(String),
    InitializationError(String),
    ValidationError(String),
}

impl ModeError {
    pub open spec fn spec_severity(self) -> ErrorSeverity {
        match self {
            ModeError::SwitchError(_) => ErrorSeverity::Error,
            ModeError::ConfigError(_) => ErrorSeverity::Error,
            ModeError::UnsupportedMode(_) => ErrorSeverity::Error,
            ModeError::InitializationError(_) => ErrorSeverity::Fatal,
            ModeError::ValidationError(_) => ErrorSeverity::Warning,
        }
    }

    pub fn severity(&self) -> (r: ErrorSeverity)
        ensures
            r == self.spec_severity(),
    {
        match self {
            ModeError::SwitchError(_) => ErrorSeverity::Error,
            ModeError::ConfigError(_) => ErrorSeverity::Error,
            ModeError::UnsupportedMode(_) => ErrorSeverity::Error,
            ModeError::InitializationError(_) => ErrorSeverity::Fatal,
            ModeError::ValidationError(_) => ErrorSeverity::Warning,
        }
    }

    pub fn switch_error(message: &str) -> (r: Self)
        ensures
            r matches ModeError::SwitchError(m) && m@ == message@,
    {
        ModeError::SwitchError(message.to_owned())
    }

    pub fn config_error(message: &str) -> (r: Self)
        ensures
            r matches ModeError::ConfigError(m) && m@ == message@,
    {
        ModeError::ConfigError(message.to_owned())
    }

    pub fn unsupported_mode(mode: &str) -> (r: Self)
        ensures
            r matches ModeError::UnsupportedMode(m) && m@ == mode@,
    {
        ModeError::UnsupportedMode(mode.to_owned())
    }

    pub fn initialization_error(message: &str) -> (r: Self)
        ensures
            r matches ModeError::InitializationError(m) && m@ == message@,
    {
        ModeError::InitializationError(message.to_owned())
    }

    pub fn validation_error(message: &str) -> (r: Self)
        ensures
            r matches ModeError::ValidationError(m) && m@ == message@,
    {
        ModeError::ValidationError(message.to_owned())
    }
}

/// The application-level error, one variant per subsystem.
#[derive(Debug, PartialEq)]
pub enum AppError {
    Config(ConfigError),
    Window(WindowError),
    Action(ActionError),
    State(StateError),
    Mode(ModeError),
    UI(String),
    System(String),
    Initialization(String),
    Network(String),
}

impl AppError {
    pub open spec fn spec_severity(self) -> ErrorSeverity {
        match self {
            AppError::Config(e) => e.spec_severity(),
            AppError::Window(e) => e.spec_severity(),
            AppError::Action(e) => e.spec_severity(),
            AppError::State(e) => e.spec_severity(),
            AppError::Mode(e) => e.spec_severity(),
            AppError::UI(_) => ErrorSeverity::Error,
            AppError::System(_) => ErrorSeverity::Fatal,
            AppError::Initialization(_) => ErrorSeverity::Fatal,
            AppError::Network(_) => ErrorSeverity::Warning,
        }
    }

    pub fn severity(&self) -> (r: ErrorSeverity)
        ensures
            r == self.spec_severity(),
    {
        match self {
            AppError::Config(e) => e.severity(),
            AppError::Window(e) => e.severity(),
            AppError::Action(e) => e.severity(),
            AppError::State(e) => e.severity(),
            AppError::Mode(e) => e.severity(),
            AppError::UI(_) => ErrorSeverity::Error,
            AppError::System(_) => ErrorSeverity::Fatal,
            AppError::Initialization(_) => ErrorSeverity::Fatal,
            AppError::Network(_) => ErrorSeverity::Warning,
        }
    }

    pub open spec fn spec_component(self) -> Seq<char> {
        match self {
            AppError::Config(_) => "Config"@,
            AppError::Window(_) => "Window"@,
            AppError::Action(_) => "Action"@,
            AppError::State(_) => "State"@,
            AppError::Mode(_) => "Mode"@,
            AppError::UI(_) => "UI"@,
            AppError::System(_) => "System"@,
            AppError::Initialization(_) => "Init"@,
            AppError::Network(_) => "Network"@,
        }
    }

    pub fn component(&self) -> (r: &'static str)
        ensures
            r@ == self.spec_component(),
    {
        match self {
            AppError::Config(_) => "Config",
            AppError::Window(_) => "Window",
            AppError::Action(_) => "Action",
            AppError::State(_) => "State",
            AppError::Mode(_) => "Mode",
            AppError::UI(_) => "UI",
            AppError::System(_) => "System",
            AppError::Initialization(_) => "Init",
            AppError::Network(_) => "Network",
        }
    }

    pub fn ui_error(message: &str) -> (r: Self)
        ensures
            r matches AppError::UI(m) && m@ == message@,
    {
        AppError::UI(message.to_owned())
    }

    pub fn system_error(message: &str) -> (r: Self)
        ensures
            r matches AppError::System(m) && m@ == message@,
    {
        AppError::System(message.to_owned())
    }

    pub fn initialization_error(message: &str) -> (r: Self)
        ensures
            r matches AppError::Initialization(m) && m@ == message@,
    {
        AppError::Initialization(message.to_owned())
    }

    pub fn network_error(message: &str) -> (r: Self)
        ensures
            r matches AppError::Network(m) && m@ == message@,
    {
        AppError::Network(message.to_owned())
    }
}

/// The user-facing message for an error.
pub open spec fn spec_user_message(e: AppError) -> Seq<char> {
    match e {
        AppError::Config(ConfigError::FileNotFound) => "配置文件不存在，将使用默认配置"@,
        AppError::Config(ConfigError::ParseError(_)) => "配置文件格式错误，请检查配置文件"@,
        AppError::Window(WindowError::WindowNotFound) => "未找到明日方舟游戏窗口，请确保游戏已启动"@,
        AppError::Window(WindowError::AccessDenied) => "无法访问游戏窗口，请以管理员身份运行程序"@,
        AppError::Action(ActionError::Timeout) => "操作执行超时，请检查游戏状态"@,
        AppError::Config(_) => "配置错误"@,
        AppError::Window(_) => "窗口管理错误"@,
        AppError::Action(_) => "操作执行错误"@,
        AppError::State(_) => "状态管理错误"@,
        AppError::Mode(_) => "模式管理错误"@,
        AppError::UI(m) => m@,
        AppError::System(m) => m@,
        AppError::Initialization(m) => m@,
        AppError::Network(m) => m@,
    }
}

/// The suggested remedy for an error, where one is known.
pub open spec fn spec_suggestion(e: AppError) -> Option<Seq<char>> {
    match e {
        AppError::Window(WindowError::WindowNotFound) => Some("请启动明日方舟游戏后重试"@),
        AppError::Window(WindowError::AccessDenied) => Some("请以管理员身份运行程序"@),
        AppError::Config(ConfigError::FileNotFound) => Some("程序将自动创建默认配置文件"@),
        AppError::Config(ConfigError::PermissionDenied) => Some("请检查配置文件的读写权限"@),
        _ => None,
    }
}

/// An error is recoverable when execution can sensibly continue after it.
pub open spec fn spec_recoverable(e: AppError) -> bool {
    match e.spec_severity() {
        ErrorSeverity::Info => true,
        ErrorSeverity::Warning => true,
        ErrorSeverity::Error => e matches AppError::Window(WindowError::WindowNotFound)
            || e matches AppError::Action(ActionError::Timeout)
            || e matches AppError::Config(ConfigError::FileNotFound),
        ErrorSeverity::Fatal => false,
    }
}

/// Turns errors into user-facing text.
pub struct ErrorFormatter;

impl ErrorFormatter {
    /// The user-facing message for an error.
    pub fn format_user_message(error: &AppError) -> (r: String)
        ensures
            r@ == spec_user_message(*error),
    {
        match error {
            AppError::Config(ConfigError::FileNotFound) => "配置文件不存在，将使用默认配置".to_owned(),
            AppError::Config(ConfigError::ParseError(_)) => "配置文件格式错误，请检查配置文件".to_owned(),
            AppError::Window(WindowError::WindowNotFound) => "未找到明日方舟游戏窗口，请确保游戏已启动".to_owned(),
            AppError::Window(WindowError::AccessDenied) => "无法访问游戏窗口，请以管理员身份运行程序".to_owned(),
            AppError::Action(ActionError::Timeout) => "操作执行超时，请检查游戏状态".to_owned(),
            AppError::Config(_) => "配置错误".to_owned(),
            AppError::Window(_) => "窗口管理错误".to_owned(),
            AppError::Action(_) => "操作执行错误".to_owned(),
            AppError::State(_) => "状态管理错误".to_owned(),
            AppError::Mode(_) => "模式管理错误".to_owned(),
            AppError::UI(m) => m.clone(),
            AppError::System(m) => m.clone(),
            AppError::Initialization(m) => m.clone(),
            AppError::Network(m) => m.clone(),
        }
    }

    /// Whether execution can sensibly continue after the error.
    pub fn is_recoverable(error: &AppError) -> (r: bool)
        ensures
            r == spec_recoverable(*error),
    {
        match error.severity() {
            ErrorSeverity::Info => true,
            ErrorSeverity::Warning => true,
            ErrorSeverity::Error => {
                matches!(
                    error,
                    AppError::Window(WindowError::WindowNotFound)
                        | AppError::Action(ActionError::Timeout)
                        | AppError::Config(ConfigError::FileNotFound)
                )
            },
            ErrorSeverity::Fatal => false,
        }
    }

    /// The suggested remedy for the error, where one is known.
    pub fn get_suggestion(error: &AppError) -> (r: Option<String>)
        ensures
            match r {
                Some(s) => spec_suggestion(*error) == Some(s@),
                None => spec_suggestion(*error) is None,
            },
    {
        match error {
            AppError::Window(WindowError::WindowNotFound) => Some("请启动明日方舟游戏后重试".to_owned()),
            AppError::Window(WindowError::AccessDenied) => Some("请以管理员身份运行程序".to_owned()),
            AppError::Config(ConfigError::FileNotFound) => Some("程序将自动创建默认配置文件".to_owned()),
            AppError::Config(ConfigError::PermissionDenied) => Some("请检查配置文件的读写权限".to_owned()),
            _ => None,
        }
    }
}

/// Delivers errors to the user interface.
pub struct ErrorReporter;

impl ErrorReporter {
    /// The message shown to the user: the user-facing text, and the
    /// suggestion appended on its own line when one is known.
    pub fn report_to_ui(error: &AppError) -> (r: String)
        ensures
            spec_suggestion(*error) is None ==> r@ == spec_user_message(*error),
            spec_suggestion(*error) matches Some(s) ==> r@ == spec_user_message(*error)
                + "\n建议: "@ + s,
    {
        let user_msg = ErrorFormatter::format_user_message(error);
        match ErrorFormatter::get_suggestion(error) {
            Some(suggestion) => {
                let mut out = user_msg;
                out.append("\n建议: ");
                out.append(suggestion.as_str());
                out
            },
            None => user_msg,
        }
    }

    /// Whether the error must interrupt whatever the user is doing.
    pub fn requires_immediate_attention(error: &AppError) -> (r: bool)
        ensures
            r == (error.spec_severity() == ErrorSeverity::Fatal
                || *error matches AppError::System(_)
                || *error matches AppError::Initialization(_)),
    {
        matches!(error.severity(), ErrorSeverity::Fatal) || matches!(
            error,
            AppError::System(_) | AppError::Initialization(_),
        )
    }
}

/// How a caller should react to an error.
#[derive(Debug, Clone, Copy, PartialEq, Eq, Structural)]
pub enum RecoveryStrategy {
    /// Try again, up to the given number of attempts, pausing between them.
    Retry { max_attempts: u32, delay_ms: u64 },
    /// Fall back to default values.
    UseDefault,
    /// Skip the failed step and go on.
    Skip,
    /// Stop the program.
    Abort,
}

impl RecoveryStrategy {
    /// The recommended reaction to an error.
    pub fn for_error(error: &AppError) -> (r: Self)
        ensures
            *error matches AppError::Window(WindowError::WindowNotFound) ==> r
                == (RecoveryStrategy::Retry { max_attempts: 5, delay_ms: 1000 }),
            *error matches AppError::Config(ConfigError::FileNotFound) ==> r
                == RecoveryStrategy::UseDefault,
            *error matches AppError::Action(ActionError::Timeout) ==> r
                == (RecoveryStrategy::Retry { max_attempts: 3, delay_ms: 500 }),
            (*error matches AppError::System(_) || *error matches AppError::Initialization(_))
                ==> r == RecoveryStrategy::Abort,
    {
        match error {
            AppError::Window(WindowError::WindowNotFound) => RecoveryStrategy::Retry {
                max_attempts: 5,
                delay_ms: 1000,
            },
            AppError::Config(ConfigError::FileNotFound) => RecoveryStrategy::UseDefault,
            AppError::Action(ActionError::Timeout) => RecoveryStrategy::Retry {
                max_attempts: 3,
                delay_ms: 500,
            },
            AppError::System(_) => RecoveryStrategy::Abort,
            AppError::Initialization(_) => RecoveryStrategy::Abort,
            _ => RecoveryStrategy::Skip,
        }
    }
}

impl From<ConfigError> for AppError {
    fn from(e: ConfigError) -> (r: Self) {
        AppError::Config(e)
    }
}

impl vstd::std_specs::convert::FromSpecImpl<ConfigError> for AppError {
    open spec fn obeys_from_spec() -> bool {
        true
    }

    open spec fn from_spec(e: ConfigError) -> Self {
        AppError::Config(e)
    }
}

impl From<WindowError> for AppError {
    fn from(e: WindowError) -> (r: Self) {
        AppError::Window(e)
    }
}

impl vstd::std_specs::convert::FromSpecImpl<WindowError> for AppError {
    open spec fn obeys_from_spec() -> bool {
        true
    }

    open spec fn from_spec(e: WindowError) -> Self {
        AppError::Window(e)
    }
}

impl From<ActionError> for AppError {
    fn from(e: ActionError) -> (r: Self) {
        AppError::Action(e)
    }
}

impl vstd::std_specs::convert::FromSpecImpl<ActionError> for AppError {
    open spec fn obeys_from_spec() -> bool {
        true
    }

    open spec fn from_spec(e: ActionError) -> Self {
        AppError::Action(e)
    }
}

impl From<StateError> for AppError {
    fn from(e: StateError) -> (r: Self) {
        AppError::State(e)
    }
}

impl vstd::std_specs::convert::FromSpecImpl<StateError> for AppError {
    open spec fn obeys_from_spec() -> bool {
        true
    }

    open spec fn from_spec(e: StateError) -> Self {
        AppError::State(e)
    }
}

impl From<ModeError> for AppError {
    fn from(e: ModeError) -> (r: Self) {
        AppError::Mode(e)
    }
}

impl vstd::std_specs::convert::FromSpecImpl<ModeError> for AppError {
    open spec fn obeys_from_spec() -> bool {
        true
    }

    open spec fn from_spec(e: ModeError) -> Self {
        AppError::Mode(e)
    }
}

} // verus!
