use user_service::infrastructure::config::{LoggerConfig, LoggerFileAppenderConfig};
use user_service::infrastructure::logger::{
    finish, init_layer, plan, InitEvent, LayerSettings, LogFormat, LogLevel, LogRotation,
};
use user_service::types::AppError;

fn appender(enable: bool) -> LoggerFileAppenderConfig {
    LoggerFileAppenderConfig {
        enable,
        level: LogLevel::Debug,
        non_blocking: false,
        format: LogFormat::Json,
        rotation: LogRotation::Daily,
        dir: None,
        max_log_files: 7,
    }
}

fn logger(stdout: bool, file: Option<LoggerFileAppenderConfig>) -> LoggerConfig {
    LoggerConfig { stdout, level: LogLevel::Info, format: LogFormat::Pretty, file }
}

#[test]
fn defaults_of_the_logger_choices() {
    assert_eq!(LogRotation::default(), LogRotation::Never);
    assert_eq!(LogLevel::default(), LogLevel::Info);
    assert_eq!(LogFormat::default(), LogFormat::Compact);
}

#[test]
fn init_layer_keeps_level_format_and_colour() {
    assert_eq!(
        init_layer(&LogLevel::Warn, &LogFormat::Json, false),
        LayerSettings { level: LogLevel::Warn, format: LogFormat::Json, ansi: false }
    );
    assert_eq!(
        init_layer(&LogLevel::Off, &LogFormat::Pretty, true),
        LayerSettings { level: LogLevel::Off, format: LogFormat::Pretty, ansi: true }
    );
}

#[test]
fn nothing_is_planned_when_nothing_is_enabled() {
    let planned = plan(&logger(false, None));
    assert!(planned.file.is_none());
    assert!(planned.stdout.is_none());
    assert!(!planned.installs_subscriber());
}

#[test]
fn a_disabled_file_section_plans_no_file() {
    let planned = plan(&logger(false, Some(appender(false))));
    assert!(planned.file.is_none());
    assert!(!planned.installs_subscriber());
}

#[test]
fn the_console_is_planned_with_colour() {
    let planned = plan(&logger(true, None));
    assert!(planned.file.is_none());
    assert_eq!(
        planned.stdout,
        Some(LayerSettings { level: LogLevel::Info, format: LogFormat::Pretty, ansi: true })
    );
    assert!(planned.installs_subscriber());
}

#[test]
fn the_file_is_planned_without_colour_in_the_default_directory() {
    let planned = plan(&logger(false, Some(appender(true))));
    let file = planned.file.as_ref().unwrap();
    assert_eq!(file.dir, "./logs");
    assert_eq!(file.filename_suffix, "backend.log");
    assert_eq!(file.rotation, LogRotation::Daily);
    assert_eq!(file.max_log_files, 7);
    assert!(!file.non_blocking);
    assert_eq!(
        file.layer,
        LayerSettings { level: LogLevel::Debug, format: LogFormat::Json, ansi: false }
    );
    assert!(planned.stdout.is_none());
    assert!(planned.installs_subscriber());
}

#[test]
fn the_file_goes_to_the_configured_directory() {
    let mut section = appender(true);
    section.dir = Some("/var/log/users".to_string());
    section.non_blocking = true;
    section.rotation = LogRotation::Minutely;
    section.max_log_files = 0;
    let planned = plan(&logger(true, Some(section)));
    let file = planned.file.as_ref().unwrap();
    assert_eq!(file.dir, "/var/log/users");
    assert!(file.non_blocking);
    assert_eq!(file.rotation, LogRotation::Minutely);
    assert_eq!(file.max_log_files, 0);
    assert_eq!(
        planned.stdout,
        Some(LayerSettings { level: LogLevel::Info, format: LogFormat::Pretty, ansi: true })
    );
}

#[test]
fn each_rotation_is_carried_over() {
    for rotation in
        [LogRotation::Minutely, LogRotation::Hourly, LogRotation::Daily, LogRotation::Never]
    {
        let mut section = appender(true);
        section.rotation = rotation;
        let planned = plan(&logger(false, Some(section)));
        assert_eq!(planned.file.unwrap().rotation, rotation);
    }
}

#[test]
fn each_format_is_carried_over() {
    for format in [LogFormat::Compact, LogFormat::Pretty, LogFormat::Json] {
        let mut section = appender(true);
        section.format = format;
        let mut config = logger(true, Some(section));
        config.format = format;
        let planned = plan(&config);
        assert_eq!(planned.file.unwrap().layer.format, format);
        assert_eq!(planned.stdout.unwrap().format, format);
    }
}

#[test]
fn a_completed_start_up_is_ok() {
    assert!(finish(InitEvent::Completed).is_ok());
}

#[test]
fn a_failed_appender_fails_start_up_with_its_reason() {
    match finish(InitEvent::AppenderFailed("permission denied".to_string())) {
        Err(AppError::General(text)) => assert_eq!(text, "permission denied"),
        other => panic!("unexpected result: {:?}", other),
    }
}

#[test]
fn a_second_background_writer_fails_start_up() {
    match finish(InitEvent::GuardAlreadySet) {
        Err(AppError::General(text)) => assert_eq!(text, "cannot lock for appender"),
        other => panic!("unexpected result: {:?}", other),
    }
}

#[test]
fn each_sink_has_its_own_level() {
    for level in [
        LogLevel::Off,
        LogLevel::Trace,
        LogLevel::Debug,
        LogLevel::Info,
        LogLevel::Warn,
        LogLevel::Error,
    ] {
        let mut section = appender(true);
        section.level = level;
        let planned = plan(&logger(true, Some(section)));
        assert_eq!(planned.file.unwrap().layer.level, level);
        assert_eq!(planned.stdout.unwrap().level, LogLevel::Info);
    }
}
