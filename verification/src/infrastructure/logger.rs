//! Logging: the choices a configuration can make, and the sinks that
//! follow from them.
//!
//! Nothing here opens a file or installs a subscriber. `plan` turns a
//! configuration into the list of sinks to set up, in the order in which
//! they are set up; `finish` turns what happened while doing so into the
//! result that start-up reports.

use vstd::prelude::*;
use vstd::string::StringExecFns;
use crate::infrastructure::config::LoggerConfig;
use crate::types::AppError;

verus! {

/// How often the log file is rolled over.
#[derive(Debug, Clone, Copy, PartialEq, Eq, Structural)]
pub enum LogRotation {
    Minutely,
    Hourly,
    Daily,
    Never,
}

impl Default for LogRotation {
    fn default() -> (rotation: Self)
        ensures
            rotation == LogRotation::Never,
    {
        LogRotation::Never
    }
}

/// The least severity that is written.
#[derive(Debug, Clone, Copy, PartialEq, Eq, Structural)]
pub enum LogLevel {
    Off,
    Trace,
    Debug,
    Info,
    Warn,
    Error,
}

impl Default for LogLevel {
    fn default() -> (level: Self)
        ensures
            level == LogLevel::Info,
    {
        LogLevel::Info
    }
}

/// The shape of a written line.
#[derive(Debug, Clone, Copy, PartialEq, Eq, Structural)]
pub enum LogFormat {
    Compact,
    Pretty,
    Json,
}

impl Default for LogFormat {
    fn default() -> (format: Self)
        ensures
            format == LogFormat::Compact,
    {
        LogFormat::Compact
    }
}

/// What one sink writes, and how.
#[derive(Debug, Clone, Copy, PartialEq, Eq, Structural)]
pub struct LayerSettings {
    /// The least severity that the sink writes.
    pub level: LogLevel,
    pub format: LogFormat,
    /// Whether colour escapes are written.
    pub ansi: bool,
}

/// The rolling file sink.
#[derive(Debug)]
pub struct FileSink {
    /// The directory the files are kept in.
    pub dir: String,
    /// What every file name ends in.
    pub filename_suffix: String,
    pub rotation: LogRotation,
    /// How many files are kept before the oldest is removed.
    pub max_log_files: usize,
    /// Whether lines are handed to a background writer, whose handle has
    /// to be kept until the process ends.
    pub non_blocking: bool,
    pub layer: LayerSettings,
}

/// The sinks to set up: the file first, then the console.
#[derive(Debug)]
pub struct LoggerPlan {
    pub file: Option<FileSink>,
    pub stdout: Option<LayerSettings>,
}

/// What happened while a plan was carried out.
#[derive(Debug)]
pub enum InitEvent {
    /// The file sink could not be opened; the text says why.
    AppenderFailed(String),
    /// A background writer's handle had been stored before.
    GuardAlreadySet,
    /// Every planned sink was set up.
    Completed,
}

/// The directory that is used where the configuration names none.
pub open spec fn default_dir() -> Seq<char> {
    "./logs"@
}

/// What every log file's name ends in.
pub open spec fn file_suffix() -> Seq<char> {
    "backend.log"@
}

/// The message of the error that a second background writer gets.
pub open spec fn guard_message() -> Seq<char> {
    "cannot lock for appender"@
}

/// Whether the configuration asks for the file sink.
pub open spec fn wants_file(config: &LoggerConfig) -> bool {
    config.file matches Some(file) && file.enable
}

/// The directory of the file sink that `config` asks for.
pub open spec fn file_dir(config: &LoggerConfig) -> Seq<char>
    recommends
        wants_file(config),
{
    match config.file->0.dir {
        Some(dir) => dir@,
        None => default_dir(),
    }
}

impl LoggerPlan {
    /// Whether carrying the plan out installs a subscriber: with no sink
    /// there is nothing to install, and logging stays as it was.
    pub fn installs_subscriber(&self) -> (installs: bool)
        ensures
            installs == (self.file is Some || self.stdout is Some),
    {
        self.file.is_some() || self.stdout.is_some()
    }
}

/// The settings of one sink: it writes what is at least as severe as
/// `level`, in the shape `format`, with colour only where `ansi` is set.
pub fn init_layer(level: &LogLevel, format: &LogFormat, ansi: bool) -> (layer: LayerSettings)
    ensures
        layer == (LayerSettings { level: *level, format: *format, ansi }),
{
    LayerSettings { level: *level, format: *format, ansi }
}

/// The sinks that `config` asks for.
///
/// The file sink is planned when the configuration has a file section
/// that is enabled. It writes to the configured directory, or to `./logs`
/// where none is given, into files whose names end in `backend.log`,
/// without colour. The console sink is planned when `stdout` is set, and
/// writes with colour. Each sink has the level and the format of its own
/// section.
pub fn plan(config: &LoggerConfig) -> (plan: LoggerPlan)
    ensures
        plan.file is Some == wants_file(config),
        plan.file matches Some(sink) ==> sink.dir@ == file_dir(config),
        plan.file matches Some(sink) ==> sink.filename_suffix@ == file_suffix(),
        plan.file matches Some(sink) ==> sink.rotation == config.file->0.rotation,
        plan.file matches Some(sink) ==> sink.max_log_files == config.file->0.max_log_files,
        plan.file matches Some(sink) ==> sink.non_blocking == config.file->0.non_blocking,
        plan.file matches Some(sink) ==> sink.layer == (LayerSettings {
            level: config.file->0.level,
            format: config.file->0.format,
            ansi: false,
        }),
        plan.stdout == (if config.stdout {
            Some(LayerSettings { level: config.level, format: config.format, ansi: true })
        } else {
            None
        }),
{
    let file = match &config.file {
        Some(appender) => {
            if appender.enable {
                let dir = match &appender.dir {
                    Some(dir) => dir.clone(),
                    None => String::from_str("./logs"),
                };
                Some(
                    FileSink {
                        dir,
                        filename_suffix: String::from_str("backend.log"),
                        rotation: appender.rotation,
                        max_log_files: appender.max_log_files,
                        non_blocking: appender.non_blocking,
                        layer: init_layer(&appender.level, &appender.format, false),
                    },
                )
            } else {
                None
            }
        },
        None => None,
    };
    let stdout = if config.stdout {
        Some(init_layer(&config.level, &config.format, true))
    } else {
        None
    };
    LoggerPlan { file, stdout }
}

/// The result of start-up after `event`.
///
/// A sink that could not be opened fails start-up with the reason it
/// gave; a second background writer fails it with a fixed message;
/// otherwise start-up goes on.
pub fn finish(event: InitEvent) -> (result: Result<(), AppError>)
    ensures
        (match event {
            InitEvent::AppenderFailed(reason) => result matches Err(AppError::General(message))
                && message@ == reason@,
            InitEvent::GuardAlreadySet => result matches Err(AppError::General(message))
                && message@ == guard_message(),
            InitEvent::Completed => result is Ok,
        }),
{
    match event {
        InitEvent::AppenderFailed(reason) => Err(AppError::General(reason)),
        InitEvent::GuardAlreadySet => Err(AppError::string("cannot lock for appender")),
        InitEvent::Completed => Ok(()),
    }
}

} // verus!
