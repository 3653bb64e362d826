use vstd::prelude::*;
use vstd::string::StringExecFns;
use crate::text::{decimal, decimal_text};

verus! {

/// How important a log message is, from least to most.
#[derive(Debug, Clone, Copy, PartialEq, Eq, Structural)]
pub enum LogLevel {
    Debug,
    Info,
    Warn,
    Error,
}

/// The rank of a level: Debug 0, Info 1, Warn 2, Error 3.
pub open spec fn priority(level: LogLevel) -> nat {
    match level {
        LogLevel::Debug => 0,
        LogLevel::Info => 1,
        LogLevel::Warn => 2,
        LogLevel::Error => 3,
    }
}

/// The name of a level as it appears in a log line.
pub open spec fn level_name(level: LogLevel) -> Seq<char> {
    match level {
        LogLevel::Debug => "DEBUG"@,
        LogLevel::Info => "INFO"@,
        LogLevel::Warn => "WARN"@,
        LogLevel::Error => "ERROR"@,
    }
}

impl LogLevel {
    /// The level's name, such as `INFO`.
    pub fn to_string(&self) -> (r: String)
        ensures
            r@ == level_name(*self),
    {
        match self {
            LogLevel::Debug => "DEBUG".to_owned(),
            LogLevel::Info => "INFO".to_owned(),
            LogLevel::Warn => "WARN".to_owned(),
            LogLevel::Error => "ERROR".to_owned(),
        }
    }
}

/// Whether a message at `level` passes a filter set to `min_level`.
pub fn should_log(level: &LogLevel, min_level: &LogLevel) -> (r: bool)
    ensures
        r == (priority(*level) >= priority(*min_level)),
{
    let level_priority: u8 = match level {
        LogLevel::Debug => 0,
        LogLevel::Info => 1,
        LogLevel::Warn => 2,
        LogLevel::Error => 3,
    };
    let min_priority: u8 = match min_level {
        LogLevel::Debug => 0,
        LogLevel::Info => 1,
        LogLevel::Warn => 2,
        LogLevel::Error => 3,
    };
    level_priority >= min_priority
}

/// A message to be logged; `timestamp` is in seconds since the Unix epoch.
#[derive(Debug, Clone)]
pub struct LogEntry {
    pub level: LogLevel,
    pub message: String,
    pub timestamp: u64,
    pub dest_path: String,
}

/// The line written for an entry: `<seconds> [<LEVEL>] <message>`.
pub open spec fn entry_line(entry: &LogEntry) -> Seq<char> {
    decimal(entry.timestamp as nat) + " ["@ + level_name(entry.level) + "] "@ + entry.message@
}

/// Builds the line written for an entry.
pub fn format_line(entry: &LogEntry) -> (r: String)
    ensures
        r@ == entry_line(entry),
{
    let mut line = decimal_text(entry.timestamp);
    line.append(" [");
    line.append(entry.level.to_string().as_str());
    line.append("] ");
    line.append(entry.message.as_str());
    line
}

/// Turns log entries into lines.
pub trait LogFormatter {
    fn format(&self, entry: &LogEntry) -> (r: String)
        ensures
            r@ == entry_line(entry),
    ;
}

/// Formatter for debug entries.
pub struct DebugLogFormatter;

/// Formatter for info entries.
pub struct InfoLogFormatter;

/// Formatter for warnings.
pub struct WarnLogFormatter;

/// Formatter for errors.
pub struct ErrorLogFormatter;

impl LogFormatter for DebugLogFormatter {
    fn format(&self, entry: &LogEntry) -> (r: String) {
        format_line(entry)
    }
}

impl LogFormatter for InfoLogFormatter {
    fn format(&self, entry: &LogEntry) -> (r: String) {
        format_line(entry)
    }
}

impl LogFormatter for WarnLogFormatter {
    fn format(&self, entry: &LogEntry) -> (r: String) {
        format_line(entry)
    }
}

impl LogFormatter for ErrorLogFormatter {
    fn format(&self, entry: &LogEntry) -> (r: String) {
        format_line(entry)
    }
}

/// Formats an entry with the formatter of its level.
pub fn format_entry(entry: &LogEntry) -> (r: String)
    ensures
        r@ == entry_line(entry),
{
    match entry.level {
        LogLevel::Debug => DebugLogFormatter.format(entry),
        LogLevel::Info => InfoLogFormatter.format(entry),
        LogLevel::Warn => WarnLogFormatter.format(entry),
        LogLevel::Error => ErrorLogFormatter.format(entry),
    }
}

/// Settings of the logger.
#[derive(Debug, Clone)]
pub struct LogConfig {
    pub min_level: LogLevel,
    /// Size in bytes above which the log file is rotated.
    pub max_file_size: u64,
    pub max_files: usize,
    pub log_dir: String,
}

impl Default for LogConfig {
    /// Info and above, files rotated above 1 MiB, five files kept, under `logs`.
    fn default() -> (r: LogConfig)
        ensures
            r.min_level == LogLevel::Info,
            r.max_file_size == 1024 * 1024,
            r.max_files == 5,
            r.log_dir@ == "logs"@,
    {
        LogConfig {
            min_level: LogLevel::Info,
            max_file_size: 1024 * 1024,
            max_files: 5,
            log_dir: "logs".to_owned(),
        }
    }
}

/// The file that entries are appended to: `<log_dir>/app.log`.
pub fn log_file_path(log_dir: &str) -> (r: String)
    ensures
        r@ == log_dir@ + "/app.log"@,
{
    let mut p = log_dir.to_owned();
    p.append("/app.log");
    p
}

/// Whether a log file of `file_len` bytes has to be rotated before the next write.
pub fn needs_rotation(file_len: u64, config: &LogConfig) -> (r: bool)
    ensures
        r == (file_len > config.max_file_size),
{
    file_len > config.max_file_size
}

/// The name of rotated file number `index`: `<stem>.<index>.<extension>`.
pub fn rotated_file_name(stem: &str, index: usize, extension: &str) -> (r: String)
    ensures
        r@ == stem@ + "."@ + decimal(index as nat) + "."@ + extension@,
{
    let mut name = stem.to_owned();
    name.append(".");
    name.append(decimal_text(index as u64).as_str());
    name.append(".");
    name.append(extension);
    name
}

/// One move of a log rotation, applied when the file of the first index exists.
#[derive(Debug, Clone, Copy, PartialEq, Eq, Structural)]
pub enum RotateStep {
    /// Delete rotated file number `.0`: it is the oldest kept.
    Remove(usize),
    /// Rename rotated file number `.0` to number `.1`.
    Rename(usize, usize),
}

/// The step for rotated file number `index` when `max_files` files are kept.
pub open spec fn rotate_step_for(index: usize, max_files: usize) -> RotateStep {
    if index + 1 >= max_files {
        RotateStep::Remove(index)
    } else {
        RotateStep::Rename(index, (index + 1) as usize)
    }
}

/// The moves that make room for a new first rotated file: files `max_files - 1`
/// down to 1, the last kept one deleted and every other moved up by one.
pub fn rotation_steps(max_files: usize) -> (r: Vec<RotateStep>)
    ensures
        max_files <= 1 ==> r@.len() == 0,
        max_files > 1 ==> r@.len() == max_files - 1,
        forall|k: int|
            0 <= k < r@.len() ==> #[trigger] r@[k] == rotate_step_for(
                (max_files - 1 - k) as usize,
                max_files,
            ),
{
    let mut steps: Vec<RotateStep> = Vec::new();
    if max_files <= 1 {
        return steps;
    }
    let mut i: usize = max_files - 1;
    while i >= 1
        invariant
            max_files > 1,
            i <= max_files - 1,
            steps@.len() == max_files - 1 - i,
            forall|k: int|
                0 <= k < steps@.len() ==> #[trigger] steps@[k] == rotate_step_for(
                    (max_files - 1 - k) as usize,
                    max_files,
                ),
        decreases i,
    {
        let step = if i + 1 >= max_files {
            RotateStep::Remove(i)
        } else {
            RotateStep::Rename(i, i + 1)
        };
        steps.push(step);
        i = i - 1;
    }
    steps
}

} // verus!
