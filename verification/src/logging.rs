//! Logging configuration: levels, formats, outputs and a builder for them.
use vstd::prelude::*;

use crate::error::{ConfigError, YuhaError};
use crate::keyed::KeyedList;
use crate::text::{ascii_lowered, is_ascii_text, lowercase, str_eq, to_lowercase, concat2};

verus! {

/// Log levels, from most to least verbose.
#[derive(Debug, Clone, Copy, PartialEq, Eq, Structural)]
pub enum LogLevel {
    Trace,
    Debug,
    Info,
    Warn,
    Error,
}

/// The lowercase name of a level.
pub open spec fn level_name(l: LogLevel) -> Seq<char> {
    match l {
        LogLevel::Trace => "trace"@,
        LogLevel::Debug => "debug"@,
        LogLevel::Info => "info"@,
        LogLevel::Warn => "warn"@,
        LogLevel::Error => "error"@,
    }
}

/// The level that a lowercase name stands for.
pub open spec fn level_from_name(n: Seq<char>) -> Option<LogLevel> {
    if n == "trace"@ {
        Some(LogLevel::Trace)
    } else if n == "debug"@ {
        Some(LogLevel::Debug)
    } else if n == "info"@ {
        Some(LogLevel::Info)
    } else if n == "warn"@ {
        Some(LogLevel::Warn)
    } else if n == "error"@ {
        Some(LogLevel::Error)
    } else {
        None
    }
}

/// Each level is read back from its name.
pub proof fn lemma_level_name_roundtrip(l: LogLevel)
    ensures
        level_from_name(level_name(l)) == Some(l),
{
    reveal_strlit("trace");
    reveal_strlit("debug");
    reveal_strlit("info");
    reveal_strlit("warn");
    reveal_strlit("error");
    assert("trace"@[0] != "debug"@[0]);
    assert("trace"@[0] != "info"@[0]);
    assert("trace"@[0] != "warn"@[0]);
    assert("trace"@[0] != "error"@[0]);
    assert("debug"@[0] != "info"@[0]);
    assert("debug"@[0] != "warn"@[0]);
    assert("debug"@[0] != "error"@[0]);
    assert("info"@[0] != "warn"@[0]);
    assert("info"@[0] != "error"@[0]);
    assert("warn"@[0] != "error"@[0]);
}

impl LogLevel {
    /// The lowercase name of the level.
    pub fn to_string(&self) -> (r: String)
        ensures
            r@ == level_name(*self),
    {
        match self {
            LogLevel::Trace => String::from_str("trace"),
            LogLevel::Debug => String::from_str("debug"),
            LogLevel::Info => String::from_str("info"),
            LogLevel::Warn => String::from_str("warn"),
            LogLevel::Error => String::from_str("error"),
        }
    }

    /// The level named by an already lowercased string.
    pub fn from_lowercase(s: &str) -> (r: Option<LogLevel>)
        ensures
            r == level_from_name(s@),
    {
        if str_eq(s, "trace") {
            Some(LogLevel::Trace)
        } else if str_eq(s, "debug") {
            Some(LogLevel::Debug)
        } else if str_eq(s, "info") {
            Some(LogLevel::Info)
        } else if str_eq(s, "warn") {
            Some(LogLevel::Warn)
        } else if str_eq(s, "error") {
            Some(LogLevel::Error)
        } else {
            None
        }
    }

    /// Parses a level, ignoring case.
    pub fn from_str(s: &str) -> (r: Result<LogLevel, YuhaError>)
        ensures
            match level_from_name(lowercase(s@)) {
                Some(l) => r == Ok::<LogLevel, YuhaError>(l),
                None => r matches Err(YuhaError::Config(ConfigError::ValidationFailed { reason }))
                    && reason@ == "Invalid log level: "@ + s@,
            },
            is_ascii_text(s@) ==> lowercase(s@) == ascii_lowered(s@),
    {
        let lower = to_lowercase(s);
        match Self::from_lowercase(lower.as_str()) {
            Some(l) => Ok(l),
            None => {
                let m = concat2("Invalid log level: ", s);
                Err(YuhaError::config(m.as_str()))
            },
        }
    }
}

/// Log output formats.
#[derive(Debug, Clone, Copy, PartialEq, Eq, Structural)]
pub enum LogFormat {
    /// One compact line per event.
    Compact,
    /// Several lines per event, for development.
    Pretty,
    /// Every available detail.
    Full,
    /// JSON, for structured logging.
    Json,
}

/// The format that a lowercase name stands for.
pub open spec fn format_from_name(n: Seq<char>) -> Option<LogFormat> {
    if n == "compact"@ {
        Some(LogFormat::Compact)
    } else if n == "pretty"@ {
        Some(LogFormat::Pretty)
    } else if n == "full"@ {
        Some(LogFormat::Full)
    } else if n == "json"@ {
        Some(LogFormat::Json)
    } else {
        None
    }
}

impl LogFormat {
    /// The format named by an already lowercased string.
    pub fn from_lowercase(s: &str) -> (r: Option<LogFormat>)
        ensures
            r == format_from_name(s@),
    {
        if str_eq(s, "compact") {
            Some(LogFormat::Compact)
        } else if str_eq(s, "pretty") {
            Some(LogFormat::Pretty)
        } else if str_eq(s, "full") {
            Some(LogFormat::Full)
        } else if str_eq(s, "json") {
            Some(LogFormat::Json)
        } else {
            None
        }
    }
}

/// Where log lines go.
#[derive(Debug, Clone, PartialEq, Eq)]
pub enum LogOutput {
    /// Standard output.
    Stdout,
    /// Standard error.
    Stderr,
    /// A file.
    File {
        /// The file's path.
        path: String,
        /// Whether to append to an existing file.
        append: bool,
    },
    /// Rotating files in a directory.
    RotatingFile {
        /// The directory.
        directory: String,
        /// The base file name, without extension.
        filename: String,
    },
    /// The system log.
    Syslog {
        /// The syslog facility.
        facility: String,
        /// The syslog identifier.
        ident: String,
    },
}

/// Logging configuration.
#[derive(Debug, Clone)]
pub struct LoggingConfig {
    /// The global level.
    pub level: LogLevel,
    /// Levels of single modules.
    pub module_levels: KeyedList<String, LogLevel>,
    /// The output format.
    pub format: LogFormat,
    /// The outputs.
    pub outputs: Vec<LogOutput>,
    /// Whether lines carry timestamps.
    pub include_timestamps: bool,
    /// Whether lines carry their source location.
    pub include_location: bool,
    /// Whether lines carry thread information.
    pub include_thread_info: bool,
    /// Whether span events are logged.
    pub include_spans: bool,
    /// Whether ANSI colors are used.
    pub enable_colors: bool,
    /// The largest log file in bytes.
    pub max_file_size: u64,
    /// How many rotated files are kept.
    pub max_files: u32,
    /// Whether JSON structured logging is used.
    pub structured: bool,
}

/// The default logging configuration: info level, compact format, standard output, timestamps,
/// spans and colors on, 10 MiB files, 5 of them kept.
pub open spec fn is_default_logging(c: LoggingConfig) -> bool {
    &&& c.level == LogLevel::Info
    &&& c.module_levels@ == Map::<Seq<char>, LogLevel>::empty()
    &&& c.format == LogFormat::Compact
    &&& c.outputs@ == seq![LogOutput::Stdout]
    &&& c.include_timestamps
    &&& !c.include_location
    &&& !c.include_thread_info
    &&& c.include_spans
    &&& c.enable_colors
    &&& c.max_file_size == 10 * 1024 * 1024
    &&& c.max_files == 5
    &&& !c.structured
}

impl Default for LoggingConfig {
    fn default() -> (r: Self)
        ensures
            is_default_logging(r),
    {
        let mut outputs = Vec::new();
        outputs.push(LogOutput::Stdout);
        proof {
            assert(outputs@ =~= seq![LogOutput::Stdout]);
        }
        LoggingConfig {
            level: LogLevel::Info,
            module_levels: KeyedList::new(),
            format: LogFormat::Compact,
            outputs,
            include_timestamps: true,
            include_location: false,
            include_thread_info: false,
            include_spans: true,
            enable_colors: true,
            max_file_size: 10 * 1024 * 1024,
            max_files: 5,
            structured: false,
        }
    }
}

/// Builds a logging configuration.
#[derive(Debug)]
pub struct LoggerBuilder {
    /// The configuration built so far.
    pub config: LoggingConfig,
}

impl LoggerBuilder {
    /// A builder starting from the default configuration.
    pub fn new() -> (r: Self)
        ensures
            is_default_logging(r.config),
    {
        LoggerBuilder { config: LoggingConfig::default() }
    }

    /// A builder starting from a configuration.
    pub fn from_config(config: LoggingConfig) -> (r: Self)
        ensures
            r.config == config,
    {
        LoggerBuilder { config }
    }

    /// Sets the global level.
    pub fn level(self, level: LogLevel) -> (r: Self)
        ensures
            r.config == (LoggingConfig { level, ..self.config }),
    {
        let mut b = self;
        b.config.level = level;
        b
    }

    /// Sets the level of a module.
    pub fn module_level(self, module: &str, level: LogLevel) -> (r: Self)
        ensures
            r.config.module_levels@ == self.config.module_levels@.insert(module@, level),
            r.config == (LoggingConfig { module_levels: r.config.module_levels, ..self.config }),
    {
        let mut b = self;
        b.config.module_levels.insert(String::from_str(module), level);
        b
    }

    /// Sets the format.
    pub fn format(self, format: LogFormat) -> (r: Self)
        ensures
            r.config == (LoggingConfig { format, ..self.config }),
    {
        let mut b = self;
        b.config.format = format;
        b
    }

    /// Adds an output.
    pub fn output(self, output: LogOutput) -> (r: Self)
        ensures
            r.config.outputs@ == self.config.outputs@.push(output),
            r.config == (LoggingConfig { outputs: r.config.outputs, ..self.config }),
    {
        let mut b = self;
        b.config.outputs.push(output);
        b
    }

    /// Turns timestamps on or off.
    pub fn timestamps(self, enable: bool) -> (r: Self)
        ensures
            r.config == (LoggingConfig { include_timestamps: enable, ..self.config }),
    {
        let mut b = self;
        b.config.include_timestamps = enable;
        b
    }

    /// Turns source locations on or off.
    pub fn location(self, enable: bool) -> (r: Self)
        ensures
            r.config == (LoggingConfig { include_location: enable, ..self.config }),
    {
        let mut b = self;
        b.config.include_location = enable;
        b
    }

    /// Turns thread information on or off.
    pub fn thread_info(self, enable: bool) -> (r: Self)
        ensures
            r.config == (LoggingConfig { include_thread_info: enable, ..self.config }),
    {
        let mut b = self;
        b.config.include_thread_info = enable;
        b
    }

    /// Turns span events on or off.
    pub fn spans(self, enable: bool) -> (r: Self)
        ensures
            r.config == (LoggingConfig { include_spans: enable, ..self.config }),
    {
        let mut b = self;
        b.config.include_spans = enable;
        b
    }

    /// Turns colors on or off.
    pub fn colors(self, enable: bool) -> (r: Self)
        ensures
            r.config == (LoggingConfig { enable_colors: enable, ..self.config }),
    {
        let mut b = self;
        b.config.enable_colors = enable;
        b
    }

    /// Turns structured JSON logging on or off.
    pub fn structured(self, enable: bool) -> (r: Self)
        ensures
            r.config == (LoggingConfig { structured: enable, ..self.config }),
    {
        let mut b = self;
        b.config.structured = enable;
        b
    }
}

impl Default for LoggerBuilder {
    fn default() -> (r: Self)
        ensures
            is_default_logging(r.config),
    {
        Self::new()
    }
}

/// The filter directive of a module at a level: `module=level`.
pub open spec fn directive(module: Seq<char>, level: LogLevel) -> Seq<char> {
    module + "="@ + level_name(level)
}

/// The filter directives of a configuration: `yuha=<level>`, then one for each module level in
/// the order in which the module levels were first set.
pub fn logging_directives(config: &LoggingConfig) -> (r: Vec<String>)
    ensures
        r@.len() == config.module_levels.key_seq().len() + 1,
        r@[0]@ == directive("yuha"@, config.level),
        forall|i: int|
            0 <= i < config.module_levels.key_seq().len() ==> #[trigger] r@[i + 1]@ == directive(
                config.module_levels.key_seq()[i],
                config.module_levels.value_seq()[i],
            ),
{
    let mut out: Vec<String> = Vec::new();
    let lvl = config.level.to_string();
    let mut first = String::from_str("yuha=");
    first.append(lvl.as_str());
    proof {
        reveal_strlit("yuha=");
        reveal_strlit("yuha");
        reveal_strlit("=");
        assert("yuha="@ =~= "yuha"@ + "="@);
    }
    out.push(first);
    let n = config.module_levels.len();
    let mut i: usize = 0;
    while i < n
        invariant
            n == config.module_levels.key_seq().len(),
            i <= n,
            out@.len() == i + 1,
            out@[0]@ == directive("yuha"@, config.level),
            forall|j: int|
                0 <= j < i ==> #[trigger] out@[j + 1]@ == directive(
                    config.module_levels.key_seq()[j],
                    config.module_levels.value_seq()[j],
                ),
        decreases n - i,
    {
        let mut d = String::from_str(config.module_levels.key_at(i).as_str());
        d.append("=");
        let l = config.module_levels.value_at(i).to_string();
        d.append(l.as_str());
        out.push(d);
        i = i + 1;
    }
    out
}

/// A builder from the values of `YUHA_LOG_LEVEL`, `YUHA_LOG_FORMAT`, `YUHA_LOG_FILE` and whether
/// `NO_COLOR` is set: an invalid level or format is refused; a log file is appended to, and
/// standard output is used when there is none.
pub fn builder_from_env(
    level: Option<&str>,
    format: Option<&str>,
    file: Option<&str>,
    no_color: bool,
) -> (r: Result<LoggerBuilder, YuhaError>)
    ensures
        (level matches Some(l) && level_from_name(lowercase(l@)) is None) ==> (r matches Err(
            YuhaError::Config(ConfigError::ValidationFailed { reason }),
        ) && reason@ == "Invalid log level: "@ + level->0@),
        !(level matches Some(l) && level_from_name(lowercase(l@)) is None) && (format matches Some(f)
            && format_from_name(lowercase(f@)) is None) ==> (r matches Err(
            YuhaError::Config(ConfigError::ValidationFailed { reason }),
        ) && reason@ == "Invalid log format: "@ + format->0@),
        r matches Ok(b) ==> {
            &&& b.config.level == (match level {
                Some(l) => level_from_name(lowercase(l@))->0,
                None => LogLevel::Info,
            })
            &&& b.config.format == (match format {
                Some(f) => format_from_name(lowercase(f@))->0,
                None => LogFormat::Compact,
            })
            &&& b.config.outputs@.len() == 2
            &&& b.config.outputs@[0] == LogOutput::Stdout
            &&& (match file {
                Some(p) => b.config.outputs@[1] matches LogOutput::File { path, append } && path@
                    == p@ && append,
                None => b.config.outputs@[1] == LogOutput::Stdout,
            })
            &&& b.config.enable_colors == !no_color
        },
        r is Ok <==> (match level {
            Some(l) => level_from_name(lowercase(l@)) is Some,
            None => true,
        }) && (match format {
            Some(f) => format_from_name(lowercase(f@)) is Some,
            None => true,
        }),
{
    let mut builder = LoggerBuilder::new();
    match level {
        Some(l) => {
            let parsed = LogLevel::from_str(l);
            match parsed {
                Ok(lv) => {
                    builder = builder.level(lv);
                },
                Err(e) => {
                    return Err(e);
                },
            }
        },
        None => {},
    }
    match format {
        Some(f) => {
            let lower = to_lowercase(f);
            match LogFormat::from_lowercase(lower.as_str()) {
                Some(fm) => {
                    builder = builder.format(fm);
                },
                None => {
                    let m = concat2("Invalid log format: ", f);
                    return Err(YuhaError::config(m.as_str()));
                },
            }
        },
        None => {},
    }
    match file {
        Some(p) => {
            builder = builder.output(LogOutput::File { path: String::from_str(p), append: true });
        },
        None => {
            builder = builder.output(LogOutput::Stdout);
        },
    }
    if no_color {
        builder = builder.colors(false);
    }
    Ok(builder)
}

/// The development configuration: debug level, pretty format, standard output, timestamps,
/// locations, spans and colors.
pub fn dev_logging_builder() -> (r: LoggerBuilder)
    ensures
        r.config.level == LogLevel::Debug,
        r.config.format == LogFormat::Pretty,
        r.config.outputs@ == seq![LogOutput::Stdout, LogOutput::Stdout],
        r.config.include_timestamps,
        r.config.include_location,
        !r.config.include_thread_info,
        r.config.include_spans,
        r.config.enable_colors,
        !r.config.structured,
        r.config.module_levels@ == Map::<Seq<char>, LogLevel>::empty(),
        r.config.max_file_size == 10 * 1024 * 1024,
        r.config.max_files == 5,
{
    LoggerBuilder::new().level(LogLevel::Debug).format(LogFormat::Pretty).output(
        LogOutput::Stdout,
    ).timestamps(true).location(true).thread_info(false).spans(true).colors(true)
}

/// The production configuration: info level, structured JSON with thread information and no
/// colors, to rotating files named `yuha` in the directory when one is given, to standard
/// output otherwise.
pub fn prod_logging_builder(log_dir: Option<&str>) -> (r: LoggerBuilder)
    ensures
        r.config.level == LogLevel::Info,
        r.config.format == LogFormat::Json,
        r.config.outputs@.len() == 2,
        r.config.outputs@[0] == LogOutput::Stdout,
        match log_dir {
            Some(d) => r.config.outputs@[1] matches LogOutput::RotatingFile { directory, filename }
                && directory@ == d@ && filename@ == "yuha"@,
            None => r.config.outputs@[1] == LogOutput::Stdout,
        },
        r.config.include_timestamps,
        !r.config.include_location,
        r.config.include_thread_info,
        !r.config.include_spans,
        !r.config.enable_colors,
        r.config.structured,
        r.config.module_levels@ == Map::<Seq<char>, LogLevel>::empty(),
        r.config.max_file_size == 10 * 1024 * 1024,
        r.config.max_files == 5,
{
    let builder = LoggerBuilder::new().level(LogLevel::Info).format(LogFormat::Json).timestamps(
        true,
    ).location(false).thread_info(true).spans(false).colors(false).structured(true);
    match log_dir {
        Some(dir) => builder.output(
            LogOutput::RotatingFile {
                directory: String::from_str(dir),
                filename: String::from_str("yuha"),
            },
        ),
        None => builder.output(LogOutput::Stdout),
    }
}

/// Severity of a security event.
#[derive(Debug, Clone, Copy, PartialEq, Eq, Structural)]
pub enum SecuritySeverity {
    Low,
    Medium,
    High,
    Critical,
}

} // verus!

