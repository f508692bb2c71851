//! The kernel logger: the level filter chosen at build time from the `LOG`
//! variable, and the coloured line printed for each record.
//!
//! The logger prints every record it is handed; the `log` crate drops the
//! records above the maximum level before they reach it. Levels from the
//! most to the least severe: Error, Warn, Info, Debug, Trace.

use vstd::prelude::*;

use crate::text::{append_decimal, append_padded, decimal, pad_right, str_eq};

verus! {

/// The severity of a log record.
#[derive(Clone, Copy, Debug, PartialEq, Eq, Structural)]
pub enum LogLevel {
    Error,
    Warn,
    Info,
    Debug,
    Trace,
}

/// The most verbose level that is let through; `Off` lets nothing through.
#[derive(Clone, Copy, Debug, PartialEq, Eq, Structural)]
pub enum LogLevelFilter {
    Off,
    Error,
    Warn,
    Info,
    Debug,
    Trace,
}

/// The position of a level, from 1 (Error) to 5 (Trace), as `log` numbers it.
pub open spec fn level_rank(level: LogLevel) -> nat {
    match level {
        LogLevel::Error => 1,
        LogLevel::Warn => 2,
        LogLevel::Info => 3,
        LogLevel::Debug => 4,
        LogLevel::Trace => 5,
    }
}

/// The position of a filter, from 0 (Off) to 5 (Trace), as `log` numbers it.
pub open spec fn filter_rank(filter: LogLevelFilter) -> nat {
    match filter {
        LogLevelFilter::Off => 0,
        LogLevelFilter::Error => 1,
        LogLevelFilter::Warn => 2,
        LogLevelFilter::Info => 3,
        LogLevelFilter::Debug => 4,
        LogLevelFilter::Trace => 5,
    }
}

/// Whether a record of `level` gets through the maximum level `filter`: the
/// `log` crate lets it through when the level compares `<=` the filter,
/// that is, when its position is not above the filter's.
pub open spec fn passes(filter: LogLevelFilter, level: LogLevel) -> bool {
    level_rank(level) <= filter_rank(filter)
}

/// The name `log` gives a level.
pub open spec fn level_name_spec(level: LogLevel) -> Seq<char> {
    match level {
        LogLevel::Error => "ERROR"@,
        LogLevel::Warn => "WARN"@,
        LogLevel::Info => "INFO"@,
        LogLevel::Debug => "DEBUG"@,
        LogLevel::Trace => "TRACE"@,
    }
}

/// The ANSI colour code of a level's lines.
pub open spec fn level_color_spec(level: LogLevel) -> u8 {
    match level {
        LogLevel::Error => 31,
        LogLevel::Warn => 93,
        LogLevel::Info => 34,
        LogLevel::Debug => 32,
        LogLevel::Trace => 90,
    }
}

/// The filter that the value of the `LOG` variable selects: one of the five
/// upper-case level names selects that level; anything else, or no value,
/// turns logging off.
pub open spec fn level_filter_for(log_var: Option<&str>) -> LogLevelFilter {
    match log_var {
        Some(v) => if v@ == "ERROR"@ {
            LogLevelFilter::Error
        } else if v@ == "WARN"@ {
            LogLevelFilter::Warn
        } else if v@ == "INFO"@ {
            LogLevelFilter::Info
        } else if v@ == "DEBUG"@ {
            LogLevelFilter::Debug
        } else if v@ == "TRACE"@ {
            LogLevelFilter::Trace
        } else {
            LogLevelFilter::Off
        },
        None => LogLevelFilter::Off,
    }
}

/// What a record's console line holds before its message: the colour
/// escape, then the level name left-aligned in five columns between
/// brackets (`[WARN ]`) and a space.
pub open spec fn log_prefix_spec(level: LogLevel) -> Seq<char> {
    "\u{1B}["@ + decimal(level_color_spec(level) as nat) + "m["@ + pad_right(level_name_spec(level), 5)
        + "] "@
}

/// The console line of a record: the prefix of its level, the message,
/// the reset escape and a newline.
pub open spec fn log_line_spec(level: LogLevel, message: Seq<char>) -> Seq<char> {
    log_prefix_spec(level) + message + "\u{1B}[0m\n"@
}

/// The ANSI colour code of a level: red for errors, bright yellow for
/// warnings, blue for information, green for debugging, grey for tracing.
pub fn level_color(level: LogLevel) -> (color: u8)
    ensures
        color == level_color_spec(level),
{
    match level {
        LogLevel::Error => 31,
        LogLevel::Warn => 93,
        LogLevel::Info => 34,
        LogLevel::Debug => 32,
        LogLevel::Trace => 90,
    }
}

/// The level's name from `log::Level::as_str`, which reads it from the
/// crate's table `["OFF", "ERROR", "WARN", "INFO", "DEBUG", "TRACE"]` at the
/// level's position.
#[verifier::external_body]
fn level_name(level: LogLevel) -> (name: &'static str)
    ensures
        name@ == level_name_spec(level),
{
    let level = match level {
        LogLevel::Error => log::Level::Error,
        LogLevel::Warn => log::Level::Warn,
        LogLevel::Info => log::Level::Info,
        LogLevel::Debug => log::Level::Debug,
        LogLevel::Trace => log::Level::Trace,
    };
    level.as_str()
}

/// A handle on the `log` crate's global maximum level: the model of that
/// level is what the last `set_max_level` through this handle stored. The
/// model follows `log` as long as the level is set through the handle only.
pub struct MaxLevel {
    level: Ghost<LogLevelFilter>,
}

impl MaxLevel {
    /// The maximum level that the `log` crate holds.
    pub closed spec fn level(&self) -> LogLevelFilter {
        self.level@
    }

    /// A handle on the maximum level; `log` starts out with `Off`.
    pub fn new() -> (max: Self)
        ensures
            max.level() == LogLevelFilter::Off,
    {
        MaxLevel { level: Ghost(LogLevelFilter::Off) }
    }
}

/// Hands `filter` to `log::set_max_level`, which stores it as the `log`
/// crate's global maximum level (a plain atomic store that cannot fail).
#[verifier::external_body]
fn set_max_level(max: &mut MaxLevel, filter: LogLevelFilter)
    ensures
        final(max).level() == filter,
{
    let level = match filter {
        LogLevelFilter::Off => log::LevelFilter::Off,
        LogLevelFilter::Error => log::LevelFilter::Error,
        LogLevelFilter::Warn => log::LevelFilter::Warn,
        LogLevelFilter::Info => log::LevelFilter::Info,
        LogLevelFilter::Debug => log::LevelFilter::Debug,
        LogLevelFilter::Trace => log::LevelFilter::Trace,
    };
    log::set_max_level(level);
}

/// Sets the `log` crate's maximum level from the build-time value of `LOG`.
/// The logger itself must have been registered before.
pub fn init(max: &mut MaxLevel, log_var: Option<&str>)
    ensures
        final(max).level() == level_filter_for(log_var),
        log_var is None ==> final(max).level() == LogLevelFilter::Off,
{
    let filter = match log_var {
        Some(v) => if str_eq(v, "ERROR") {
            LogLevelFilter::Error
        } else if str_eq(v, "WARN") {
            LogLevelFilter::Warn
        } else if str_eq(v, "INFO") {
            LogLevelFilter::Info
        } else if str_eq(v, "DEBUG") {
            LogLevelFilter::Debug
        } else if str_eq(v, "TRACE") {
            LogLevelFilter::Trace
        } else {
            LogLevelFilter::Off
        },
        None => LogLevelFilter::Off,
    };
    set_max_level(max, filter);
}

/// The logger; it holds no state.
pub struct SimpleLogger;

impl SimpleLogger {
    /// Every level is enabled: the filtering is the `log` crate's.
    pub fn enabled(&self, level: LogLevel) -> (on: bool)
        ensures
            on,
    {
        true
    }

    /// The console line for a record of `level` with the formatted
    /// `message`, or `None` where the record's level is not enabled.
    pub fn log(&self, level: LogLevel, message: &str) -> (line: Option<String>)
        ensures
            line matches Some(text) && text@ == log_line_spec(level, message@),
            line matches Some(text) && text@ == log_prefix_spec(level) + message@
                + "\u{1B}[0m\n"@,
    {
        if !self.enabled(level) {
            return None;
        }
        let mut text = String::new();
        text.append("\u{1B}[");
        append_decimal(&mut text, level_color(level) as u32);
        text.append("m[");
        append_padded(&mut text, level_name(level), 5);
        text.append("] ");
        text.append(message);
        text.append("\u{1B}[0m\n");
        assert(text@ =~= log_line_spec(level, message@));
        Some(text)
    }
}

/// The line of a record is its level's prefix, the whole message and the
/// reset: the message stands uncut right after a prefix that depends on
/// the level alone, and the line ends with the five characters
/// `ESC [ 0 m \n`.
pub proof fn lemma_log_line_carries_message(level: LogLevel, message: Seq<char>)
    ensures
        log_line_spec(level, message) == log_prefix_spec(level) + message + "\u{1B}[0m\n"@,
        log_line_spec(level, message).len() == log_prefix_spec(level).len() + message.len() + 5,
        log_line_spec(level, message).subrange(
            log_prefix_spec(level).len() as int,
            (log_prefix_spec(level).len() + message.len()) as int,
        ) == message,
        log_line_spec(level, message).subrange(
            (log_prefix_spec(level).len() + message.len()) as int,
            log_line_spec(level, message).len() as int,
        ) == seq!['\u{1B}', '[', '0', 'm', '\n'],
{
    reveal_strlit("\u{1B}[0m\n");
    let p = log_prefix_spec(level);
    let line = log_line_spec(level, message);
    assert(line.subrange(p.len() as int, (p.len() + message.len()) as int) =~= message);
    assert(line.subrange((p.len() + message.len()) as int, line.len() as int) =~= seq![
        '\u{1B}',
        '[',
        '0',
        'm',
        '\n',
    ]);
}

/// The prefix of each level: its ANSI colour (red 31, bright yellow 93,
/// blue 34, green 32, grey 90) and its name in five columns.
pub proof fn lemma_log_prefixes()
    ensures
        log_prefix_spec(LogLevel::Error) == "\u{1B}[31m[ERROR] "@,
        log_prefix_spec(LogLevel::Warn) == "\u{1B}[93m[WARN ] "@,
        log_prefix_spec(LogLevel::Info) == "\u{1B}[34m[INFO ] "@,
        log_prefix_spec(LogLevel::Debug) == "\u{1B}[32m[DEBUG] "@,
        log_prefix_spec(LogLevel::Trace) == "\u{1B}[90m[TRACE] "@,
{
    reveal_strlit("\u{1B}[");
    reveal_strlit("m[");
    reveal_strlit("] ");
    reveal_strlit("ERROR");
    reveal_strlit("WARN");
    reveal_strlit("INFO");
    reveal_strlit("DEBUG");
    reveal_strlit("TRACE");
    reveal_strlit("\u{1B}[31m[ERROR] ");
    reveal_strlit("\u{1B}[93m[WARN ] ");
    reveal_strlit("\u{1B}[34m[INFO ] ");
    reveal_strlit("\u{1B}[32m[DEBUG] ");
    reveal_strlit("\u{1B}[90m[TRACE] ");
    reveal_with_fuel(decimal, 3);
    assert(log_prefix_spec(LogLevel::Error) =~= "\u{1B}[31m[ERROR] "@);
    assert(log_prefix_spec(LogLevel::Warn) =~= "\u{1B}[93m[WARN ] "@);
    assert(log_prefix_spec(LogLevel::Info) =~= "\u{1B}[34m[INFO ] "@);
    assert(log_prefix_spec(LogLevel::Debug) =~= "\u{1B}[32m[DEBUG] "@);
    assert(log_prefix_spec(LogLevel::Trace) =~= "\u{1B}[90m[TRACE] "@);
}

/// Setting `LOG` to the name of a level lets through the records of that
/// level and of every more severe level, and no others: `init` sets the
/// maximum level to `level_filter_for(log_var)`.
pub proof fn lemma_log_var_selects_levels(log_var: &str, threshold: LogLevel, level: LogLevel)
    requires
        log_var@ == level_name_spec(threshold),
    ensures
        passes(level_filter_for(Some(log_var)), level) <==> level_rank(level) <= level_rank(
            threshold,
        ),
{
    reveal_strlit("ERROR");
    reveal_strlit("WARN");
    reveal_strlit("INFO");
    reveal_strlit("DEBUG");
    reveal_strlit("TRACE");
    let v = log_var@;
    match threshold {
        LogLevel::Error => {},
        LogLevel::Warn => {
            assert(v[0] != "ERROR"@[0]);
        },
        LogLevel::Info => {
            assert(v[0] != "ERROR"@[0]);
            assert(v[0] != "WARN"@[0]);
        },
        LogLevel::Debug => {
            assert(v[0] != "ERROR"@[0]);
            assert(v[0] != "WARN"@[0]);
            assert(v[0] != "INFO"@[0]);
        },
        LogLevel::Trace => {
            assert(v[0] != "ERROR"@[0]);
            assert(v[0] != "WARN"@[0]);
            assert(v[0] != "INFO"@[0]);
            assert(v[0] != "DEBUG"@[0]);
        },
    }
}

/// With `LOG` unset, or set to anything but an upper-case level name, no
/// record gets through.
pub proof fn lemma_other_log_var_is_off(log_var: Option<&str>, level: LogLevel)
    requires
        forall|m: LogLevel| #[trigger] level_name_spec(m) != log_var->Some_0@ || log_var is None,
    ensures
        level_filter_for(log_var) == LogLevelFilter::Off,
        !passes(level_filter_for(log_var), level),
{
    if let Some(v) = log_var {
        assert(level_name_spec(LogLevel::Error) != v@);
        assert(level_name_spec(LogLevel::Warn) != v@);
        assert(level_name_spec(LogLevel::Info) != v@);
        assert(level_name_spec(LogLevel::Debug) != v@);
        assert(level_name_spec(LogLevel::Trace) != v@);
    }
}

} // verus!
