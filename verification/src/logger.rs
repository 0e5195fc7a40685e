//! A logger for the `log` crate that writes coloured lines to standard
//! output.
use std::io::Write;
use vstd::prelude::*;

verus! {

/// `log::Level`, with its five levels.
#[verifier::external_type_specification]
pub struct ExLevel(log::Level);

/// `log::LevelFilter`: the five levels, and `Off`.
#[verifier::external_type_specification]
pub struct ExLevelFilter(log::LevelFilter);

/// `colored::Color`, with its colours.
#[verifier::external_type_specification]
pub struct ExColor(colored::Color);

/// `log::Metadata`, of which only the level is read.
#[verifier::external_type_specification]
#[verifier::external_body]
pub struct ExMetadata<'a>(log::Metadata<'a>);

/// `log::Record`, of which the level and the message are read.
#[verifier::external_type_specification]
#[verifier::external_body]
pub struct ExRecord<'a>(log::Record<'a>);

/// The logger: it has no state of its own.
#[derive(Debug, Clone, Copy)]
pub struct Logger;

/// How far down the levels a level stands: errors first, traces last.
pub open spec fn spec_rank(level: log::Level) -> int {
    match level {
        log::Level::Error => 1,
        log::Level::Warn => 2,
        log::Level::Info => 3,
        log::Level::Debug => 4,
        log::Level::Trace => 5,
    }
}

/// The rank of the last level that a filter lets through; 0 for none.
pub open spec fn spec_filter_rank(filter: log::LevelFilter) -> int {
    match filter {
        log::LevelFilter::Off => 0,
        log::LevelFilter::Error => 1,
        log::LevelFilter::Warn => 2,
        log::LevelFilter::Info => 3,
        log::LevelFilter::Debug => 4,
        log::LevelFilter::Trace => 5,
    }
}

/// The name of a level in capitals, with blanks before it up to five
/// characters.
pub open spec fn spec_level_name(level: log::Level) -> Seq<char> {
    match level {
        log::Level::Error => "ERROR"@,
        log::Level::Warn => " WARN"@,
        log::Level::Info => " INFO"@,
        log::Level::Debug => "DEBUG"@,
        log::Level::Trace => "TRACE"@,
    }
}

/// The colour in which a level is shown.
pub open spec fn spec_level_tint(level: log::Level) -> colored::Color {
    match level {
        log::Level::Error => colored::Color::Red,
        log::Level::Warn => colored::Color::Yellow,
        log::Level::Info => colored::Color::Green,
        log::Level::Debug => colored::Color::Blue,
        log::Level::Trace => colored::Color::Magenta,
    }
}

/// A line of the log: the level between square brackets, a colon, a
/// blank, and the message.
pub open spec fn spec_line(tag: Seq<char>, message: Seq<char>) -> Seq<char> {
    seq!['['] + tag + seq![']', ':', ' '] + message
}

/// The characters that end a text in colour: escape, `[`, `0`, `m`.
pub open spec fn spec_reset() -> Seq<char> {
    seq!['\x1b', '[', '0', 'm']
}

/// Whether `shown` shows `text`: it is the text alone, or the text
/// between an escape sequence for its style and the one that ends it.
pub open spec fn spec_shows(shown: Seq<char>, text: Seq<char>) -> bool {
    ||| shown == text
    ||| {
        &&& shown.len() > text.len() + 4
        &&& shown[0] == '\x1b'
        &&& shown.subrange(shown.len() - 4 - text.len(), shown.len() - 4) == text
        &&& shown.subrange(shown.len() - 4, shown.len() as int) == spec_reset()
    }
}

/// Whether a text holds no escape character.
pub open spec fn spec_plain(text: Seq<char>) -> bool {
    forall|i: int| 0 <= i < text.len() ==> text[i] != '\x1b'
}

/// `Colorize::color`, `Colorize::bold` and `to_string`: the text in bold
/// and in the colour, where standard output takes colours, else the text
/// alone. Which of the two depends on the environment. A text with an
/// escape character in it may come back changed.
#[verifier::external_body]
fn paint(text: &str, tint: colored::Color) -> (r: String)
    ensures
        spec_plain(text@) ==> spec_shows(r@, text@),
{
    colored::Colorize::bold(colored::Colorize::color(text, tint)).to_string()
}

/// `writeln!` to standard output, which is then flushed. A line that
/// cannot be written is lost.
#[verifier::external_body]
fn print_line(line: &str) {
    let mut out = std::io::stdout().lock();
    let _ = writeln!(out, "{}", line);
    let _ = out.flush();
}

/// `log::set_logger` with this module's logger. Where a logger is set
/// already, it stays.
#[verifier::external_body]
fn set_logger() {
    let _ = log::set_logger(&Logger);
}

impl Logger {
    /// The name of a level in capitals, with blanks before it up to five
    /// characters.
    pub fn level_name(level: &log::Level) -> (r: &'static str)
        ensures
            r@ == spec_level_name(*level),
    {
        match level {
            log::Level::Error => "ERROR",
            log::Level::Warn => " WARN",
            log::Level::Info => " INFO",
            log::Level::Debug => "DEBUG",
            log::Level::Trace => "TRACE",
        }
    }

    /// The colour in which a level is shown.
    pub fn level_tint(level: &log::Level) -> (r: colored::Color)
        ensures
            r == spec_level_tint(*level),
    {
        match level {
            log::Level::Error => colored::Color::Red,
            log::Level::Warn => colored::Color::Yellow,
            log::Level::Info => colored::Color::Green,
            log::Level::Debug => colored::Color::Blue,
            log::Level::Trace => colored::Color::Magenta,
        }
    }

    /// The name of a level as it is shown: in bold and in the level's
    /// colour where standard output takes colours.
    pub fn level_color(level: &log::Level) -> (r: String)
        ensures
            spec_shows(r@, spec_level_name(*level)),
    {
        proof {
            reveal_strlit("ERROR");
            reveal_strlit(" WARN");
            reveal_strlit(" INFO");
            reveal_strlit("DEBUG");
            reveal_strlit("TRACE");
        }
        paint(Logger::level_name(level), Logger::level_tint(level))
    }

    /// Whether a filter lets a level through.
    pub fn is_enabled(level: log::Level, max_level: log::LevelFilter) -> (r: bool)
        ensures
            r == (spec_rank(level) <= spec_filter_rank(max_level)),
    {
        let rank: u8 = match level {
            log::Level::Error => 1,
            log::Level::Warn => 2,
            log::Level::Info => 3,
            log::Level::Debug => 4,
            log::Level::Trace => 5,
        };
        let limit: u8 = match max_level {
            log::LevelFilter::Off => 0,
            log::LevelFilter::Error => 1,
            log::LevelFilter::Warn => 2,
            log::LevelFilter::Info => 3,
            log::LevelFilter::Debug => 4,
            log::LevelFilter::Trace => 5,
        };
        rank <= limit
    }

    /// A line of the log for a level as it is shown and a message.
    pub fn line(tag: &str, message: &str) -> (r: String)
        ensures
            r@ == spec_line(tag@, message@),
    {
        proof {
            reveal_strlit("[");
            reveal_strlit("]: ");
        }
        let mut out = String::from_str("[");
        out.append(tag);
        out.append("]: ");
        out.append(message);
        out
    }

    /// Writes a message to standard output if the filter lets its level
    /// through.
    pub fn emit(level: log::Level, max_level: log::LevelFilter, message: &str) {
        if Logger::is_enabled(level, max_level) {
            let tag = Logger::level_color(&level);
            let line = Logger::line(tag.as_str(), message);
            print_line(line.as_str());
        }
    }
}

/// `Metadata::level`: the level that is asked about.
#[verifier::external_body]
fn metadata_level(metadata: &log::Metadata) -> log::Level {
    metadata.level()
}

/// `Record::level`: the level of a record.
#[verifier::external_body]
fn record_level(record: &log::Record) -> log::Level {
    record.level()
}

/// `Record::args`, written out: the message of a record.
#[verifier::external_body]
fn record_message(record: &log::Record) -> String {
    record.args().to_string()
}

/// `log::max_level`: the filter that is set for all loggers.
#[verifier::external_body]
fn max_level() -> log::LevelFilter {
    log::max_level()
}

/// What the `log` crate calls: each method hands the level, the filter
/// that is set and the message on to the functions above.
impl log::Log for Logger {
    /// Whether the filter that is set lets the level of `metadata` through.
    fn enabled(&self, metadata: &log::Metadata) -> bool {
        Logger::is_enabled(metadata_level(metadata), max_level())
    }

    /// Writes the record if the filter that is set lets its level through.
    fn log(&self, record: &log::Record) {
        let message = record_message(record);
        Logger::emit(record_level(record), max_level(), message.as_str())
    }

    /// Nothing is held back, so there is nothing to flush.
    fn flush(&self) {
    }
}

/// Makes this module's logger the logger of the `log` crate, unless one
/// is set already.
pub fn logger_init() {
    set_logger();
}

} // verus!
