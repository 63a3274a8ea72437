//! The layout of the lines on the remote log stream.
//!
//! Every line on its way to the stream carries one more character behind
//! its line end, which tells where it came from: `R` for the firmware's
//! own records, `C` for what the platform's C libraries print. The
//! character is taken off before the line is sent.

use vstd::prelude::*;
use vstd::string::*;
use crate::text::{decimal, decimal_text};

verus! {

/// How grave a record is.
#[derive(Debug, Clone, Copy, PartialEq, Eq, Structural)]
pub enum LogLevel {
    Error,
    Warn,
    Info,
    Debug,
    Trace,
}

/// The letter that stands for a level at the start of a line.
pub open spec fn marker_of(level: LogLevel) -> Seq<char> {
    match level {
        LogLevel::Error => "E"@,
        LogLevel::Warn => "W"@,
        LogLevel::Info => "I"@,
        LogLevel::Debug => "D"@,
        LogLevel::Trace => "V"@,
    }
}

/// The terminal colour of a level, where colours are wanted: red for
/// errors, brown for warnings, green for information, none below that.
pub open spec fn color_of(level: LogLevel, colors: bool) -> Option<u8> {
    if !colors {
        None
    } else {
        match level {
            LogLevel::Error => Some(31u8),
            LogLevel::Warn => Some(33u8),
            LogLevel::Info => Some(32u8),
            _ => None,
        }
    }
}

/// The line of one of the firmware's own records: the level's letter, the
/// time in parentheses, the target, a colon and the message. With a colour
/// the line is wrapped into the escape sequences that switch it on and off.
/// It ends with a line end and the `R` that tells its origin.
pub open spec fn record_line(
    level: LogLevel,
    colors: bool,
    time: Seq<char>,
    target: Seq<char>,
    message: Seq<char>,
) -> Seq<char> {
    let body = marker_of(level) + " ("@ + time + ") "@ + target + ": "@ + message;
    match color_of(level, colors) {
        Some(color) => "\x1b[0;"@ + decimal_text(color as nat) + "m"@ + body + "\x1b[0m"@ + "\n"@
            + "R"@,
        None => body + "\n"@ + "R"@,
    }
}

/// The letter that stands for a level at the start of a line.
pub fn get_marker(level: LogLevel) -> (letter: &'static str)
    ensures
        letter@ == marker_of(level),
{
    match level {
        LogLevel::Error => "E",
        LogLevel::Warn => "W",
        LogLevel::Info => "I",
        LogLevel::Debug => "D",
        LogLevel::Trace => "V",
    }
}

/// The terminal colour of a level, if colours are wanted and it has one.
pub fn get_color(level: LogLevel, colors: bool) -> (color: Option<u8>)
    ensures
        color == color_of(level, colors),
{
    if !colors {
        return None;
    }
    match level {
        LogLevel::Error => Some(31),
        LogLevel::Warn => Some(33),
        LogLevel::Info => Some(32),
        _ => None,
    }
}

/// Lays out one of the firmware's own records as a line for the stream.
pub fn render_record(
    level: LogLevel,
    colors: bool,
    time: &str,
    target: &str,
    message: &str,
) -> (line: String)
    ensures
        line@ == record_line(level, colors, time@, target@, message@),
{
    let color = get_color(level, colors);
    let mut line = String::new();
    match color {
        Some(code) => {
            let digits = decimal(code as u64);
            line.append("\x1b[0;");
            line.append(digits.as_str());
            line.append("m");
        },
        None => {},
    }
    line.append(get_marker(level));
    line.append(" (");
    line.append(time);
    line.append(") ");
    line.append(target);
    line.append(": ");
    line.append(message);
    match color {
        Some(_) => {
            line.append("\x1b[0m");
        },
        None => {},
    }
    line.append("\n");
    line.append("R");
    assert(line@ =~= record_line(level, colors, time@, target@, message@));
    line
}

/// Takes the last character off a line and tells whether it was the `R` of
/// the firmware's own records. An empty line stays empty and is not one.
pub fn strip_origin(line: &str) -> (r: (&str, bool))
    ensures
        line@.len() == 0 ==> r.0@ == line@ && !r.1,
        line@.len() > 0 ==> r.0@ == line@.drop_last() && r.1 == (line@.last() == 'R'),
{
    let len = line.unicode_len();
    if len == 0 {
        (line, false)
    } else {
        let last = line.get_char(len - 1);
        (line.substring_char(0, len - 1), last == 'R')
    }
}

} // verus!
