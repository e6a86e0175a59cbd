//! The lines that the logger writes to a text output device.
//!
//! Each message becomes one line: the level right-aligned in five columns,
//! the source file right-aligned in twelve, the line number with at least
//! three digits, then the message:
//! `[ INFO]:    src/main.rs@042: Hello`. A line is formatted in a buffer of
//! 4096 bytes; a longer one does not fit.
use crate::data_types::text::{
    append, append_decimal, append_padded, chars_of, decimal, pad_left, string_of,
};
use arrayvec::ArrayString;
use vstd::prelude::*;
use vstd::string::StringSliceAdditionalSpecFns;
use vstd::utf8::encode_utf8;

verus! {

/// The level of a log message, from the most to the least severe.
#[derive(Debug, Clone, Copy, PartialEq, Eq, Structural)]
pub enum Level {
    /// A serious failure.
    Error,
    /// A hazardous situation.
    Warn,
    /// Useful information.
    Info,
    /// Lower priority information.
    Debug,
    /// Very low priority, often extremely verbose, information.
    Trace,
}

/// The name of a level, as it is printed.
pub open spec fn level_name(level: Level) -> Seq<char> {
    match level {
        Level::Error => seq!['E', 'R', 'R', 'O', 'R'],
        Level::Warn => seq!['W', 'A', 'R', 'N'],
        Level::Info => seq!['I', 'N', 'F', 'O'],
        Level::Debug => seq!['D', 'E', 'B', 'U', 'G'],
        Level::Trace => seq!['T', 'R', 'A', 'C', 'E'],
    }
}

/// The name printed for a message whose source file is not known.
pub open spec fn unknown_file() -> Seq<char> {
    seq!['<', 'u', 'n', 'k', 'n', 'o', 'w', 'n', '>']
}

/// The line written for a message: level, file and line number of its
/// source (`<unknown>` and 0 where they are not known), and its text,
/// ended by a line feed.
pub open spec fn log_line_text(
    level: Level,
    file: Option<Seq<char>>,
    line: Option<u32>,
    message: Seq<char>,
) -> Seq<char> {
    let file = match file {
        Some(f) => f,
        None => unknown_file(),
    };
    let line = match line {
        Some(l) => l as nat,
        None => 0,
    };
    seq!['['] + pad_left(level_name(level), 5, ' ') + seq![']', ':', ' '] + pad_left(file, 12, ' ')
        + seq!['@'] + pad_left(decimal(line), 3, '0') + seq![':', ' '] + message + seq!['\n']
}

#[verifier::external_type_specification]
#[verifier::external_body]
pub struct ExArrayString<const CAP: usize>(ArrayString<CAP>);

/// The text that a line buffer of 4096 bytes holds.
pub uninterp spec fn line_buffer_text(buffer: ArrayString<4096>) -> Seq<char>;

/// `ArrayString::new`: an empty buffer of 4096 bytes.
#[verifier::external_body]
fn new_line_buffer() -> (buffer: ArrayString<4096>)
    ensures
        line_buffer_text(buffer) == Seq::<char>::empty(),
{
    ArrayString::<4096>::new()
}

/// `ArrayString::try_push_str`: appends `s` to the buffer if its bytes fit
/// in the room left, and otherwise leaves the buffer as it was; the result
/// tells which.
#[verifier::external_body]
fn push_to_line_buffer(buffer: &mut ArrayString<4096>, s: &str) -> (pushed: bool)
    ensures
        pushed <==> encode_utf8(line_buffer_text(*old(buffer))).len() + s.spec_bytes().len() <= 4096,
        line_buffer_text(*final(buffer)) == (if pushed {
            line_buffer_text(*old(buffer)) + s@
        } else {
            line_buffer_text(*old(buffer))
        }),
{
    match buffer.try_push_str(s) {
        Ok(()) => true,
        Err(_) => false,
    }
}

/// `ArrayString::as_str`, copied into a `String`.
#[verifier::external_body]
fn line_buffer_string(buffer: &ArrayString<4096>) -> (s: String)
    ensures
        s@ == line_buffer_text(*buffer),
{
    String::from(buffer.as_str())
}

/// The characters of the name of a level.
fn level_chars(level: Level) -> (r: Vec<char>)
    ensures
        r@ == level_name(level),
{
    let r = match level {
        Level::Error => vec!['E', 'R', 'R', 'O', 'R'],
        Level::Warn => vec!['W', 'A', 'R', 'N'],
        Level::Info => vec!['I', 'N', 'F', 'O'],
        Level::Debug => vec!['D', 'E', 'B', 'U', 'G'],
        Level::Trace => vec!['T', 'R', 'A', 'C', 'E'],
    };
    proof {
        assert(r@ =~= level_name(level));
    }
    r
}

/// Formats the line that the logger writes for a message, if it fits in
/// the buffer of 4096 bytes; `None` if it does not.
pub fn log_line(level: Level, file: Option<&str>, line: Option<u32>, message: &str) -> (r: Option<
    String,
>)
    ensures
        ({
            let text = log_line_text(
                level,
                match file {
                    Some(f) => Some(f@),
                    None => None,
                },
                line,
                message@,
            );
            &&& r is Some <==> encode_utf8(text).len() <= 4096
            &&& r matches Some(s) ==> s@ == text
        }),
{
    let ghost file_view: Option<Seq<char>> = match file {
        Some(f) => Some(f@),
        None => None,
    };
    let mut out: Vec<char> = Vec::new();
    out.push('[');
    append_padded(&mut out, &level_chars(level), 5, ' ');
    out.push(']');
    out.push(':');
    out.push(' ');
    let file_chars = match file {
        Some(f) => chars_of(f),
        None => vec!['<', 'u', 'n', 'k', 'n', 'o', 'w', 'n', '>'],
    };
    proof {
        assert(file_chars@ =~= match file_view {
            Some(f) => f,
            None => unknown_file(),
        });
    }
    append_padded(&mut out, &file_chars, 12, ' ');
    out.push('@');
    let mut digits: Vec<char> = Vec::new();
    let number: u32 = match line {
        Some(l) => l,
        None => 0,
    };
    append_decimal(&mut digits, number as u64);
    proof {
        assert(digits@ =~= decimal(number as nat));
    }
    append_padded(&mut out, &digits, 3, '0');
    out.push(':');
    out.push(' ');
    append(&mut out, &chars_of(message));
    out.push('\n');
    proof {
        assert(out@ =~= log_line_text(level, file_view, line, message@));
    }
    let text = string_of(&out);
    let mut buffer = new_line_buffer();
    proof {
        assert(Seq::<char>::empty() + text@ =~= text@);
    }
    if push_to_line_buffer(&mut buffer, text.as_str()) {
        Some(line_buffer_string(&buffer))
    } else {
        None
    }
}

} // verus!
