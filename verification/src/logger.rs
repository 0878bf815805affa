//! The lines of the error log.

use crate::text::chars_of;
use vstd::prelude::*;
use vstd::string::StringExecFns;

verus! {

/// The name of the file that the errors are written to.
pub const ERROR_LOG_FILENAME: &'static str = "errors.log";

/// The pattern by which the instant of an error is written.
pub const TIMESTAMP_FORMAT: &'static str = "%Y-%m-%d %H:%M:%S";

/// `s` on one line: every line break is a blank.
pub open spec fn flattened(s: Seq<char>) -> Seq<char> {
    Seq::new(s.len(), |i: int| if s[i] == '\r' || s[i] == '\n' { ' ' } else { s[i] })
}

/// What is written for one character of a message: a line break is written
/// as a backslash and its letter, any other character as itself.
pub open spec fn escaped_char(c: char) -> Seq<char> {
    if c == '\r' {
        seq!['\\', 'r']
    } else if c == '\n' {
        seq!['\\', 'n']
    } else {
        seq![c]
    }
}

/// `s` on one line, with its line breaks still to be told.
pub open spec fn escaped(s: Seq<char>) -> Seq<char>
    decreases s.len(),
{
    if s.len() == 0 {
        Seq::empty()
    } else {
        escaped(s.drop_last()) + escaped_char(s.last())
    }
}

/// The line of the log for an error, without the line break that ends it.
pub open spec fn error_line_spec(
    timestamp: Seq<char>,
    context: Seq<char>,
    message: Seq<char>,
) -> Seq<char> {
    timestamp + " [error] "@ + flattened(context) + ": "@ + escaped(message)
}

/// The line of the log for the error `message` that came up in `context`
/// at the instant written as `timestamp`.
pub fn error_line(timestamp: &str, context: &str, message: &str) -> (line: String)
    ensures
        line@ == error_line_spec(timestamp@, context@, message@),
{
    let mut line = timestamp.to_owned();
    line.append(" [error] ");
    let ghost head = line@;
    let c = chars_of(context);
    let mut i: usize = 0;
    while i < c.len()
        invariant
            i <= c.len(),
            c@ == context@,
            line@ == head + flattened(context@).take(i as int),
        decreases c.len() - i,
    {
        let ch = c[i];
        if ch == '\r' || ch == '\n' {
            line.push(' ');
        } else {
            line.push(ch);
        }
        i = i + 1;
    }
    line.append(": ");
    let ghost head = line@;
    let m = chars_of(message);
    let mut j: usize = 0;
    while j < m.len()
        invariant
            j <= m.len(),
            m@ == message@,
            line@ == head + escaped(message@.take(j as int)),
        decreases m.len() - j,
    {
        let ch = m[j];
        proof {
            let next = message@.take(j + 1);
            assert(next.drop_last() == message@.take(j as int));
        }
        if ch == '\r' {
            line.push('\\');
            line.push('r');
        } else if ch == '\n' {
            line.push('\\');
            line.push('n');
        } else {
            line.push(ch);
        }
        j = j + 1;
    }
    assert(message@.take(m.len() as int) == message@);
    line
}

} // verus!
