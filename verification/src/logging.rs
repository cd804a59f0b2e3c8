//! The text of log lines: a prefix that is kept apart from the message by
//! a space, the message, and a line end.
use vstd::prelude::*;

use crate::text::{chars_of, string_from_chars};

verus! {

/// The prefix written before each message: a non-empty prefix gets a
/// trailing space unless it already ends with one.
pub open spec fn log_prefix_spec(prefix: Seq<char>) -> Seq<char> {
    if prefix.len() > 0 && prefix.last() != ' ' {
        prefix.push(' ')
    } else {
        prefix
    }
}

/// Returns the prefix written before each message.
pub fn log_prefix(prefix: &str) -> (r: String)
    ensures
        r@ == log_prefix_spec(prefix@),
{
    let mut chars = chars_of(prefix);
    let n = chars.len();
    if n > 0 && chars[n - 1] != ' ' {
        chars.push(' ');
    }
    string_from_chars(&chars)
}

/// Returns the line written for a message: the formatted prefix, the
/// message and a line end.
pub fn log_line(prefix: &str, msg: &str) -> (r: String)
    ensures
        r@ == prefix@ + msg@ + seq!['\n'],
{
    let mut chars = chars_of(prefix);
    let mut m = chars_of(msg);
    chars.append(&mut m);
    chars.push('\n');
    string_from_chars(&chars)
}

} // verus!
