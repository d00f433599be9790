//! From what a chat sent to what is asked of the library: which command it
//! was, and which count came with it.
//!
//! The count is the second field of the message: the message is trimmed of
//! white space at both ends and split at every single space, so two spaces
//! in a row enclose an empty field, which is no number.

use vstd::prelude::*;
use crate::select::{parse_count, spec_count, SelectionRequest};
use crate::site::Window;
use crate::text::{chars_of, push_range};

verus! {

/// The commands that a chat can send.
#[derive(Clone, Copy, Debug, PartialEq, Eq, Structural)]
pub enum Command {
    RankedToday,
    RankedThisWeek,
    RankedThisMonth,
    RankedAllTime,
    RandomRubric,
    Subscribe,
}

/// What a command asks for.
#[derive(Clone, Copy, Debug, PartialEq, Eq)]
pub enum Intent {
    /// A reply made of threads of the forum.
    Select(SelectionRequest),
    /// A place among the destinations of the scheduled reply.
    Subscribe,
}

/// Whether `c` is white space as Unicode defines it (the property
/// `White_Space`).
pub open spec fn is_white_space(c: char) -> bool {
    ||| c == ' '
    ||| ('\u{9}' <= c && c <= '\u{d}')
    ||| c == '\u{85}'
    ||| c == '\u{a0}'
    ||| c == '\u{1680}'
    ||| ('\u{2000}' <= c && c <= '\u{200a}')
    ||| c == '\u{2028}'
    ||| c == '\u{2029}'
    ||| c == '\u{202f}'
    ||| c == '\u{205f}'
    ||| c == '\u{3000}'
}

/// `s` without the white space at its start.
pub open spec fn spec_trim_start(s: Seq<char>) -> Seq<char>
    decreases s.len(),
{
    if s.len() > 0 && is_white_space(s[0]) {
        spec_trim_start(s.drop_first())
    } else {
        s
    }
}

/// `s` without the white space at its end.
pub open spec fn spec_trim_end(s: Seq<char>) -> Seq<char>
    decreases s.len(),
{
    if s.len() > 0 && is_white_space(s.last()) {
        spec_trim_end(s.drop_last())
    } else {
        s
    }
}

/// `s` without the white space at its start and at its end.
pub open spec fn spec_trim(s: Seq<char>) -> Seq<char> {
    spec_trim_end(spec_trim_start(s))
}

/// How many characters stand before the first space of `s`.
pub open spec fn spec_field_len(s: Seq<char>) -> nat
    decreases s.len(),
{
    if s.len() > 0 && s[0] != ' ' {
        1 + spec_field_len(s.drop_first())
    } else {
        0
    }
}

/// The second of the fields that single spaces split `s` into; `None` where
/// `s` holds no space.
pub open spec fn spec_second_field(s: Seq<char>) -> Option<Seq<char>> {
    let first = spec_field_len(s) as int;
    if first >= s.len() {
        None
    } else {
        let rest = s.skip(first + 1);
        Some(rest.take(spec_field_len(rest) as int))
    }
}

/// The argument of a message: the second field of the trimmed message.
pub open spec fn spec_argument(message: Seq<char>) -> Option<Seq<char>> {
    spec_second_field(spec_trim(message))
}

/// What a command asks for, given the argument that came with it, if any.
/// Only the ranked commands read the argument.
pub open spec fn spec_intent(command: Command, argument: Option<Seq<char>>) -> Intent {
    match command {
        Command::RankedToday => Intent::Select(
            SelectionRequest::RankedTopN { window: Window::Day, n: spec_count(argument) as usize },
        ),
        Command::RankedThisWeek => Intent::Select(
            SelectionRequest::RankedTopN { window: Window::Week, n: spec_count(argument) as usize },
        ),
        Command::RankedThisMonth => Intent::Select(
            SelectionRequest::RankedTopN { window: Window::Month, n: spec_count(argument) as usize },
        ),
        Command::RankedAllTime => Intent::Select(
            SelectionRequest::RankedTopN {
                window: Window::AllTime,
                n: spec_count(argument) as usize,
            },
        ),
        Command::RandomRubric => Intent::Select(SelectionRequest::RandomFromRubric),
        Command::Subscribe => Intent::Subscribe,
    }
}

/// Decides `is_white_space`.
pub fn is_white_space_char(c: char) -> (b: bool)
    ensures
        b == is_white_space(c),
{
    c == ' ' || ('\u{9}' <= c && c <= '\u{d}') || c == '\u{85}' || c == '\u{a0}' || c == '\u{1680}'
        || ('\u{2000}' <= c && c <= '\u{200a}') || c == '\u{2028}' || c == '\u{2029}' || c
        == '\u{202f}' || c == '\u{205f}' || c == '\u{3000}'
}

/// The end of the field of `chars[..end]` that begins at `from`: the position
/// of the first space at or after `from`, or `end`.
fn field_end(chars: &Vec<char>, from: usize, end: usize) -> (stop: usize)
    requires
        from <= end <= chars.len(),
    ensures
        from <= stop <= end,
        stop - from == spec_field_len(chars@.subrange(from as int, end as int)),
{
    let ghost field = chars@.subrange(from as int, end as int);
    let mut stop: usize = from;
    assert(field.skip(0) == field);
    while stop < end && chars[stop] != ' '
        invariant
            from <= stop <= end <= chars.len(),
            field == chars@.subrange(from as int, end as int),
            spec_field_len(field) == (stop - from) + spec_field_len(field.skip(stop - from)),
        decreases end - stop,
    {
        assert(field.skip(stop - from).drop_first() == field.skip(stop - from + 1));
        stop += 1;
    }
    stop
}

/// Takes the argument out of a message: the second field of the trimmed
/// message, if it has one.
pub fn argument_of(message: &str) -> (argument: Option<String>)
    ensures
        crate::thread::text_view(argument) == spec_argument(message@),
{
    let chars = chars_of(message);
    let ghost s = chars@;
    let mut start: usize = 0;
    assert(s.skip(0) == s);
    while start < chars.len() && is_white_space_char(chars[start])
        invariant
            start <= chars.len(),
            s == chars@,
            spec_trim_start(s) == spec_trim_start(s.skip(start as int)),
        decreases chars.len() - start,
    {
        assert(s.skip(start as int).drop_first() == s.skip(start + 1));
        start += 1;
    }
    let ghost tail = s.skip(start as int);
    let mut end: usize = chars.len();
    assert(tail.take(tail.len() as int) == tail);
    while end > start && is_white_space_char(chars[end - 1])
        invariant
            start <= end <= chars.len(),
            s == chars@,
            tail == s.skip(start as int),
            spec_trim_end(tail) == spec_trim_end(tail.take(end - start)),
        decreases end - start,
    {
        assert(tail.take(end - start).drop_last() == tail.take(end - start - 1));
        end -= 1;
    }
    let ghost trimmed = tail.take(end - start);
    assert(trimmed == chars@.subrange(start as int, end as int));
    let first_end: usize = field_end(&chars, start, end);
    if first_end >= end {
        None
    } else {
        let second_start: usize = first_end + 1;
        let second_end: usize = field_end(&chars, second_start, end);
        let mut argument = String::new();
        push_range(&mut argument, &chars, second_start, second_end);
        assert(trimmed.skip(first_end - start + 1) == chars@.subrange(
            second_start as int,
            end as int,
        ));
        Some(argument)
    }
}

/// Says what a command asks for, given the argument that came with it.
pub fn interpret(command: Command, argument: Option<&str>) -> (intent: Intent)
    ensures
        intent == spec_intent(
            command,
            match argument {
                Some(text) => Some(text@),
                None => None,
            },
        ),
{
    match command {
        Command::RankedToday => Intent::Select(
            SelectionRequest::RankedTopN { window: Window::Day, n: parse_count(argument) },
        ),
        Command::RankedThisWeek => Intent::Select(
            SelectionRequest::RankedTopN { window: Window::Week, n: parse_count(argument) },
        ),
        Command::RankedThisMonth => Intent::Select(
            SelectionRequest::RankedTopN { window: Window::Month, n: parse_count(argument) },
        ),
        Command::RankedAllTime => Intent::Select(
            SelectionRequest::RankedTopN { window: Window::AllTime, n: parse_count(argument) },
        ),
        Command::RandomRubric => Intent::Select(SelectionRequest::RandomFromRubric),
        Command::Subscribe => Intent::Subscribe,
    }
}

/// Says what a command asks for, given the whole message that carried it.
pub fn interpret_message(command: Command, message: &str) -> (intent: Intent)
    ensures
        intent == spec_intent(command, spec_argument(message@)),
{
    match argument_of(message) {
        Some(argument) => interpret(command, Some(argument.as_str())),
        None => interpret(command, None),
    }
}

} // verus!
