//! What a request asks for, and how the threads that answer it are chosen:
//! the first few of a ranked listing, or one member of a rubric picked at
//! random. All randomness of the library enters here.

use vstd::prelude::*;
use crate::site::Window;
use crate::text::{parse_usize, spec_parse_usize};
use crate::thread::ThreadSummary;

verus! {

/// A ranked reply shows at least this many threads.
pub const MIN_COUNT: usize = 1;

/// A ranked reply shows at most this many threads.
pub const MAX_COUNT: usize = 5;

/// What a chat asks of the forum.
#[derive(Clone, Copy, Debug, PartialEq, Eq)]
pub enum SelectionRequest {
    /// The `n` best threads of a window's listing.
    RankedTopN { window: Window, n: usize },
    /// One thread picked at random from a rubric picked at random.
    RandomFromRubric,
}

/// `n` brought into the range from `MIN_COUNT` to `MAX_COUNT`.
pub open spec fn spec_clamp(n: int) -> int {
    if n < MIN_COUNT {
        MIN_COUNT as int
    } else if n > MAX_COUNT {
        MAX_COUNT as int
    } else {
        n
    }
}

/// The count that a command carries: the number written in its argument,
/// brought into range; one where there is no argument or the argument is not
/// a number that a `usize` holds.
pub open spec fn spec_count(argument: Option<Seq<char>>) -> int {
    match argument {
        Some(text) => match spec_parse_usize(text) {
            Some(n) => spec_clamp(n as int),
            None => MIN_COUNT as int,
        },
        None => MIN_COUNT as int,
    }
}

/// The smaller of two numbers.
pub open spec fn spec_min(a: int, b: int) -> int {
    if a <= b {
        a
    } else {
        b
    }
}

/// The first `n` entries of a listing, or all of it where it has fewer.
pub open spec fn spec_top<T>(listing: Seq<T>, n: int) -> Seq<T> {
    listing.take(spec_min(n, listing.len() as int))
}

/// The position that a draw picks among `count` candidates, for `count` above
/// zero: the draw modulo the count.
pub open spec fn spec_pick(draw: int, count: int) -> int {
    draw % count
}

/// Brings a count into the range from `MIN_COUNT` to `MAX_COUNT`.
pub fn clamp_count(n: usize) -> (count: usize)
    ensures
        count == spec_clamp(n as int),
        MIN_COUNT <= count <= MAX_COUNT,
{
    if n < MIN_COUNT {
        MIN_COUNT
    } else if n > MAX_COUNT {
        MAX_COUNT
    } else {
        n
    }
}

/// Reads the count of a command from its argument, if it has one. A number
/// out of range is brought into range; anything that is no number counts as
/// one.
pub fn parse_count(argument: Option<&str>) -> (count: usize)
    ensures
        count == spec_count(
            match argument {
                Some(text) => Some(text@),
                None => None,
            },
        ),
        MIN_COUNT <= count <= MAX_COUNT,
{
    match argument {
        Some(text) => match parse_usize(text) {
            Some(n) => clamp_count(n),
            None => MIN_COUNT,
        },
        None => MIN_COUNT,
    }
}

impl SelectionRequest {
    /// A request for the `n` best threads of a window, `n` brought into range.
    pub fn ranked(window: Window, n: usize) -> (request: SelectionRequest)
        ensures
            request == (SelectionRequest::RankedTopN { window, n: spec_clamp(n as int) as usize }),
    {
        SelectionRequest::RankedTopN { window, n: clamp_count(n) }
    }

    /// The request that a scheduled broadcast answers: the best thread of the
    /// day.
    pub fn daily() -> (request: SelectionRequest)
        ensures
            request == (SelectionRequest::RankedTopN { window: Window::Day, n: 1 }),
    {
        SelectionRequest::RankedTopN { window: Window::Day, n: 1 }
    }
}

/// Keeps the first `n` threads of a listing, in their order; a listing with
/// fewer than `n` threads is kept whole.
pub fn take_top(listing: Vec<ThreadSummary>, n: usize) -> (top: Vec<ThreadSummary>)
    ensures
        top.deep_view() == spec_top(listing.deep_view(), n as int),
        top@ == spec_top(listing@, n as int),
{
    let mut top = listing;
    if n < top.len() {
        top.truncate(n);
    }
    top
}

/// Picks a position among `count` candidates from a draw. Without candidates
/// there is nothing to pick, and no remainder is formed.
pub fn pick_index(draw: usize, count: usize) -> (picked: Option<usize>)
    ensures
        count == 0 <==> picked is None,
        picked matches Some(i) ==> i == spec_pick(draw as int, count as int) && i < count,
{
    if count == 0 {
        None
    } else {
        Some(draw % count)
    }
}

/// Calls `rand::random::<usize>()`, which draws from the generator of the
/// current thread. Nothing is claimed of the number drawn.
#[verifier::external_body]
pub(crate) fn draw() -> usize {
    rand::random::<usize>()
}

} // verus!
