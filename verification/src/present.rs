//! Putting a reply together. A thread is first rendered on its own, into a
//! link and a normalized excerpt; the replies are then assembled from
//! rendered threads, in one of three shapes.
//!
//! Text that the library itself adds between the pieces (`": "`, `" | "`, the
//! rank line) is escaped like any other text, so a reply is well formed in
//! its dialect whatever the dialect's control characters are.

use vstd::prelude::*;
use crate::dialect::{spec_bold, spec_escape, spec_italic, spec_link, Dialect};
use crate::normalize::{normalize, spec_normalize, BUDGET};
use crate::site::Window;
use crate::text::{decimal, spec_decimal};
use crate::thread::{ThreadExcerpt, ThreadSummary};

verus! {

/// One thread, ready to be put into a reply.
#[derive(Debug, PartialEq, Eq)]
pub struct RenderedThread {
    rank: Option<usize>,
    title_link_markup: String,
    excerpt_markup: String,
}

/// A `RenderedThread` as contracts see it.
pub struct RenderedView {
    pub rank: Option<usize>,
    pub title_link_markup: Seq<char>,
    pub excerpt_markup: Seq<char>,
}

impl View for RenderedThread {
    type V = RenderedView;

    closed spec fn view(&self) -> RenderedView {
        RenderedView {
            rank: self.rank,
            title_link_markup: self.title_link_markup@,
            excerpt_markup: self.excerpt_markup@,
        }
    }
}

impl DeepView for RenderedThread {
    type V = RenderedView;

    open spec fn deep_view(&self) -> RenderedView {
        self@
    }
}

/// The rendered form of a thread with this address, title and excerpt.
pub open spec fn spec_rendered(
    d: Dialect,
    rank: Option<usize>,
    url: Seq<char>,
    title: Seq<char>,
    excerpt: Seq<char>,
) -> RenderedView {
    RenderedView {
        rank,
        title_link_markup: spec_link(d, url, title),
        excerpt_markup: spec_normalize(d, excerpt),
    }
}

/// The heading of a window's single best thread.
pub open spec fn spec_window_label(window: Window) -> Seq<char> {
    match window {
        Window::Day => "Thread of the day"@,
        Window::Week => "Thread of the week"@,
        Window::Month => "Thread of the month"@,
        Window::AllTime => "Top thread of all time"@,
    }
}

/// A thread's link, an empty line, and its excerpt in italics.
pub open spec fn spec_body(d: Dialect, thread: RenderedView) -> Seq<char> {
    thread.title_link_markup + "\n\n"@ + spec_italic(d, thread.excerpt_markup)
}

/// The reply that shows one thread under a label.
pub open spec fn spec_single(d: Dialect, label: Seq<char>, thread: RenderedView) -> Seq<char> {
    spec_escape(d, label) + spec_escape(d, ": "@) + spec_body(d, thread)
}

/// The line that announces a thread's rank; nothing for a thread without one.
pub open spec fn spec_rank_line(d: Dialect, rank: Option<usize>) -> Seq<char> {
    match rank {
        Some(k) => spec_escape(d, "Rank "@ + spec_decimal(k as nat) + " thread:"@) + "\n"@,
        None => Seq::empty(),
    }
}

/// One block of a ranked reply.
pub open spec fn spec_ranked_block(d: Dialect, thread: RenderedView) -> Seq<char> {
    spec_rank_line(d, thread.rank) + spec_body(d, thread) + "\n\n"@
}

/// The reply that shows several threads: their blocks, in the order given.
pub open spec fn spec_ranked(d: Dialect, threads: Seq<RenderedView>) -> Seq<char>
    decreases threads.len(),
{
    if threads.len() == 0 {
        Seq::empty()
    } else {
        spec_ranked(d, threads.drop_last()) + spec_ranked_block(d, threads.last())
    }
}

/// The reply to a ranked request, from the threads rendered for it: under
/// the window's label where there is one thread, else in ranked blocks.
pub open spec fn spec_window_reply(d: Dialect, window: Window, threads: Seq<RenderedView>) -> Seq<
    char,
> {
    if threads.len() == 1 {
        spec_single(d, spec_window_label(window), threads[0])
    } else {
        spec_ranked(d, threads)
    }
}

/// The reply that shows one thread of a rubric, under the rubric's section
/// in bold and its name.
pub open spec fn spec_rubric_reply(
    d: Dialect,
    section: Seq<char>,
    name: Seq<char>,
    thread: RenderedView,
) -> Seq<char> {
    spec_bold(d, spec_escape(d, section)) + spec_escape(d, " | "@) + spec_escape(d, name) + "\n"@
        + spec_body(d, thread)
}

impl RenderedThread {
    #[verifier::type_invariant]
    spec fn excerpt_fits(self) -> bool {
        self.excerpt_markup@.len() <= BUDGET + 1
    }

    /// Renders a thread from its address, its title and the text of its
    /// opening post. Title and address go into a link; the text is
    /// normalized.
    pub fn new(rank: Option<usize>, url: &str, title: &str, excerpt: &str, dialect: Dialect) -> (thread:
        RenderedThread)
        ensures
            thread@ == spec_rendered(dialect, rank, url@, title@, excerpt@),
            thread@.excerpt_markup.len() <= BUDGET + 1,
    {
        RenderedThread {
            rank,
            title_link_markup: dialect.link(url, title),
            excerpt_markup: normalize(excerpt, dialect),
        }
    }

    /// Renders a thread of a listing from its summary and its excerpt.
    pub fn of_summary(
        rank: Option<usize>,
        summary: &ThreadSummary,
        excerpt: &ThreadExcerpt,
        dialect: Dialect,
    ) -> (thread: RenderedThread)
        ensures
            thread@ == spec_rendered(dialect, rank, summary@.link, summary@.title, excerpt@),
            thread@.excerpt_markup.len() <= BUDGET + 1,
    {
        RenderedThread::new(
            rank,
            summary.link.as_str(),
            summary.title.as_str(),
            excerpt.text.as_str(),
            dialect,
        )
    }

    /// The thread's place in its listing, counted from one, if it has one.
    pub fn rank(&self) -> (rank: Option<usize>)
        ensures
            rank == self@.rank,
    {
        self.rank
    }

    /// The link that shows the thread's title.
    pub fn title_link_markup(&self) -> (markup: &str)
        ensures
            markup@ == self@.title_link_markup,
    {
        self.title_link_markup.as_str()
    }

    /// The thread's excerpt: never more than `BUDGET` scalar values and the
    /// ellipsis.
    pub fn excerpt_markup(&self) -> (markup: &str)
        ensures
            markup@ == self@.excerpt_markup,
            markup@.len() <= BUDGET + 1,
    {
        proof {
            use_type_invariant(self);
        }
        self.excerpt_markup.as_str()
    }

    fn push_body(&self, out: &mut String, dialect: Dialect)
        ensures
            final(out)@ == old(out)@ + spec_body(dialect, self@),
    {
        out.append(self.title_link_markup.as_str());
        out.append("\n\n");
        let excerpt = dialect.italic(self.excerpt_markup.as_str());
        out.append(excerpt.as_str());
    }

    fn push_ranked_block(&self, out: &mut String, dialect: Dialect)
        ensures
            final(out)@ == old(out)@ + spec_ranked_block(dialect, self@),
    {
        match self.rank {
            Some(k) => {
                let mut line = String::from_str("Rank ");
                let number = decimal(k);
                line.append(number.as_str());
                line.append(" thread:");
                let escaped = dialect.escape(line.as_str());
                out.append(escaped.as_str());
                out.append("\n");
            },
            None => {},
        }
        self.push_body(out, dialect);
        out.append("\n\n");
    }
}

/// The heading of a window's single best thread.
pub fn window_label(window: Window) -> (label: &'static str)
    ensures
        label@ == spec_window_label(window),
{
    match window {
        Window::Day => "Thread of the day",
        Window::Week => "Thread of the week",
        Window::Month => "Thread of the month",
        Window::AllTime => "Top thread of all time",
    }
}

/// Assembles the reply that shows one thread under a label: the label, a
/// colon, the thread's link, an empty line, the excerpt in italics.
pub fn render_single(label: &str, thread: &RenderedThread, dialect: Dialect) -> (body: String)
    ensures
        body@ == spec_single(dialect, label@, thread@),
{
    let mut body = dialect.escape(label);
    let colon = dialect.escape(": ");
    body.append(colon.as_str());
    thread.push_body(&mut body, dialect);
    body
}

/// Assembles the reply that shows several threads: for each, in the order
/// given, its rank line, its link, an empty line, its excerpt in italics and
/// an empty line.
pub fn render_ranked(threads: &Vec<RenderedThread>, dialect: Dialect) -> (body: String)
    ensures
        body@ == spec_ranked(dialect, threads.deep_view()),
{
    let mut body = String::new();
    let mut i: usize = 0;
    let ghost all = threads.deep_view();
    while i < threads.len()
        invariant
            i <= threads.len(),
            all == threads.deep_view(),
            body@ == spec_ranked(dialect, all.take(i as int)),
        decreases threads.len() - i,
    {
        threads[i].push_ranked_block(&mut body, dialect);
        i += 1;
        assert(all.take(i as int).drop_last() == all.take(i - 1));
    }
    assert(all.take(threads.len() as int) == all);
    body
}

/// Assembles the reply to a ranked request: one thread is shown under the
/// window's label, several are shown in ranked blocks.
pub fn render_window(threads: &Vec<RenderedThread>, window: Window, dialect: Dialect) -> (body:
    String)
    ensures
        body@ == spec_window_reply(dialect, window, threads.deep_view()),
{
    if threads.len() == 1 {
        render_single(window_label(window), &threads[0], dialect)
    } else {
        render_ranked(threads, dialect)
    }
}

/// Assembles the reply that shows one thread of a rubric: the rubric's
/// section in bold, a bar, the rubric's name, then on the next line the
/// thread's link, an empty line, the excerpt in italics.
pub fn render_rubric(section: &str, name: &str, thread: &RenderedThread, dialect: Dialect) -> (body:
    String)
    ensures
        body@ == spec_rubric_reply(dialect, section@, name@, thread@),
{
    let escaped_section = dialect.escape(section);
    let mut body = dialect.bold(escaped_section.as_str());
    let bar = dialect.escape(" | ");
    body.append(bar.as_str());
    let escaped_name = dialect.escape(name);
    body.append(escaped_name.as_str());
    body.append("\n");
    thread.push_body(&mut body, dialect);
    body
}

} // verus!
