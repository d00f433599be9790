//! One request, from the first page that has to be fetched to the reply.
//!
//! The library fetches nothing. A `Session` says which page it needs next;
//! the caller fetches it and hands the outcome to `advance`, which reads the
//! page and decides: another page, the finished reply, or the reason why
//! there is none.
//!
//! Reading and deciding are apart. `read` takes from a page the records that
//! the session waits for, its `Findings`; `decide` goes from the session and
//! the findings to the next step, and `spec_decide` is the whole table of
//! those decisions. `advance` is the two in a row.

use vstd::prelude::*;
use crate::dialect::Dialect;
use crate::markup::{
    extract_excerpt,
    extract_listing,
    extract_rubric_links,
    extract_rubric_members,
    fits_parser,
    parsed_document,
    spec_excerpt,
    spec_listing,
    spec_rubric_links,
    spec_rubric_members,
    Document,
};
use crate::present::{
    render_rubric,
    render_window,
    spec_rendered,
    spec_rubric_reply,
    spec_window_reply,
    RenderedThread,
    RenderedView,
};
use crate::select::{
    clamp_count,
    draw,
    pick_index,
    spec_clamp,
    spec_min,
    spec_pick,
    spec_top,
    take_top,
    SelectionRequest,
    MAX_COUNT,
    MIN_COUNT,
};
use crate::site::{forum_url, spec_forum_url, spec_listing_url, spec_resolve, Window};
use crate::thread::{
    MemberView,
    RubricLink,
    RubricMemberLink,
    RubricView,
    SummaryView,
    ThreadExcerpt,
    ThreadSummary,
};

verus! {

/// Why a page could not be had.
#[derive(Clone, Copy, Debug, PartialEq, Eq, Structural)]
pub enum FetchError {
    /// The transport failed: name lookup, connection, encryption.
    Network,
    /// The page arrived, but its body is no text that can be read: it is
    /// not text at all, or longer than a page may be.
    Decode,
}

/// Why a request has no reply.
#[derive(Clone, Copy, Debug, PartialEq, Eq, Structural)]
pub enum SelectionError {
    /// The first page of the request could not be had.
    Fetch(FetchError),
    /// The listing page held no thread.
    NoThreadsAvailable,
    /// The forum's root page held no rubric.
    NoRubricsAvailable,
    /// The rubric's page held no thread.
    NoThreadsInRubric,
    /// The page of one of the chosen threads could not be had; nothing of the
    /// reply is kept.
    PartialFetchFailed,
}

/// A finished reply and the dialect it is written in.
#[derive(Clone, Debug, PartialEq, Eq)]
pub struct Reply {
    pub body: String,
    pub dialect: Dialect,
}

/// A `Reply` as contracts see it.
pub struct ReplyView {
    pub body: Seq<char>,
    pub dialect: Dialect,
}

impl View for Reply {
    type V = ReplyView;

    open spec fn view(&self) -> ReplyView {
        ReplyView { body: self.body@, dialect: self.dialect }
    }
}

enum Stage {
    Listing { window: Window, n: usize },
    Excerpts { window: Window, chosen: Vec<ThreadSummary>, rendered: Vec<RenderedThread> },
    RubricIndex,
    RubricPage { rubric: RubricLink },
    RubricExcerpt { rubric: RubricLink, member: RubricMemberLink },
}

/// A request under way. It always waits for exactly one page.
pub struct Session {
    dialect: Dialect,
    stage: Stage,
}

/// Which page a session waits for, and what it has gathered so far.
pub enum StageView {
    /// Waits for the listing page of `window`, to take `n` threads from it.
    Listing { window: Window, n: usize },
    /// Waits for the page of `chosen[rendered.len()]`.
    Excerpts { window: Window, chosen: Seq<SummaryView>, rendered: Seq<RenderedView> },
    /// Waits for the forum's root page.
    RubricIndex,
    /// Waits for the page of `rubric`.
    RubricPage { rubric: RubricView },
    /// Waits for the page of `member`.
    RubricExcerpt { rubric: RubricView, member: MemberView },
}

/// A `Session` as contracts see it.
pub struct SessionView {
    pub dialect: Dialect,
    pub stage: StageView,
}

/// What was read from a page, for the session that waited for it.
#[derive(Clone, Debug, PartialEq, Eq)]
pub enum Findings {
    /// The threads of a listing page, the best first.
    Listing(Vec<ThreadSummary>),
    /// The opening post of a thread's page.
    Excerpt(ThreadExcerpt),
    /// The rubric index of the forum's root page.
    Rubrics(Vec<RubricLink>),
    /// The threads of a rubric's page.
    Members(Vec<RubricMemberLink>),
}

/// `Findings` as contracts see them.
pub enum FindingsView {
    Listing(Seq<SummaryView>),
    Excerpt(Seq<char>),
    Rubrics(Seq<RubricView>),
    Members(Seq<MemberView>),
}

impl View for Findings {
    type V = FindingsView;

    open spec fn view(&self) -> FindingsView {
        match *self {
            Findings::Listing(listing) => FindingsView::Listing(listing.deep_view()),
            Findings::Excerpt(excerpt) => FindingsView::Excerpt(excerpt@),
            Findings::Rubrics(rubrics) => FindingsView::Rubrics(rubrics.deep_view()),
            Findings::Members(members) => FindingsView::Members(members.deep_view()),
        }
    }
}

/// What a session decides when a page arrives or fails to.
pub enum Step {
    /// Fetch the page at `url` and hand the outcome to `session`.
    Fetch { session: Session, url: String },
    /// The request is over: here is its reply, or why it has none.
    Done(Result<Reply, SelectionError>),
}

/// A `Step` as contracts see it.
pub enum StepView {
    Fetch { session: SessionView, url: Seq<char> },
    Done(Result<ReplyView, SelectionError>),
}

impl View for Stage {
    type V = StageView;

    closed spec fn view(&self) -> StageView {
        match *self {
            Stage::Listing { window, n } => StageView::Listing { window, n },
            Stage::Excerpts { window, chosen, rendered } => StageView::Excerpts {
                window,
                chosen: chosen.deep_view(),
                rendered: rendered.deep_view(),
            },
            Stage::RubricIndex => StageView::RubricIndex,
            Stage::RubricPage { rubric } => StageView::RubricPage { rubric: rubric@ },
            Stage::RubricExcerpt { rubric, member } => StageView::RubricExcerpt {
                rubric: rubric@,
                member: member@,
            },
        }
    }
}

impl View for Session {
    type V = SessionView;

    closed spec fn view(&self) -> SessionView {
        SessionView { dialect: self.dialect, stage: self.stage@ }
    }
}

impl View for Step {
    type V = StepView;

    open spec fn view(&self) -> StepView {
        match *self {
            Step::Fetch { session, url } => StepView::Fetch { session: session@, url: url@ },
            Step::Done(Ok(reply)) => StepView::Done(Ok(reply@)),
            Step::Done(Err(error)) => StepView::Done(Err(error)),
        }
    }
}

/// The view of what was read from a page, or of the failure to fetch it.
pub open spec fn found_view(found: Result<Findings, FetchError>) -> Result<
    FindingsView,
    FetchError,
> {
    match found {
        Ok(findings) => Ok(findings@),
        Err(error) => Err(error),
    }
}

/// The view of a page that was fetched, or of the failure to fetch it.
pub open spec fn fetched_view(fetched: Result<String, FetchError>) -> Result<Seq<char>, FetchError> {
    match fetched {
        Ok(markup) => Ok(markup@),
        Err(error) => Err(error),
    }
}

/// The listing among the findings; findings of another kind hold none.
pub open spec fn listing_found(found: Result<FindingsView, FetchError>) -> Result<
    Seq<SummaryView>,
    FetchError,
> {
    match found {
        Ok(FindingsView::Listing(listing)) => Ok(listing),
        Ok(_) => Ok(Seq::empty()),
        Err(error) => Err(error),
    }
}

/// The excerpt among the findings; findings of another kind hold an empty
/// one.
pub open spec fn excerpt_found(found: Result<FindingsView, FetchError>) -> Result<
    Seq<char>,
    FetchError,
> {
    match found {
        Ok(FindingsView::Excerpt(excerpt)) => Ok(excerpt),
        Ok(_) => Ok(Seq::empty()),
        Err(error) => Err(error),
    }
}

/// The rubric index among the findings; findings of another kind hold none.
pub open spec fn rubrics_found(found: Result<FindingsView, FetchError>) -> Result<
    Seq<RubricView>,
    FetchError,
> {
    match found {
        Ok(FindingsView::Rubrics(rubrics)) => Ok(rubrics),
        Ok(_) => Ok(Seq::empty()),
        Err(error) => Err(error),
    }
}

/// The members among the findings; findings of another kind hold none.
pub open spec fn members_found(found: Result<FindingsView, FetchError>) -> Result<
    Seq<MemberView>,
    FetchError,
> {
    match found {
        Ok(FindingsView::Members(members)) => Ok(members),
        Ok(_) => Ok(Seq::empty()),
        Err(error) => Err(error),
    }
}

/// How a session begins: which page it waits for first, and where that page
/// is. The count of a ranked request is brought into range.
pub open spec fn spec_begin(request: SelectionRequest, dialect: Dialect) -> (SessionView, Seq<char>) {
    match request {
        SelectionRequest::RankedTopN { window, n } => (
            SessionView {
                dialect,
                stage: StageView::Listing { window, n: spec_clamp(n as int) as usize },
            },
            spec_listing_url(window),
        ),
        SelectionRequest::RandomFromRubric => (
            SessionView { dialect, stage: StageView::RubricIndex },
            spec_forum_url(),
        ),
    }
}

/// The rank shown for the thread at position `k` of `total` chosen threads:
/// none where the reply shows a single thread, else the position counted
/// from one.
pub open spec fn spec_rank(k: int, total: int) -> Option<usize> {
    if total == 1 {
        None
    } else {
        Some((k + 1) as usize)
    }
}

/// What a session that waits for a listing page decides, given the listing
/// read from it.
pub open spec fn spec_after_listing(
    d: Dialect,
    window: Window,
    n: usize,
    found: Result<Seq<SummaryView>, FetchError>,
) -> StepView {
    match found {
        Err(error) => StepView::Done(Err(SelectionError::Fetch(error))),
        Ok(listing) => {
            if listing.len() == 0 {
                StepView::Done(Err(SelectionError::NoThreadsAvailable))
            } else {
                let chosen = spec_top(listing, n as int);
                StepView::Fetch {
                    session: SessionView {
                        dialect: d,
                        stage: StageView::Excerpts { window, chosen, rendered: Seq::empty() },
                    },
                    url: chosen[0].link,
                }
            }
        },
    }
}

/// What a session that waits for the page of a chosen thread decides, given
/// the excerpt read from it.
pub open spec fn spec_after_excerpt(
    d: Dialect,
    window: Window,
    chosen: Seq<SummaryView>,
    rendered: Seq<RenderedView>,
    found: Result<Seq<char>, FetchError>,
) -> StepView {
    match found {
        Err(_) => StepView::Done(Err(SelectionError::PartialFetchFailed)),
        Ok(excerpt) => {
            let k = rendered.len() as int;
            let thread = spec_rendered(
                d,
                spec_rank(k, chosen.len() as int),
                chosen[k].link,
                chosen[k].title,
                excerpt,
            );
            let all = rendered.push(thread);
            if all.len() == chosen.len() {
                StepView::Done(
                    Ok(ReplyView { body: spec_window_reply(d, window, all), dialect: d }),
                )
            } else {
                StepView::Fetch {
                    session: SessionView {
                        dialect: d,
                        stage: StageView::Excerpts { window, chosen, rendered: all },
                    },
                    url: chosen[k + 1].link,
                }
            }
        },
    }
}

/// What a session that waits for the forum's root page decides, given the
/// rubric index read from it.
pub open spec fn spec_after_index(
    d: Dialect,
    found: Result<Seq<RubricView>, FetchError>,
    draw: int,
) -> StepView {
    match found {
        Err(error) => StepView::Done(Err(SelectionError::Fetch(error))),
        Ok(rubrics) => {
            if rubrics.len() == 0 {
                StepView::Done(Err(SelectionError::NoRubricsAvailable))
            } else {
                let rubric = rubrics[spec_pick(draw, rubrics.len() as int)];
                StepView::Fetch {
                    session: SessionView { dialect: d, stage: StageView::RubricPage { rubric } },
                    url: spec_resolve(rubric.path),
                }
            }
        },
    }
}

/// What a session that waits for a rubric's page decides, given the members
/// read from it.
pub open spec fn spec_after_rubric(
    d: Dialect,
    rubric: RubricView,
    found: Result<Seq<MemberView>, FetchError>,
    draw: int,
) -> StepView {
    match found {
        Err(error) => StepView::Done(Err(SelectionError::Fetch(error))),
        Ok(members) => {
            if members.len() == 0 {
                StepView::Done(Err(SelectionError::NoThreadsInRubric))
            } else {
                let member = members[spec_pick(draw, members.len() as int)];
                StepView::Fetch {
                    session: SessionView {
                        dialect: d,
                        stage: StageView::RubricExcerpt { rubric, member },
                    },
                    url: spec_resolve(member.path),
                }
            }
        },
    }
}

/// What a session that waits for the page of a rubric's thread decides,
/// given the excerpt read from it.
pub open spec fn spec_after_member(
    d: Dialect,
    rubric: RubricView,
    member: MemberView,
    found: Result<Seq<char>, FetchError>,
) -> StepView {
    match found {
        Err(_) => StepView::Done(Err(SelectionError::PartialFetchFailed)),
        Ok(excerpt) => {
            let thread = spec_rendered(
                d,
                None,
                spec_resolve(member.path),
                member.title,
                excerpt,
            );
            StepView::Done(
                Ok(
                    ReplyView {
                        body: spec_rubric_reply(d, rubric.section_id, rubric.label, thread),
                        dialect: d,
                    },
                ),
            )
        },
    }
}

/// What a session decides, given what was read from the page it waited for
/// or the failure to fetch that page. `draw` is the random number at its
/// disposal; only the two choices of a rubric request use it.
pub open spec fn spec_decide(
    session: SessionView,
    found: Result<FindingsView, FetchError>,
    draw: int,
) -> StepView {
    let d = session.dialect;
    match session.stage {
        StageView::Listing { window, n } => spec_after_listing(d, window, n, listing_found(found)),
        StageView::Excerpts { window, chosen, rendered } => spec_after_excerpt(
            d,
            window,
            chosen,
            rendered,
            excerpt_found(found),
        ),
        StageView::RubricIndex => spec_after_index(d, rubrics_found(found), draw),
        StageView::RubricPage { rubric } => spec_after_rubric(
            d,
            rubric,
            members_found(found),
            draw,
        ),
        StageView::RubricExcerpt { rubric, member } => spec_after_member(
            d,
            rubric,
            member,
            excerpt_found(found),
        ),
    }
}

/// What a session in this stage reads from a document.
pub open spec fn spec_read(stage: StageView, document: scraper::Html) -> FindingsView {
    match stage {
        StageView::Listing { window, n } => FindingsView::Listing(spec_listing(document)),
        StageView::Excerpts { window, chosen, rendered } => FindingsView::Excerpt(
            spec_excerpt(document),
        ),
        StageView::RubricIndex => FindingsView::Rubrics(spec_rubric_links(document)),
        StageView::RubricPage { rubric } => FindingsView::Members(spec_rubric_members(document)),
        StageView::RubricExcerpt { rubric, member } => FindingsView::Excerpt(
            spec_excerpt(document),
        ),
    }
}

/// What a session finds in the outcome of a fetch. A page too long to be
/// parsed counts as a page that could not be read.
pub open spec fn spec_found(
    stage: StageView,
    fetched: Result<Seq<char>, FetchError>,
) -> Result<FindingsView, FetchError> {
    match fetched {
        Err(error) => Err(error),
        Ok(markup) => if fits_parser(markup) {
            Ok(spec_read(stage, parsed_document(markup)))
        } else {
            Err(FetchError::Decode)
        },
    }
}

/// What a session decides when the page it waits for arrives, or fails to:
/// it reads the page, then decides on what it found.
pub open spec fn spec_step(
    session: SessionView,
    fetched: Result<Seq<char>, FetchError>,
    draw: int,
) -> StepView {
    spec_decide(session, spec_found(session.stage, fetched), draw)
}

/// What holds of every session: a ranked request takes between `MIN_COUNT`
/// and `MAX_COUNT` threads, and the thread whose page is awaited is one of
/// the chosen.
pub open spec fn spec_well_formed(session: SessionView) -> bool {
    match session.stage {
        StageView::Listing { window, n } => MIN_COUNT <= n <= MAX_COUNT,
        StageView::Excerpts { window, chosen, rendered } => rendered.len() < chosen.len()
            <= MAX_COUNT,
        _ => true,
    }
}

/// How many pages a session may still ask for, the awaited one included.
pub open spec fn spec_fetches_left(session: SessionView) -> int {
    match session.stage {
        StageView::Listing { window, n } => n + 1,
        StageView::Excerpts { window, chosen, rendered } => chosen.len() - rendered.len(),
        StageView::RubricIndex => 3,
        StageView::RubricPage { rubric } => 2,
        StageView::RubricExcerpt { rubric, member } => 1,
    }
}

/// Every request ends. Whatever was found and whatever is drawn, a session
/// either finishes or goes on as a session that may ask for fewer pages than
/// before; so a ranked request fetches at most one page more than its count,
/// and a rubric request at most three.
pub proof fn lemma_every_step_brings_the_end_nearer(
    session: SessionView,
    found: Result<FindingsView, FetchError>,
    draw: int,
)
    requires
        spec_well_formed(session),
    ensures
        spec_fetches_left(session) >= 1,
        match spec_decide(session, found, draw) {
            StepView::Fetch { session: next, url } => {
                &&& spec_well_formed(next)
                &&& 1 <= spec_fetches_left(next) < spec_fetches_left(session)
            },
            StepView::Done(_) => true,
        },
{
}

/// A rubric request against a root page without rubrics ends at once, with
/// `NoRubricsAvailable`, whatever was drawn: no remainder is formed.
pub proof fn lemma_empty_index_is_reported(d: Dialect, draw: int)
    ensures
        spec_decide(
            SessionView { dialect: d, stage: StageView::RubricIndex },
            Ok(FindingsView::Rubrics(Seq::empty())),
            draw,
        ) == StepView::Done(Err(SelectionError::NoRubricsAvailable)),
{
}

/// A ranked request chooses the first threads of the listing, in the order
/// of the listing, and as many as were asked for unless the listing has
/// fewer: the session goes on to fetch the page of the first of them.
pub proof fn lemma_listing_is_taken_from_the_top(
    d: Dialect,
    window: Window,
    n: usize,
    listing: Seq<SummaryView>,
)
    requires
        MIN_COUNT <= n <= MAX_COUNT,
        listing.len() > 0,
    ensures
        ({
            let chosen = spec_top(listing, n as int);
            &&& chosen.len() == spec_min(n as int, listing.len() as int)
            &&& forall|i: int| 0 <= i < chosen.len() ==> chosen[i] == listing[i]
            &&& spec_decide(
                SessionView { dialect: d, stage: StageView::Listing { window, n } },
                Ok(FindingsView::Listing(listing)),
                0,
            ) == StepView::Fetch {
                session: SessionView {
                    dialect: d,
                    stage: StageView::Excerpts { window, chosen, rendered: Seq::empty() },
                },
                url: listing[0].link,
            }
        }),
{
}

fn listing_of(found: Result<Findings, FetchError>) -> (listing: Result<Vec<ThreadSummary>, FetchError>)
    ensures
        match listing {
            Ok(threads) => listing_found(found_view(found)) == Ok::<Seq<SummaryView>, FetchError>(
                threads.deep_view(),
            ),
            Err(error) => listing_found(found_view(found)) == Err::<Seq<SummaryView>, FetchError>(
                error,
            ),
        },
{
    match found {
        Ok(Findings::Listing(listing)) => Ok(listing),
        Ok(_) => {
            let none: Vec<ThreadSummary> = Vec::new();
            assert(none.deep_view() =~= Seq::<SummaryView>::empty());
            Ok(none)
        },
        Err(error) => Err(error),
    }
}

fn excerpt_of(found: Result<Findings, FetchError>) -> (excerpt: Result<ThreadExcerpt, FetchError>)
    ensures
        match excerpt {
            Ok(text) => excerpt_found(found_view(found)) == Ok::<Seq<char>, FetchError>(text@),
            Err(error) => excerpt_found(found_view(found)) == Err::<Seq<char>, FetchError>(error),
        },
{
    match found {
        Ok(Findings::Excerpt(excerpt)) => Ok(excerpt),
        Ok(_) => Ok(ThreadExcerpt { text: String::new() }),
        Err(error) => Err(error),
    }
}

fn rubrics_of(found: Result<Findings, FetchError>) -> (rubrics: Result<Vec<RubricLink>, FetchError>)
    ensures
        match rubrics {
            Ok(index) => rubrics_found(found_view(found)) == Ok::<Seq<RubricView>, FetchError>(
                index.deep_view(),
            ),
            Err(error) => rubrics_found(found_view(found)) == Err::<Seq<RubricView>, FetchError>(
                error,
            ),
        },
{
    match found {
        Ok(Findings::Rubrics(rubrics)) => Ok(rubrics),
        Ok(_) => {
            let none: Vec<RubricLink> = Vec::new();
            assert(none.deep_view() =~= Seq::<RubricView>::empty());
            Ok(none)
        },
        Err(error) => Err(error),
    }
}

fn members_of(found: Result<Findings, FetchError>) -> (members: Result<
    Vec<RubricMemberLink>,
    FetchError,
>)
    ensures
        match members {
            Ok(list) => members_found(found_view(found)) == Ok::<Seq<MemberView>, FetchError>(
                list.deep_view(),
            ),
            Err(error) => members_found(found_view(found)) == Err::<Seq<MemberView>, FetchError>(
                error,
            ),
        },
{
    match found {
        Ok(Findings::Members(members)) => Ok(members),
        Ok(_) => {
            let none: Vec<RubricMemberLink> = Vec::new();
            assert(none.deep_view() =~= Seq::<MemberView>::empty());
            Ok(none)
        },
        Err(error) => Err(error),
    }
}

fn after_listing(
    dialect: Dialect,
    window: Window,
    n: usize,
    found: Result<Vec<ThreadSummary>, FetchError>,
) -> (step: Step)
    requires
        MIN_COUNT <= n <= MAX_COUNT,
    ensures
        step@ == spec_after_listing(
            dialect,
            window,
            n,
            match found {
                Ok(listing) => Ok(listing.deep_view()),
                Err(error) => Err(error),
            },
        ),
{
    match found {
        Err(error) => Step::Done(Err(SelectionError::Fetch(error))),
        Ok(listing) => {
            if listing.len() == 0 {
                Step::Done(Err(SelectionError::NoThreadsAvailable))
            } else {
                let chosen = take_top(listing, n);
                let url = chosen[0].link.clone();
                let rendered: Vec<RenderedThread> = Vec::new();
                assert(rendered.deep_view() =~= Seq::<RenderedView>::empty());
                let stage = Stage::Excerpts { window, chosen, rendered };
                Step::Fetch { session: Session { dialect, stage }, url }
            }
        },
    }
}

fn after_excerpt(
    dialect: Dialect,
    window: Window,
    chosen: Vec<ThreadSummary>,
    rendered: Vec<RenderedThread>,
    found: Result<ThreadExcerpt, FetchError>,
) -> (step: Step)
    requires
        rendered.len() < chosen.len() <= MAX_COUNT,
    ensures
        step@ == spec_after_excerpt(
            dialect,
            window,
            chosen.deep_view(),
            rendered.deep_view(),
            match found {
                Ok(excerpt) => Ok(excerpt@),
                Err(error) => Err(error),
            },
        ),
{
    match found {
        Err(_) => Step::Done(Err(SelectionError::PartialFetchFailed)),
        Ok(excerpt) => {
            let k: usize = rendered.len();
            let rank = if chosen.len() == 1 {
                None
            } else {
                Some(k + 1)
            };
            let thread = RenderedThread::of_summary(rank, &chosen[k], &excerpt, dialect);
            let ghost before = rendered.deep_view();
            let mut rendered = rendered;
            rendered.push(thread);
            assert(rendered.deep_view() =~= before.push(thread@));
            if rendered.len() == chosen.len() {
                let body = render_window(&rendered, window, dialect);
                Step::Done(Ok(Reply { body, dialect }))
            } else {
                let url = chosen[k + 1].link.clone();
                let stage = Stage::Excerpts { window, chosen, rendered };
                Step::Fetch { session: Session { dialect, stage }, url }
            }
        },
    }
}

fn after_index(dialect: Dialect, found: Result<Vec<RubricLink>, FetchError>, draw: usize) -> (step:
    Step)
    ensures
        step@ == spec_after_index(
            dialect,
            match found {
                Ok(rubrics) => Ok(rubrics.deep_view()),
                Err(error) => Err(error),
            },
            draw as int,
        ),
{
    match found {
        Err(error) => Step::Done(Err(SelectionError::Fetch(error))),
        Ok(rubrics) => {
            let mut rubrics = rubrics;
            match pick_index(draw, rubrics.len()) {
                None => Step::Done(Err(SelectionError::NoRubricsAvailable)),
                Some(i) => {
                    let rubric = rubrics.swap_remove(i);
                    let url = rubric.url();
                    Step::Fetch {
                        session: Session { dialect, stage: Stage::RubricPage { rubric } },
                        url,
                    }
                },
            }
        },
    }
}

fn after_rubric(
    dialect: Dialect,
    rubric: RubricLink,
    found: Result<Vec<RubricMemberLink>, FetchError>,
    draw: usize,
) -> (step: Step)
    ensures
        step@ == spec_after_rubric(
            dialect,
            rubric@,
            match found {
                Ok(members) => Ok(members.deep_view()),
                Err(error) => Err(error),
            },
            draw as int,
        ),
{
    match found {
        Err(error) => Step::Done(Err(SelectionError::Fetch(error))),
        Ok(members) => {
            let mut members = members;
            match pick_index(draw, members.len()) {
                None => Step::Done(Err(SelectionError::NoThreadsInRubric)),
                Some(i) => {
                    let member = members.swap_remove(i);
                    let url = member.url();
                    Step::Fetch {
                        session: Session {
                            dialect,
                            stage: Stage::RubricExcerpt { rubric, member },
                        },
                        url,
                    }
                },
            }
        },
    }
}

fn after_member(
    dialect: Dialect,
    rubric: RubricLink,
    member: RubricMemberLink,
    found: Result<ThreadExcerpt, FetchError>,
) -> (step: Step)
    ensures
        step@ == spec_after_member(
            dialect,
            rubric@,
            member@,
            match found {
                Ok(excerpt) => Ok(excerpt@),
                Err(error) => Err(error),
            },
        ),
{
    match found {
        Err(_) => Step::Done(Err(SelectionError::PartialFetchFailed)),
        Ok(excerpt) => {
            let url = member.url();
            let thread = RenderedThread::new(
                None,
                url.as_str(),
                member.title.as_str(),
                excerpt.text.as_str(),
                dialect,
            );
            let body = render_rubric(
                rubric.section_id.as_str(),
                rubric.label.as_str(),
                &thread,
                dialect,
            );
            Step::Done(Ok(Reply { body, dialect }))
        },
    }
}

impl Session {
    #[verifier::type_invariant]
    spec fn well_formed(self) -> bool {
        spec_well_formed(self@)
    }

    /// Begins a request. Returns the session and the address of the first
    /// page it needs: the window's listing page, or the forum's root page.
    pub fn begin(request: SelectionRequest, dialect: Dialect) -> (start: (Session, String))
        ensures
            (start.0@, start.1@) == spec_begin(request, dialect),
    {
        match request {
            SelectionRequest::RankedTopN { window, n } => {
                let stage = Stage::Listing { window, n: clamp_count(n) };
                (Session { dialect, stage }, window.listing_url())
            },
            SelectionRequest::RandomFromRubric => {
                (Session { dialect, stage: Stage::RubricIndex }, forum_url())
            },
        }
    }

    /// The dialect in which the reply will be written.
    pub fn dialect(&self) -> (dialect: Dialect)
        ensures
            dialect == self@.dialect,
    {
        self.dialect
    }

    /// Reads from a document what the session waits for: the listing, the
    /// rubric index, the members of a rubric, or the excerpt of a thread.
    pub fn read(&self, document: &Document) -> (findings: Findings)
        ensures
            findings@ == spec_read(self@.stage, document.tree()),
    {
        match &self.stage {
            Stage::Listing { .. } => Findings::Listing(extract_listing(document)),
            Stage::Excerpts { .. } => Findings::Excerpt(extract_excerpt(document)),
            Stage::RubricIndex => Findings::Rubrics(extract_rubric_links(document)),
            Stage::RubricPage { .. } => Findings::Members(extract_rubric_members(document)),
            Stage::RubricExcerpt { .. } => Findings::Excerpt(extract_excerpt(document)),
        }
    }

    /// Decides what follows from what was read from the awaited page, or
    /// from the failure to fetch it: the next page to fetch, the reply, or
    /// the reason why there is no reply, exactly as `spec_decide` lists
    /// them. `draw` is a random number for the choices of a rubric request.
    /// Findings of another kind than the session waits for count as a page
    /// that held nothing.
    pub fn decide(self, found: Result<Findings, FetchError>, draw: usize) -> (step: Step)
        ensures
            step@ == spec_decide(self@, found_view(found), draw as int),
    {
        proof {
            use_type_invariant(&self);
        }
        let Session { dialect, stage } = self;
        match stage {
            Stage::Listing { window, n } => after_listing(dialect, window, n, listing_of(found)),
            Stage::Excerpts { window, chosen, rendered } => after_excerpt(
                dialect,
                window,
                chosen,
                rendered,
                excerpt_of(found),
            ),
            Stage::RubricIndex => after_index(dialect, rubrics_of(found), draw),
            Stage::RubricPage { rubric } => after_rubric(dialect, rubric, members_of(found), draw),
            Stage::RubricExcerpt { rubric, member } => after_member(
                dialect,
                rubric,
                member,
                excerpt_of(found),
            ),
        }
    }

    /// Reads the outcome of a fetch: the findings of the page that arrived,
    /// or the failure. A page too long to be parsed counts as a page that
    /// could not be read.
    pub fn find(&self, fetched: Result<String, FetchError>) -> (found: Result<Findings, FetchError>)
        ensures
            found_view(found) == spec_found(self@.stage, fetched_view(fetched)),
    {
        match fetched {
            Err(error) => Err(error),
            Ok(markup) => match Document::parse(markup.as_str()) {
                Some(document) => Ok(self.read(&document)),
                None => Err(FetchError::Decode),
            },
        }
    }

    /// Hands the session the outcome of the fetch it waited for, and a
    /// random number for the choices of a rubric request. The session reads
    /// the page and decides on what it found, exactly as `spec_step` says.
    pub fn advance(self, fetched: Result<String, FetchError>, draw: usize) -> (step: Step)
        ensures
            step@ == spec_step(self@, fetched_view(fetched), draw as int),
    {
        let found = self.find(fetched);
        self.decide(found, draw)
    }

    /// Whether the session has a choice to make when its page arrives.
    fn chooses(&self) -> (b: bool)
        ensures
            b == (self@.stage is RubricIndex || self@.stage is RubricPage),
    {
        match self.stage {
            Stage::RubricIndex => true,
            Stage::RubricPage { .. } => true,
            _ => false,
        }
    }

    /// As `advance`, with a random number that the session draws itself
    /// where it has a choice to make.
    pub fn step(self, fetched: Result<String, FetchError>) -> (step: Step)
        ensures
            exists|draw: int|
                0 <= draw <= usize::MAX && step@ == #[trigger] spec_step(
                    self@,
                    fetched_view(fetched),
                    draw,
                ),
    {
        let number: usize = if self.chooses() {
            draw()
        } else {
            0
        };
        self.advance(fetched, number)
    }
}

} // verus!
