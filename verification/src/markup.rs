//! Reading the pages of the forum. The `scraper` crate parses the markup and
//! answers the structural queries; this module decides what is asked, in
//! which order, and what a missing answer becomes.
//!
//! What `scraper` returns is not described here but named: `parsed_document`,
//! `parsed_selector`, `document_matches`, `element_matches`, `element_text`
//! and `element_attr` stand for the results of its functions, and the
//! contracts below say exactly how the records are made from them.
//!
//! To `scraper` a document and an element are alike collections of elements
//! that a query can be applied to, and an element is a handle into its
//! document. The names take them as such. They claim that parsing and
//! querying are functions of the text parsed and the query asked: which
//! elements a query finds, in which order, and what text and attributes
//! these hold does not depend on when or where a document was parsed.
//!
//! The order of everything read here is the order in which `scraper` yields
//! the elements that a query finds. That is the order in which the parser
//! made them, which is the order of the markup except where the parser moves
//! content, as it does with content misplaced in a table.
//!
//! A page of more than `MAX_PAGE_BYTES` bytes is not parsed: the parser keeps
//! text in buffers that hold less than 4 GiB and panics beyond.

use vstd::prelude::*;
use vstd::utf8::encode_utf8;
use crate::site::{
    EXCERPT_QUERY,
    HREF,
    IMAGE_QUERY,
    ITEM_QUERY,
    LINK_QUERY,
    MEMBER_QUERY,
    RUBRIC_QUERY,
    SECTION,
    SRC,
    TITLE_QUERY,
};
use crate::thread::{
    spec_excerpt_of,
    spec_member,
    spec_rubric,
    spec_summary,
    MemberView,
    RubricLink,
    RubricMemberLink,
    RubricView,
    SummaryView,
    ThreadExcerpt,
    ThreadSummary,
};

verus! {

/// `scraper::Html`, a parsed document. Nothing of its inside is used here.
#[verifier::external_type_specification]
#[verifier::external_body]
pub struct ExHtml(scraper::Html);

/// `scraper::Selector`, a parsed structural query.
#[verifier::external_type_specification]
#[verifier::external_body]
pub struct ExSelector(scraper::Selector);

/// `scraper::ElementRef`, one element of a parsed document.
#[verifier::external_type_specification]
#[verifier::external_body]
pub struct ExElementRef<'a>(scraper::ElementRef<'a>);

/// The document that `scraper::Html::parse_document` makes of `markup`.
pub uninterp spec fn parsed_document(markup: Seq<char>) -> scraper::Html;

/// The query that `scraper::Selector::parse` makes of `css`; `None` where it
/// refuses the text.
pub uninterp spec fn parsed_selector(css: Seq<char>) -> Option<scraper::Selector>;

/// The elements that `scraper::Html::select` yields for the query, in the
/// order in which it yields them.
pub uninterp spec fn document_matches(
    document: scraper::Html,
    selector: scraper::Selector,
) -> Seq<scraper::ElementRef<'static>>;

/// The elements below `element` that `scraper::ElementRef::select` yields for
/// the query, in the order in which it yields them.
pub uninterp spec fn element_matches(
    element: scraper::ElementRef<'_>,
    selector: scraper::Selector,
) -> Seq<scraper::ElementRef<'_>>;

/// The pieces of text that `scraper::ElementRef::text` yields for the
/// element, joined in the order in which it yields them.
pub uninterp spec fn element_text(element: scraper::ElementRef<'_>) -> Seq<char>;

/// What `scraper::ElementRef::attr` returns for the attribute `name` of the
/// element.
pub uninterp spec fn element_attr(element: scraper::ElementRef<'_>, name: Seq<char>) -> Option<
    Seq<char>,
>;

/// Calls `scraper::Html::parse_document`, which builds a document from any
/// text that its buffers hold. They are `tendril` buffers, which panic at
/// 4 GiB; the parser copies the page into one, and the text of one node can
/// grow to three times the bytes of the page, since each NUL becomes U+FFFD.
/// So a page of more than `MAX_PAGE_BYTES` is left out. The result is named,
/// not described.
#[verifier::external_body]
fn parse_document(markup: &str) -> (document: scraper::Html)
    requires
        fits_parser(markup@),
    ensures
        document == parsed_document(markup@),
{
    scraper::Html::parse_document(markup)
}

/// Calls `scraper::Selector::parse`; its error becomes `None`. The result is
/// named, not described.
#[verifier::external_body]
fn parse_selector(css: &str) -> (selector: Option<scraper::Selector>)
    ensures
        selector == parsed_selector(css@),
{
    scraper::Selector::parse(css).ok()
}

/// Calls `scraper::Html::select` and collects all that its iterator yields.
#[verifier::external_body]
fn select_in_document<'a>(document: &'a scraper::Html, selector: &scraper::Selector) -> (found: Vec<
    scraper::ElementRef<'a>,
>)
    ensures
        found@ == document_matches(*document, *selector),
{
    document.select(selector).collect()
}

/// Calls `scraper::ElementRef::select` and collects all that its iterator
/// yields.
#[verifier::external_body]
fn select_in_element<'a>(element: &scraper::ElementRef<'a>, selector: &scraper::Selector) -> (found:
    Vec<scraper::ElementRef<'a>>)
    ensures
        found@ == element_matches(*element, *selector),
{
    element.select(selector).collect()
}

/// Calls `scraper::ElementRef::text` and joins the pieces that its iterator
/// yields.
#[verifier::external_body]
fn text_of(element: &scraper::ElementRef<'_>) -> (text: String)
    ensures
        text@ == element_text(*element),
{
    element.text().collect()
}

/// Calls `scraper::ElementRef::attr` and copies the value that it returns.
#[verifier::external_body]
fn attr_of(element: &scraper::ElementRef<'_>, name: &str) -> (value: Option<String>)
    ensures
        crate::thread::text_view(value) == element_attr(*element, name@),
{
    element.attr(name).map(String::from)
}

/// The longest page that is parsed, in bytes of UTF-8: 1 GiB.
pub const MAX_PAGE_BYTES: usize = 0x4000_0000;

/// Whether a page is short enough to be parsed.
pub open spec fn fits_parser(markup: Seq<char>) -> bool {
    encode_utf8(markup).len() <= MAX_PAGE_BYTES
}

/// A parsed page of the forum.
pub struct Document {
    html: scraper::Html,
}

/// All elements of the document that the query text finds; none where the
/// query text is refused.
pub open spec fn matches_in_document(document: scraper::Html, css: Seq<char>) -> Seq<
    scraper::ElementRef<'static>,
> {
    match parsed_selector(css) {
        Some(selector) => document_matches(document, selector),
        None => Seq::empty(),
    }
}

/// The first element below `element` that the query text finds, if any.
pub open spec fn first_below(element: scraper::ElementRef<'_>, css: Seq<char>) -> Option<
    scraper::ElementRef<'_>,
> {
    match parsed_selector(css) {
        Some(selector) => {
            let found = element_matches(element, selector);
            if found.len() > 0 {
                Some(found[0])
            } else {
                None
            }
        },
        None => None,
    }
}

/// The text of the first element below `element` that the query text finds.
pub open spec fn text_below(element: scraper::ElementRef<'_>, css: Seq<char>) -> Option<Seq<char>> {
    match first_below(element, css) {
        Some(found) => Some(element_text(found)),
        None => None,
    }
}

/// The attribute `name` of the first element below `element` that the query
/// text finds.
pub open spec fn attr_below(element: scraper::ElementRef<'_>, css: Seq<char>, name: Seq<char>)
    -> Option<Seq<char>> {
    match first_below(element, css) {
        Some(found) => element_attr(found, name),
        None => None,
    }
}

/// The summary of one listing item.
pub open spec fn summary_of_item(item: scraper::ElementRef<'_>) -> SummaryView {
    spec_summary(
        text_below(item, TITLE_QUERY@),
        attr_below(item, LINK_QUERY@, HREF@),
        attr_below(item, IMAGE_QUERY@, SRC@),
    )
}

/// The listing items of a document, in the order in which the item query
/// yields them.
pub open spec fn listing_items(document: scraper::Html) -> Seq<scraper::ElementRef<'static>> {
    matches_in_document(document, ITEM_QUERY@)
}

/// The listing of a document: one summary for each listing item, in the
/// order of the items, which is the order of rank.
pub open spec fn spec_listing(document: scraper::Html) -> Seq<SummaryView> {
    let items = listing_items(document);
    Seq::new(items.len(), |i: int| summary_of_item(items[i]))
}

/// The texts of the elements that the excerpt query finds in a document,
/// in the order in which it yields them.
pub open spec fn spec_excerpt_candidates(document: scraper::Html) -> Seq<Seq<char>> {
    let found = matches_in_document(document, EXCERPT_QUERY@);
    Seq::new(found.len(), |i: int| element_text(found[i]))
}

/// The excerpt of a document: the text of the last element that the excerpt
/// query finds, empty where it finds none.
pub open spec fn spec_excerpt(document: scraper::Html) -> Seq<char> {
    spec_excerpt_of(spec_excerpt_candidates(document))
}

/// The rubric that one entry of the index stands for.
pub open spec fn rubric_of_entry(entry: scraper::ElementRef<'_>) -> RubricView {
    spec_rubric(element_text(entry), element_attr(entry, SECTION@), element_attr(entry, HREF@))
}

/// The rubric index of a document, in the order in which the rubric query
/// yields its entries.
pub open spec fn spec_rubric_links(document: scraper::Html) -> Seq<RubricView> {
    let entries = matches_in_document(document, RUBRIC_QUERY@);
    Seq::new(entries.len(), |i: int| rubric_of_entry(entries[i]))
}

/// The member that one link of a rubric's page stands for.
pub open spec fn member_of_entry(entry: scraper::ElementRef<'_>) -> MemberView {
    spec_member(text_below(entry, TITLE_QUERY@), element_attr(entry, HREF@))
}

/// The members of a rubric's page, in the order in which the member query
/// yields them.
pub open spec fn spec_rubric_members(document: scraper::Html) -> Seq<MemberView> {
    let entries = matches_in_document(document, MEMBER_QUERY@);
    Seq::new(entries.len(), |i: int| member_of_entry(entries[i]))
}

fn find_in_document<'a>(document: &'a scraper::Html, css: &str) -> (found: Vec<
    scraper::ElementRef<'a>,
>)
    ensures
        found@ == matches_in_document(*document, css@),
{
    match parse_selector(css) {
        Some(selector) => select_in_document(document, &selector),
        None => Vec::new(),
    }
}

fn find_first_below<'a>(element: &scraper::ElementRef<'a>, css: &str) -> (first: Option<
    scraper::ElementRef<'a>,
>)
    ensures
        first == first_below(*element, css@),
{
    match parse_selector(css) {
        Some(selector) => {
            let found = select_in_element(element, &selector);
            if found.len() > 0 {
                Some(found[0])
            } else {
                None
            }
        },
        None => None,
    }
}

fn find_text_below(element: &scraper::ElementRef<'_>, css: &str) -> (text: Option<String>)
    ensures
        crate::thread::text_view(text) == text_below(*element, css@),
{
    match find_first_below(element, css) {
        Some(found) => Some(text_of(&found)),
        None => None,
    }
}

fn find_attr_below(element: &scraper::ElementRef<'_>, css: &str, name: &str) -> (value: Option<
    String,
>)
    ensures
        crate::thread::text_view(value) == attr_below(*element, css@, name@),
{
    match find_first_below(element, css) {
        Some(found) => attr_of(&found, name),
        None => None,
    }
}

impl Document {
    /// The parsed document that this value holds.
    pub closed spec fn tree(&self) -> scraper::Html {
        self.html
    }

    /// Parses a page. Any text of at most `MAX_PAGE_BYTES` bytes gives a
    /// document: markup that is broken is repaired as far as the parser can,
    /// never refused. A longer text gives `None`.
    pub fn parse(markup: &str) -> (document: Option<Document>)
        ensures
            document is Some <==> fits_parser(markup@),
            document matches Some(parsed) ==> parsed.tree() == parsed_document(markup@),
    {
        if markup.as_bytes().len() <= MAX_PAGE_BYTES {
            Some(Document { html: parse_document(markup) })
        } else {
            None
        }
    }
}

/// Reads the threads of a listing page, in the order in which the item query
/// yields them: the first is of rank one. There is one summary for each
/// listing item of the page, so the listing of a page without items is
/// empty.
pub fn extract_listing(document: &Document) -> (listing: Vec<ThreadSummary>)
    ensures
        listing.deep_view() == spec_listing(document.tree()),
        listing.len() == listing_items(document.tree()).len(),
{
    let items = find_in_document(&document.html, ITEM_QUERY);
    let mut listing: Vec<ThreadSummary> = Vec::new();
    let mut i: usize = 0;
    while i < items.len()
        invariant
            i <= items.len(),
            items@ == listing_items(document.tree()),
            listing.len() == i,
            listing.deep_view() == Seq::new(i as nat, |k: int| summary_of_item(items@[k])),
        decreases items.len() - i,
    {
        let item = &items[i];
        let title = find_text_below(item, TITLE_QUERY);
        let href = find_attr_below(item, LINK_QUERY, HREF);
        let src = find_attr_below(item, IMAGE_QUERY, SRC);
        let ghost before = listing.deep_view();
        listing.push(ThreadSummary::from_parts(title, href, src));
        i += 1;
        assert forall|k: int| 0 <= k < i implies listing.deep_view()[k] == summary_of_item(
            items@[k],
        ) by {
            if k < i - 1 {
                assert(listing.deep_view()[k] == before[k]);
            }
        }
    }
    listing
}

/// Reads the opening post of a thread page: the text of the last element
/// that the excerpt query finds, or an empty excerpt where it finds none.
pub fn extract_excerpt(document: &Document) -> (excerpt: ThreadExcerpt)
    ensures
        excerpt@ == spec_excerpt(document.tree()),
{
    let found = find_in_document(&document.html, EXCERPT_QUERY);
    let mut texts: Vec<String> = Vec::new();
    let mut i: usize = 0;
    while i < found.len()
        invariant
            i <= found.len(),
            found@ == matches_in_document(document.tree(), EXCERPT_QUERY@),
            texts.len() == i,
            texts.deep_view() == Seq::new(i as nat, |k: int| element_text(found@[k])),
        decreases found.len() - i,
    {
        let ghost before = texts.deep_view();
        texts.push(text_of(&found[i]));
        i += 1;
        assert forall|k: int| 0 <= k < i implies texts.deep_view()[k] == element_text(
            found@[k],
        ) by {
            if k < i - 1 {
                assert(texts.deep_view()[k] == before[k]);
            }
        }
    }
    ThreadExcerpt::from_candidates(texts)
}

/// Reads the rubric index of the forum's root page, in the order in which
/// the rubric query yields its entries.
pub fn extract_rubric_links(document: &Document) -> (rubrics: Vec<RubricLink>)
    ensures
        rubrics.deep_view() == spec_rubric_links(document.tree()),
{
    let entries = find_in_document(&document.html, RUBRIC_QUERY);
    let mut rubrics: Vec<RubricLink> = Vec::new();
    let mut i: usize = 0;
    while i < entries.len()
        invariant
            i <= entries.len(),
            entries@ == matches_in_document(document.tree(), RUBRIC_QUERY@),
            rubrics.len() == i,
            rubrics.deep_view() == Seq::new(i as nat, |k: int| rubric_of_entry(entries@[k])),
        decreases entries.len() - i,
    {
        let entry = &entries[i];
        let label = text_of(entry);
        let section = attr_of(entry, SECTION);
        let href = attr_of(entry, HREF);
        let ghost before = rubrics.deep_view();
        rubrics.push(RubricLink::from_parts(label, section, href));
        i += 1;
        assert forall|k: int| 0 <= k < i implies rubrics.deep_view()[k] == rubric_of_entry(
            entries@[k],
        ) by {
            if k < i - 1 {
                assert(rubrics.deep_view()[k] == before[k]);
            }
        }
    }
    rubrics
}

/// Reads the threads that a rubric's page lists, in the order in which the
/// member query yields them.
pub fn extract_rubric_members(document: &Document) -> (members: Vec<RubricMemberLink>)
    ensures
        members.deep_view() == spec_rubric_members(document.tree()),
{
    let entries = find_in_document(&document.html, MEMBER_QUERY);
    let mut members: Vec<RubricMemberLink> = Vec::new();
    let mut i: usize = 0;
    while i < entries.len()
        invariant
            i <= entries.len(),
            entries@ == matches_in_document(document.tree(), MEMBER_QUERY@),
            members.len() == i,
            members.deep_view() == Seq::new(i as nat, |k: int| member_of_entry(entries@[k])),
        decreases entries.len() - i,
    {
        let entry = &entries[i];
        let title = find_text_below(entry, TITLE_QUERY);
        let href = attr_of(entry, HREF);
        let ghost before = members.deep_view();
        members.push(RubricMemberLink::from_parts(title, href));
        i += 1;
        assert forall|k: int| 0 <= k < i implies members.deep_view()[k] == member_of_entry(
            entries@[k],
        ) by {
            if k < i - 1 {
                assert(members.deep_view()[k] == before[k]);
            }
        }
    }
    members
}

} // verus!
