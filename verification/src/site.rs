//! What is fixed about the forum: its origin, the addresses of its listing
//! pages, the structural queries that find threads and rubrics in its pages,
//! and how the relative addresses found there become absolute.
//!
//! A redesign of the site changes the constants of this file and nothing else.

use vstd::prelude::*;
use crate::text::chars_of;

verus! {

/// Scheme and host of the forum.
pub const ORIGIN: &'static str = "https://woman.ru";

/// Path of the forum's root page, which holds the rubric index.
pub const FORUM_PATH: &'static str = "/forum";

/// Path of a listing page, up to the value of its `sort` parameter.
pub const LISTING_PATH: &'static str = "/forum/?sort=";

/// Scheme put before an image address that has none.
pub const IMAGE_SCHEME: &'static str = "https:";

/// One thread of a listing page.
pub const ITEM_QUERY: &'static str = ".list-item";

/// The title inside a thread of a listing or inside a rubric member.
pub const TITLE_QUERY: &'static str = ".list-item__title";

/// The link inside a thread of a listing.
pub const LINK_QUERY: &'static str = ".list-item__link";

/// The image that belongs to a thread of a listing.
pub const IMAGE_QUERY: &'static str = ".card_topic-start .imagesList_itemImg";

/// The opening post of a thread page.
pub const EXCERPT_QUERY: &'static str = ".card_topic-start .card__comment";

/// One rubric of the index on the root page.
pub const RUBRIC_QUERY: &'static str = "a.sidebar__all-subrubrics-link[href^=\"/relations/\"]";

/// One thread of a rubric page.
pub const MEMBER_QUERY: &'static str = ".list_forum-knowledge .list-item__link";

/// Attribute that holds the address of a link.
pub const HREF: &'static str = "href";

/// Attribute that holds the address of an image.
pub const SRC: &'static str = "src";

/// Attribute that holds the section of a rubric.
pub const SECTION: &'static str = "data-section";

/// The time over which a listing ranks its threads.
#[derive(Clone, Copy, Debug, PartialEq, Eq, Structural)]
pub enum Window {
    Day,
    Week,
    Month,
    AllTime,
}

/// Value of the `sort` parameter that asks for the window's listing.
pub open spec fn spec_sort_key(window: Window) -> Seq<char> {
    match window {
        Window::Day => "1d"@,
        Window::Week => "7d"@,
        Window::Month => "30d"@,
        Window::AllTime => "all"@,
    }
}

/// Address of the window's listing page.
pub open spec fn spec_listing_url(window: Window) -> Seq<char> {
    ORIGIN@ + LISTING_PATH@ + spec_sort_key(window)
}

/// Address of the forum's root page.
pub open spec fn spec_forum_url() -> Seq<char> {
    ORIGIN@ + FORUM_PATH@
}

/// The absolute address of a path that a page of the forum gave.
pub open spec fn spec_resolve(path: Seq<char>) -> Seq<char> {
    ORIGIN@ + path
}

/// Whether `c` is an ASCII letter.
pub open spec fn is_alpha(c: char) -> bool {
    ('a' <= c && c <= 'z') || ('A' <= c && c <= 'Z')
}

/// Whether `c` may stand in the scheme of an address.
pub open spec fn is_scheme_char(c: char) -> bool {
    is_alpha(c) || ('0' <= c && c <= '9') || c == '+' || c == '-' || c == '.'
}

/// Whether the first `k` characters of `s` are a scheme and a colon follows
/// them: a letter first, then letters, digits, `+`, `-` or `.`.
pub open spec fn scheme_ends_at(s: Seq<char>, k: int) -> bool {
    &&& 0 < k < s.len()
    &&& s[k] == ':'
    &&& is_alpha(s[0])
    &&& forall|j: int| 0 <= j < k ==> is_scheme_char(#[trigger] s[j])
}

/// Whether `s` begins with a scheme and a colon.
pub open spec fn has_scheme(s: Seq<char>) -> bool {
    exists|k: int| scheme_ends_at(s, k)
}

/// The address of an image: `src` as it is where it names its scheme, else
/// with the fixed scheme in front.
pub open spec fn spec_resolve_image(src: Seq<char>) -> Seq<char> {
    if has_scheme(src) {
        src
    } else {
        IMAGE_SCHEME@ + src
    }
}

impl Window {
    /// Address of this window's listing page.
    pub fn listing_url(self) -> (url: String)
        ensures
            url@ == spec_listing_url(self),
    {
        let mut url = String::from_str(ORIGIN);
        url.append(LISTING_PATH);
        match self {
            Window::Day => url.append("1d"),
            Window::Week => url.append("7d"),
            Window::Month => url.append("30d"),
            Window::AllTime => url.append("all"),
        }
        url
    }
}

/// Address of the forum's root page.
pub fn forum_url() -> (url: String)
    ensures
        url@ == spec_forum_url(),
{
    let mut url = String::from_str(ORIGIN);
    url.append(FORUM_PATH);
    url
}

/// Resolves a path that a page of the forum gave against the forum's origin.
pub fn resolve(path: &str) -> (url: String)
    ensures
        url@ == spec_resolve(path@),
{
    let mut url = String::from_str(ORIGIN);
    url.append(path);
    url
}

fn is_alpha_char(c: char) -> (b: bool)
    ensures
        b == is_alpha(c),
{
    ('a' <= c && c <= 'z') || ('A' <= c && c <= 'Z')
}

fn is_scheme_member(c: char) -> (b: bool)
    ensures
        b == is_scheme_char(c),
{
    is_alpha_char(c) || ('0' <= c && c <= '9') || c == '+' || c == '-' || c == '.'
}

/// Decides `has_scheme`.
pub fn names_scheme(s: &str) -> (b: bool)
    ensures
        b == has_scheme(s@),
{
    let chars = chars_of(s);
    let mut i: usize = 0;
    while i < chars.len() && is_scheme_member(chars[i])
        invariant
            i <= chars.len(),
            forall|j: int| 0 <= j < i ==> is_scheme_char(#[trigger] chars@[j]),
        decreases chars.len() - i,
    {
        i += 1;
    }
    let found = i > 0 && i < chars.len() && chars[i] == ':' && is_alpha_char(chars[0]);
    proof {
        if found {
            assert(scheme_ends_at(chars@, i as int));
        }
    }
    found
}

/// Resolves the address of an image: it gets the fixed scheme where it names
/// none.
pub fn resolve_image(src: &str) -> (url: String)
    ensures
        url@ == spec_resolve_image(src@),
{
    if names_scheme(src) {
        String::from_str(src)
    } else {
        let mut url = String::from_str(IMAGE_SCHEME);
        url.append(src);
        url
    }
}

} // verus!
