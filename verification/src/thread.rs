//! The records that the pages of the forum are read into. Each is made from
//! what a page held, where anything may be missing: a missing piece becomes
//! an empty text or an absent image, never a failure.

use vstd::prelude::*;
use crate::site::{resolve, resolve_image, spec_resolve, spec_resolve_image};

verus! {

/// The view of a text that may be missing.
pub open spec fn text_view(text: Option<String>) -> Option<Seq<char>> {
    match text {
        Some(t) => Some(t@),
        None => None,
    }
}

/// The text, or the empty text where it is missing.
pub open spec fn or_empty(text: Option<Seq<char>>) -> Seq<char> {
    match text {
        Some(t) => t,
        None => Seq::empty(),
    }
}

/// One thread as a listing page shows it.
#[derive(Clone, Debug, PartialEq, Eq)]
pub struct ThreadSummary {
    pub title: String,
    /// Absolute address of the thread; empty where the listing gave none.
    pub link: String,
    /// Absolute address of the thread's image, if the listing showed one.
    pub image_url: Option<String>,
}

/// A `ThreadSummary` as contracts see it.
pub struct SummaryView {
    pub title: Seq<char>,
    pub link: Seq<char>,
    pub image_url: Option<Seq<char>>,
}

impl View for ThreadSummary {
    type V = SummaryView;

    open spec fn view(&self) -> SummaryView {
        SummaryView {
            title: self.title@,
            link: self.link@,
            image_url: text_view(self.image_url),
        }
    }
}

impl DeepView for ThreadSummary {
    type V = SummaryView;

    open spec fn deep_view(&self) -> SummaryView {
        self@
    }
}

/// The summary of a listing item of which the page gave this title, this
/// address of its link and this address of its image.
pub open spec fn spec_summary(
    title: Option<Seq<char>>,
    href: Option<Seq<char>>,
    src: Option<Seq<char>>,
) -> SummaryView {
    SummaryView {
        title: or_empty(title),
        link: match href {
            Some(path) => spec_resolve(path),
            None => Seq::empty(),
        },
        image_url: match src {
            Some(address) => Some(spec_resolve_image(address)),
            None => None,
        },
    }
}

impl ThreadSummary {
    /// Makes the summary of a listing item from what the page gave of it. A
    /// missing title is empty, a missing link address leaves the link empty,
    /// a missing image address leaves the image out.
    pub fn from_parts(title: Option<String>, href: Option<String>, src: Option<String>) -> (summary:
        ThreadSummary)
        ensures
            summary@ == spec_summary(text_view(title), text_view(href), text_view(src)),
    {
        let title = match title {
            Some(t) => t,
            None => String::new(),
        };
        let link = match href {
            Some(path) => resolve(path.as_str()),
            None => String::new(),
        };
        let image_url = match src {
            Some(address) => Some(resolve_image(address.as_str())),
            None => None,
        };
        ThreadSummary { title, link, image_url }
    }
}

/// The text of a thread's opening post; empty where the page held none.
#[derive(Clone, Debug, PartialEq, Eq)]
pub struct ThreadExcerpt {
    pub text: String,
}

impl View for ThreadExcerpt {
    type V = Seq<char>;

    open spec fn view(&self) -> Seq<char> {
        self.text@
    }
}

/// The excerpt of a page whose opening posts hold these texts, in the order
/// given: the last of them counts, and a page without one has an empty
/// excerpt.
pub open spec fn spec_excerpt_of(texts: Seq<Seq<char>>) -> Seq<char> {
    if texts.len() > 0 {
        texts.last()
    } else {
        Seq::empty()
    }
}

impl ThreadExcerpt {
    /// Makes the excerpt of a page from the texts of its opening posts, in
    /// the order in which they were found. The last one counts; without any,
    /// the excerpt is empty.
    pub fn from_candidates(texts: Vec<String>) -> (excerpt: ThreadExcerpt)
        ensures
            excerpt@ == spec_excerpt_of(texts.deep_view()),
    {
        let mut texts = texts;
        match texts.pop() {
            Some(text) => ThreadExcerpt { text },
            None => ThreadExcerpt { text: String::new() },
        }
    }
}

/// One entry of the forum's rubric index.
#[derive(Clone, Debug, PartialEq, Eq)]
pub struct RubricLink {
    pub label: String,
    pub section_id: String,
    /// Path of the rubric's page, relative to the forum's origin.
    pub path: String,
}

/// A `RubricLink` as contracts see it.
pub struct RubricView {
    pub label: Seq<char>,
    pub section_id: Seq<char>,
    pub path: Seq<char>,
}

impl View for RubricLink {
    type V = RubricView;

    open spec fn view(&self) -> RubricView {
        RubricView { label: self.label@, section_id: self.section_id@, path: self.path@ }
    }
}

impl DeepView for RubricLink {
    type V = RubricView;

    open spec fn deep_view(&self) -> RubricView {
        self@
    }
}

/// The rubric of which the index gave this label, this section and this
/// address.
pub open spec fn spec_rubric(
    label: Seq<char>,
    section: Option<Seq<char>>,
    href: Option<Seq<char>>,
) -> RubricView {
    RubricView { label, section_id: or_empty(section), path: or_empty(href) }
}

impl RubricLink {
    /// Makes a rubric from what the index gave of it; what is missing is empty.
    pub fn from_parts(label: String, section: Option<String>, href: Option<String>) -> (rubric:
        RubricLink)
        ensures
            rubric@ == spec_rubric(label@, text_view(section), text_view(href)),
    {
        let section_id = match section {
            Some(s) => s,
            None => String::new(),
        };
        let path = match href {
            Some(p) => p,
            None => String::new(),
        };
        RubricLink { label, section_id, path }
    }

    /// Absolute address of the rubric's page.
    pub fn url(&self) -> (url: String)
        ensures
            url@ == spec_resolve(self@.path),
    {
        resolve(self.path.as_str())
    }
}

/// One thread as a rubric's page lists it.
#[derive(Clone, Debug, PartialEq, Eq)]
pub struct RubricMemberLink {
    pub title: String,
    /// Path of the thread's page, relative to the forum's origin.
    pub path: String,
}

/// A `RubricMemberLink` as contracts see it.
pub struct MemberView {
    pub title: Seq<char>,
    pub path: Seq<char>,
}

impl View for RubricMemberLink {
    type V = MemberView;

    open spec fn view(&self) -> MemberView {
        MemberView { title: self.title@, path: self.path@ }
    }
}

impl DeepView for RubricMemberLink {
    type V = MemberView;

    open spec fn deep_view(&self) -> MemberView {
        self@
    }
}

/// The member of which the rubric's page gave this title and this address.
pub open spec fn spec_member(title: Option<Seq<char>>, href: Option<Seq<char>>) -> MemberView {
    MemberView { title: or_empty(title), path: or_empty(href) }
}

impl RubricMemberLink {
    /// Makes a member from what the rubric's page gave of it; what is missing
    /// is empty.
    pub fn from_parts(title: Option<String>, href: Option<String>) -> (member: RubricMemberLink)
        ensures
            member@ == spec_member(text_view(title), text_view(href)),
    {
        let title = match title {
            Some(t) => t,
            None => String::new(),
        };
        let path = match href {
            Some(p) => p,
            None => String::new(),
        };
        RubricMemberLink { title, path }
    }

    /// Absolute address of the thread's page.
    pub fn url(&self) -> (url: String)
        ensures
            url@ == spec_resolve(self@.path),
    {
        resolve(self.path.as_str())
    }
}

} // verus!
