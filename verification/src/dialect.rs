//! The two markup dialects in which a reply can be written, behind one
//! interface: `escape`, `bold`, `italic` and `link`.
//!
//! `Markdown` escapes by putting a backslash before each character of a fixed
//! set. `Html` replaces `&`, `<` and `>` by entities and leaves every other
//! character alone, quotes included.

use vstd::prelude::*;
use crate::text::chars_of;

verus! {

/// A markup convention for outgoing messages.
#[derive(Clone, Copy, Debug, PartialEq, Eq, Structural)]
pub enum Dialect {
    /// Backslash escapes; `*bold*`, `_italic_`, `[text](target)`.
    Markdown,
    /// Entity escapes; `<b>`, `<i>`, `<a href="target">`.
    Html,
}

/// Whether the dialect reads `c` as markup unless it is escaped.
pub open spec fn is_control(d: Dialect, c: char) -> bool {
    match d {
        Dialect::Html => c == '&' || c == '<' || c == '>',
        Dialect::Markdown => c == '\\' || c == '_' || c == '*' || c == '[' || c == ']' || c == '('
            || c == ')' || c == '~' || c == '`' || c == '>' || c == '#' || c == '+' || c == '-'
            || c == '=' || c == '|' || c == '{' || c == '}' || c == '.' || c == '!',
    }
}

/// Whether `c` has to be escaped inside the target of a link.
pub open spec fn is_target_control(d: Dialect, c: char) -> bool {
    match d {
        Dialect::Html => is_control(d, c),
        Dialect::Markdown => c == ')' || c == '\\',
    }
}

/// What stands for `c` in escaped text, given whether `c` has to be escaped.
pub open spec fn replacement(d: Dialect, c: char, escaped: bool) -> Seq<char> {
    if !escaped {
        seq![c]
    } else {
        match d {
            Dialect::Markdown => seq!['\\', c],
            Dialect::Html => if c == '&' {
                "&amp;"@
            } else if c == '<' {
                "&lt;"@
            } else {
                "&gt;"@
            },
        }
    }
}

/// What stands for `c` in running text (`target` false) or in the target of a
/// link (`target` true).
pub open spec fn escape_char(d: Dialect, target: bool, c: char) -> Seq<char> {
    replacement(
        d,
        c,
        if target {
            is_target_control(d, c)
        } else {
            is_control(d, c)
        },
    )
}

/// `s` with each character replaced by what stands for it.
pub open spec fn spec_expand(d: Dialect, target: bool, s: Seq<char>) -> Seq<char>
    decreases s.len(),
{
    if s.len() == 0 {
        Seq::empty()
    } else {
        spec_expand(d, target, s.drop_last()) + escape_char(d, target, s.last())
    }
}

/// `s` escaped so that the dialect shows it literally.
pub open spec fn spec_escape(d: Dialect, s: Seq<char>) -> Seq<char> {
    spec_expand(d, false, s)
}

/// `s` escaped for use as the target of a link.
pub open spec fn spec_escape_target(d: Dialect, s: Seq<char>) -> Seq<char> {
    spec_expand(d, true, s)
}

/// `s`, taken as markup, in bold.
pub open spec fn spec_bold(d: Dialect, s: Seq<char>) -> Seq<char> {
    match d {
        Dialect::Markdown => "*"@ + s + "*"@,
        Dialect::Html => "<b>"@ + s + "</b>"@,
    }
}

/// `s`, taken as markup, in italics.
pub open spec fn spec_italic(d: Dialect, s: Seq<char>) -> Seq<char> {
    match d {
        Dialect::Markdown => "_"@ + s + "_"@,
        Dialect::Html => "<i>"@ + s + "</i>"@,
    }
}

/// A link to `url` that shows `text`; both are plain text and are escaped here.
pub open spec fn spec_link(d: Dialect, url: Seq<char>, text: Seq<char>) -> Seq<char> {
    match d {
        Dialect::Markdown => "["@ + spec_escape(d, text) + "]("@ + spec_escape_target(d, url)
            + ")"@,
        Dialect::Html => "<a href=\""@ + spec_escape_target(d, url) + "\">"@ + spec_escape(d, text)
            + "</a>"@,
    }
}

/// Escaping one more character appends what stands for it.
pub proof fn lemma_expand_push(d: Dialect, target: bool, s: Seq<char>, c: char)
    ensures
        spec_expand(d, target, s.push(c)) == spec_expand(d, target, s) + escape_char(d, target, c),
{
    assert(s.push(c).drop_last() == s);
}

/// Escaped text is never shorter than the text it stands for.
pub proof fn lemma_escape_never_shrinks(d: Dialect, target: bool, s: Seq<char>)
    ensures
        spec_expand(d, target, s).len() >= s.len(),
    decreases s.len(),
{
    reveal_strlit("&amp;");
    reveal_strlit("&lt;");
    reveal_strlit("&gt;");
    if s.len() > 0 {
        lemma_escape_never_shrinks(d, target, s.drop_last());
    }
}

/// Text without control characters is its own escaped form.
pub proof fn lemma_escape_of_clean(d: Dialect, s: Seq<char>)
    requires
        forall|i: int| 0 <= i < s.len() ==> !is_control(d, #[trigger] s[i]),
    ensures
        spec_escape(d, s) == s,
    decreases s.len(),
{
    if s.len() > 0 {
        lemma_escape_of_clean(d, s.drop_last());
    }
}

impl Dialect {
    /// Decides `is_control`.
    pub fn is_control_char(self, c: char) -> (b: bool)
        ensures
            b == is_control(self, c),
    {
        match self {
            Dialect::Html => c == '&' || c == '<' || c == '>',
            Dialect::Markdown => c == '\\' || c == '_' || c == '*' || c == '[' || c == ']' || c
                == '(' || c == ')' || c == '~' || c == '`' || c == '>' || c == '#' || c == '+' || c
                == '-' || c == '=' || c == '|' || c == '{' || c == '}' || c == '.' || c == '!',
        }
    }

    /// Decides `is_target_control`.
    pub fn is_target_control_char(self, c: char) -> (b: bool)
        ensures
            b == is_target_control(self, c),
    {
        match self {
            Dialect::Html => self.is_control_char(c),
            Dialect::Markdown => c == ')' || c == '\\',
        }
    }

    fn expand(self, target: bool, s: &str) -> (out: String)
        ensures
            out@ == spec_expand(self, target, s@),
    {
        let chars = chars_of(s);
        let mut out = String::new();
        let mut i: usize = 0;
        while i < chars.len()
            invariant
                i <= chars.len(),
                chars@ == s@,
                out@ == spec_expand(self, target, chars@.take(i as int)),
            decreases chars.len() - i,
        {
            let c = chars[i];
            let escaped = if target {
                self.is_target_control_char(c)
            } else {
                self.is_control_char(c)
            };
            proof {
                lemma_expand_push(self, target, chars@.take(i as int), c);
                assert(chars@.take(i as int).push(c) == chars@.take(i + 1));
            }
            if !escaped {
                out.push(c);
            } else {
                match self {
                    Dialect::Markdown => {
                        out.push('\\');
                        out.push(c);
                    },
                    Dialect::Html => {
                        if c == '&' {
                            out.append("&amp;");
                        } else if c == '<' {
                            out.append("&lt;");
                        } else {
                            out.append("&gt;");
                        }
                    },
                }
            }
            i += 1;
        }
        assert(chars@.take(chars.len() as int) == chars@);
        out
    }

    /// Escapes `s` so that the dialect shows it literally.
    pub fn escape(self, s: &str) -> (out: String)
        ensures
            out@ == spec_escape(self, s@),
    {
        self.expand(false, s)
    }

    /// Escapes `s` for use as the target of a link.
    pub fn escape_target(self, s: &str) -> (out: String)
        ensures
            out@ == spec_escape_target(self, s@),
    {
        self.expand(true, s)
    }

    /// Puts markup `s` in bold. `s` is not escaped: it may hold markup itself.
    pub fn bold(self, s: &str) -> (out: String)
        ensures
            out@ == spec_bold(self, s@),
    {
        match self {
            Dialect::Markdown => {
                let mut out = String::from_str("*");
                out.append(s);
                out.append("*");
                out
            },
            Dialect::Html => {
                let mut out = String::from_str("<b>");
                out.append(s);
                out.append("</b>");
                out
            },
        }
    }

    /// Puts markup `s` in italics. `s` is not escaped: it may hold markup itself.
    pub fn italic(self, s: &str) -> (out: String)
        ensures
            out@ == spec_italic(self, s@),
    {
        match self {
            Dialect::Markdown => {
                let mut out = String::from_str("_");
                out.append(s);
                out.append("_");
                out
            },
            Dialect::Html => {
                let mut out = String::from_str("<i>");
                out.append(s);
                out.append("</i>");
                out
            },
        }
    }

    /// Builds a link to `url` that shows `text`, escaping both.
    pub fn link(self, url: &str, text: &str) -> (out: String)
        ensures
            out@ == spec_link(self, url@, text@),
    {
        let target = self.escape_target(url);
        let shown = self.escape(text);
        match self {
            Dialect::Markdown => {
                let mut out = String::from_str("[");
                out.append(shown.as_str());
                out.append("](");
                out.append(target.as_str());
                out.append(")");
                out
            },
            Dialect::Html => {
                let mut out = String::from_str("<a href=\"");
                out.append(target.as_str());
                out.append("\">");
                out.append(shown.as_str());
                out.append("</a>");
                out
            },
        }
    }
}

} // verus!
