use worumtop::dialect::Dialect;

#[test]
fn html_escape_replaces_three_characters() {
    assert_eq!(Dialect::Html.escape("a < b && c > d"), "a &lt; b &amp;&amp; c &gt; d");
}

#[test]
fn html_escape_leaves_quotes_alone() {
    assert_eq!(Dialect::Html.escape("\"it's\""), "\"it's\"");
}

#[test]
fn html_escape_of_empty_text_is_empty() {
    assert_eq!(Dialect::Html.escape(""), "");
    assert_eq!(Dialect::Markdown.escape(""), "");
}

#[test]
fn markdown_escape_puts_a_backslash_before_each_control_character() {
    assert_eq!(Dialect::Markdown.escape("a_b*c"), "a\\_b\\*c");
    assert_eq!(
        Dialect::Markdown.escape("\\_*[]()~`>#+-=|{}.!"),
        "\\\\\\_\\*\\[\\]\\(\\)\\~\\`\\>\\#\\+\\-\\=\\|\\{\\}\\.\\!"
    );
}

#[test]
fn markdown_escape_leaves_other_characters_alone() {
    assert_eq!(Dialect::Markdown.escape("&<\"' :,;/?@"), "&<\"' :,;/?@");
    assert_eq!(Dialect::Markdown.escape("\u{442}\u{435}\u{43c}\u{430}"), "\u{442}\u{435}\u{43c}\u{430}");
}

#[test]
fn is_control_char_knows_each_dialects_set() {
    for c in ['&', '<', '>'] {
        assert!(Dialect::Html.is_control_char(c));
    }
    for c in ['"', '\'', '_', '*', 'a', ' '] {
        assert!(!Dialect::Html.is_control_char(c));
    }
    for c in "\\_*[]()~`>#+-=|{}.!".chars() {
        assert!(Dialect::Markdown.is_control_char(c));
    }
    for c in ['&', '<', 'a', ' ', ':', '/'] {
        assert!(!Dialect::Markdown.is_control_char(c));
    }
}

#[test]
fn target_escape_differs_from_text_escape_in_markdown_only() {
    assert_eq!(Dialect::Markdown.escape_target("https://x.y/a_(b)\\c"), "https://x.y/a_(b\\)\\\\c");
    assert_eq!(Dialect::Html.escape_target("https://x.y/?a=1&b=<2>"), "https://x.y/?a=1&amp;b=&lt;2&gt;");
    assert!(Dialect::Markdown.is_target_control_char(')'));
    assert!(Dialect::Markdown.is_target_control_char('\\'));
    assert!(!Dialect::Markdown.is_target_control_char('_'));
    assert!(Dialect::Html.is_target_control_char('&'));
}

#[test]
fn bold_wraps_markup_without_escaping_it() {
    assert_eq!(Dialect::Html.bold("a<b"), "<b>a<b</b>");
    assert_eq!(Dialect::Markdown.bold("a*b"), "*a*b*");
}

#[test]
fn italic_wraps_markup_without_escaping_it() {
    assert_eq!(Dialect::Html.italic("hello world"), "<i>hello world</i>");
    assert_eq!(Dialect::Markdown.italic("hello world"), "_hello world_");
    assert_eq!(Dialect::Html.italic(""), "<i></i>");
}

#[test]
fn html_link_escapes_address_and_text() {
    assert_eq!(
        Dialect::Html.link("https://woman.ru/t/1?a=1&b=2", "Tom & Jerry <3"),
        "<a href=\"https://woman.ru/t/1?a=1&amp;b=2\">Tom &amp; Jerry &lt;3</a>"
    );
}

#[test]
fn markdown_link_escapes_address_and_text() {
    assert_eq!(
        Dialect::Markdown.link("https://woman.ru/t/(1)", "A. B!"),
        "[A\\. B\\!](https://woman.ru/t/(1\\))"
    );
}

#[test]
fn html_dialect_agrees_with_teloxide() {
    let samples = [
        "", "plain", "a < b", "&&", "<<>>", "Tom & Jerry", "\"quoted\"", "it's", "\u{442}\u{435}\u{43c}\u{430} <\u{434}\u{43d}\u{44f}>",
        "&amp;", "x\u{1f600}>y",
    ];
    for sample in samples {
        assert_eq!(Dialect::Html.escape(sample), teloxide::utils::html::escape(sample));
        assert_eq!(Dialect::Html.bold(sample), teloxide::utils::html::bold(sample));
        assert_eq!(Dialect::Html.italic(sample), teloxide::utils::html::italic(sample));
        for url in ["https://woman.ru/t/1", "/a?b=1&c=2", "<>"] {
            assert_eq!(Dialect::Html.link(url, sample), teloxide::utils::html::link(url, sample));
        }
    }
}

#[test]
fn markdown_escape_and_bold_agree_with_teloxide() {
    let samples = [
        "", "plain", "a_b", "*x*", "[link](url)", "1 + 1 = 2.", "wow!", "back\\slash", "~`>#-|{}",
        "\u{442}\u{435}\u{43c}\u{430}.", "& < \" '",
    ];
    for sample in samples {
        assert_eq!(Dialect::Markdown.escape(sample), teloxide::utils::markdown::escape(sample));
        assert_eq!(Dialect::Markdown.bold(sample), teloxide::utils::markdown::bold(sample));
    }
}
