use worumtop::dialect::Dialect;
use worumtop::normalize::{normalize, truncate, BUDGET, ELLIPSIS};

fn repeat(c: char, n: usize) -> String {
    let mut s = String::new();
    for _ in 0..n {
        s.push(c);
    }
    s
}

#[test]
fn budget_and_ellipsis_are_as_documented() {
    assert_eq!(BUDGET, 140);
    assert_eq!(ELLIPSIS, '\u{2026}');
}

#[test]
fn two_hundred_x_become_140_x_and_one_ellipsis() {
    let raw = repeat('x', 200);
    let expected = format!("{}\u{2026}", repeat('x', 140));
    assert_eq!(normalize(&raw, Dialect::Html), expected);
    assert_eq!(normalize(&raw, Dialect::Markdown), expected);
}

#[test]
fn short_text_is_only_escaped() {
    assert_eq!(normalize("hello world", Dialect::Html), "hello world");
    assert_eq!(normalize("a < b", Dialect::Html), "a &lt; b");
    assert_eq!(normalize("a.b", Dialect::Markdown), "a\\.b");
    assert_eq!(normalize("", Dialect::Html), "");
}

#[test]
fn text_of_exactly_the_budget_is_not_cut() {
    let raw = repeat('y', 140);
    assert_eq!(normalize(&raw, Dialect::Html), raw);
    assert_eq!(truncate(&raw), raw);
}

#[test]
fn text_one_over_the_budget_is_cut() {
    let raw = repeat('y', 141);
    let expected = format!("{}\u{2026}", repeat('y', 140));
    assert_eq!(normalize(&raw, Dialect::Html), expected);
    assert_eq!(truncate(&raw), expected);
}

#[test]
fn the_budget_counts_scalar_values_not_bytes() {
    let raw = repeat('\u{436}', 100);
    assert_eq!(raw.len(), 200);
    assert_eq!(normalize(&raw, Dialect::Html), raw);
}

#[test]
fn cutting_never_splits_a_character() {
    for c in ['\u{e9}', '\u{436}', '\u{20ac}', '\u{1f600}'] {
        let raw = repeat(c, 200);
        let out = normalize(&raw, Dialect::Html);
        assert_eq!(out.chars().count(), 141);
        assert_eq!(out.chars().last(), Some('\u{2026}'));
        assert!(out.chars().take(140).all(|kept| kept == c));
        let decoded = String::from_utf8_lossy(out.as_bytes());
        assert_eq!(decoded, out.as_str());
        assert!(!decoded.contains('\u{fffd}'));
        let kept_bytes = 140 * c.len_utf8();
        assert!(raw.is_char_boundary(kept_bytes));
        assert_eq!(&out.as_bytes()[..kept_bytes], &raw.as_bytes()[..kept_bytes]);
    }
}

#[test]
fn cutting_a_mixed_text_keeps_its_first_140_scalar_values() {
    let mut raw = String::new();
    for i in 0..300 {
        raw.push(if i % 3 == 0 { 'a' } else if i % 3 == 1 { '\u{44f}' } else { '\u{1f600}' });
    }
    let expected: String = raw.chars().take(140).chain(std::iter::once('\u{2026}')).collect();
    assert_eq!(truncate(&raw), expected);
}

#[test]
fn the_budget_counts_the_escaped_text() {
    let raw = repeat('&', 100);
    let out = normalize(&raw, Dialect::Html);
    let expected: String = "&amp;".repeat(28) + "\u{2026}";
    assert_eq!(out, expected);
    assert_eq!(out.chars().count(), 141);
}

#[test]
fn normalized_text_never_exceeds_budget_and_ellipsis() {
    for n in [0usize, 1, 70, 139, 140, 141, 280, 1000] {
        for c in ['x', '&', '_', '\u{1f600}'] {
            let raw = repeat(c, n);
            assert!(normalize(&raw, Dialect::Html).chars().count() <= 141);
            assert!(normalize(&raw, Dialect::Markdown).chars().count() <= 141);
        }
    }
}

#[test]
fn normalizing_short_clean_text_twice_changes_nothing() {
    for text in ["", "hello world", "no control characters here", "\u{442}\u{435}\u{43c}\u{430} \u{434}\u{43d}\u{44f}"] {
        for dialect in [Dialect::Html, Dialect::Markdown] {
            let once = normalize(text, dialect);
            let twice = normalize(&once, dialect);
            assert_eq!(once, text);
            assert_eq!(twice, once);
        }
    }
}

#[test]
fn normalizing_twice_is_not_idempotent_on_control_characters() {
    let once = normalize("a&b", Dialect::Html);
    assert_eq!(once, "a&amp;b");
    assert_eq!(normalize(&once, Dialect::Html), "a&amp;amp;b");
}
