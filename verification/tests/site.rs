use worumtop::site::{forum_url, names_scheme, resolve, resolve_image, Window, ORIGIN};

#[test]
fn origin_is_the_forums_scheme_and_host() {
    assert_eq!(ORIGIN, "https://woman.ru");
}

#[test]
fn each_window_has_its_listing_page() {
    assert_eq!(Window::Day.listing_url(), "https://woman.ru/forum/?sort=1d");
    assert_eq!(Window::Week.listing_url(), "https://woman.ru/forum/?sort=7d");
    assert_eq!(Window::Month.listing_url(), "https://woman.ru/forum/?sort=30d");
    assert_eq!(Window::AllTime.listing_url(), "https://woman.ru/forum/?sort=all");
}

#[test]
fn the_root_page_is_the_forum_itself() {
    assert_eq!(forum_url(), "https://woman.ru/forum");
}

#[test]
fn resolve_puts_the_origin_before_a_path() {
    assert_eq!(resolve("/t/1"), "https://woman.ru/t/1");
    assert_eq!(resolve("/relations/marriage/"), "https://woman.ru/relations/marriage/");
    assert_eq!(resolve(""), "https://woman.ru");
}

#[test]
fn an_image_without_scheme_gets_the_fixed_one() {
    assert_eq!(resolve_image("//cdn.woman.ru/i/1.jpg"), "https://cdn.woman.ru/i/1.jpg");
    assert_eq!(resolve_image("cdn.woman.ru/i/1.jpg"), "https:cdn.woman.ru/i/1.jpg");
    assert_eq!(resolve_image(""), "https:");
}

#[test]
fn an_image_with_scheme_is_left_as_it_is() {
    assert_eq!(resolve_image("https://cdn.woman.ru/i/1.jpg"), "https://cdn.woman.ru/i/1.jpg");
    assert_eq!(resolve_image("http://cdn.woman.ru/i/1.jpg"), "http://cdn.woman.ru/i/1.jpg");
    assert_eq!(resolve_image("data:image/png;base64,AAAA"), "data:image/png;base64,AAAA");
}

#[test]
fn a_scheme_is_a_letter_then_letters_digits_plus_minus_dot_then_a_colon() {
    assert!(names_scheme("https://x"));
    assert!(names_scheme("a:"));
    assert!(names_scheme("svn+ssh://x"));
    assert!(names_scheme("x-1.2:rest"));
    assert!(names_scheme("HTTP://X"));
    assert!(!names_scheme(""));
    assert!(!names_scheme(":"));
    assert!(!names_scheme("//host/path"));
    assert!(!names_scheme("1a:"));
    assert!(!names_scheme("+a:"));
    assert!(!names_scheme("https"));
    assert!(!names_scheme("/path:with/colon"));
    assert!(!names_scheme("a b:c"));
    assert!(!names_scheme("\u{436}:x"));
}
