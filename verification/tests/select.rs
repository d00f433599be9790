use worumtop::select::{
    clamp_count, parse_count, pick_index, take_top, SelectionRequest, MAX_COUNT, MIN_COUNT,
};
use worumtop::site::Window;
use worumtop::thread::ThreadSummary;

fn listing_of(n: usize) -> Vec<ThreadSummary> {
    let mut listing = Vec::new();
    for i in 0..n {
        listing.push(ThreadSummary {
            title: format!("T{}", i + 1),
            link: format!("https://woman.ru/t/{}", i + 1),
            image_url: None,
        });
    }
    listing
}

#[test]
fn counts_range_from_one_to_five() {
    assert_eq!(MIN_COUNT, 1);
    assert_eq!(MAX_COUNT, 5);
}

#[test]
fn clamp_count_brings_a_count_into_range() {
    assert_eq!(clamp_count(0), 1);
    assert_eq!(clamp_count(1), 1);
    assert_eq!(clamp_count(3), 3);
    assert_eq!(clamp_count(5), 5);
    assert_eq!(clamp_count(6), 5);
    assert_eq!(clamp_count(usize::MAX), 5);
}

#[test]
fn parse_count_reads_clamps_and_defaults() {
    assert_eq!(parse_count(None), 1);
    assert_eq!(parse_count(Some("3")), 3);
    assert_eq!(parse_count(Some("5")), 5);
    assert_eq!(parse_count(Some("0")), 1);
    assert_eq!(parse_count(Some("9")), 5);
    assert_eq!(parse_count(Some("+4")), 4);
    assert_eq!(parse_count(Some("")), 1);
    assert_eq!(parse_count(Some("three")), 1);
    assert_eq!(parse_count(Some("-2")), 1);
    assert_eq!(parse_count(Some("2.5")), 1);
}

#[test]
fn parse_count_takes_a_number_too_large_for_the_machine_as_no_number() {
    assert_eq!(parse_count(Some("99999999999999999999999999")), 1);
    assert_eq!(parse_count(Some(&format!("{}", usize::MAX))), 5);
}

#[test]
fn a_ranked_request_is_made_with_its_count_in_range() {
    assert_eq!(
        SelectionRequest::ranked(Window::Week, 0),
        SelectionRequest::RankedTopN { window: Window::Week, n: 1 }
    );
    assert_eq!(
        SelectionRequest::ranked(Window::Month, 4),
        SelectionRequest::RankedTopN { window: Window::Month, n: 4 }
    );
    assert_eq!(
        SelectionRequest::ranked(Window::AllTime, 77),
        SelectionRequest::RankedTopN { window: Window::AllTime, n: 5 }
    );
}

#[test]
fn the_daily_request_asks_for_the_best_thread_of_the_day() {
    assert_eq!(SelectionRequest::daily(), SelectionRequest::RankedTopN { window: Window::Day, n: 1 });
}

#[test]
fn top_three_of_five_are_the_first_three_in_order() {
    let listing = listing_of(5);
    let top = take_top(listing.clone(), 3);
    assert_eq!(top, listing[..3].to_vec());
    assert_eq!(top[0].title, "T1");
    assert_eq!(top[1].title, "T2");
    assert_eq!(top[2].title, "T3");
}

#[test]
fn top_three_of_two_are_those_two() {
    let listing = listing_of(2);
    assert_eq!(take_top(listing.clone(), 3), listing);
}

#[test]
fn take_top_at_the_edges() {
    assert_eq!(take_top(listing_of(5), 5), listing_of(5));
    assert_eq!(take_top(listing_of(5), 0), vec![]);
    assert_eq!(take_top(listing_of(0), 3), vec![]);
    assert_eq!(take_top(listing_of(1), 1), listing_of(1));
    assert_eq!(take_top(listing_of(4), usize::MAX), listing_of(4));
}

#[test]
fn pick_index_is_the_draw_modulo_the_count() {
    assert_eq!(pick_index(0, 1), Some(0));
    assert_eq!(pick_index(7, 1), Some(0));
    assert_eq!(pick_index(7, 3), Some(1));
    assert_eq!(pick_index(2, 3), Some(2));
    assert_eq!(pick_index(usize::MAX, 2), Some(1));
    assert_eq!(pick_index(12, 13), Some(12));
}

#[test]
fn pick_index_without_candidates_picks_nothing() {
    assert_eq!(pick_index(0, 0), None);
    assert_eq!(pick_index(12345, 0), None);
    assert_eq!(pick_index(usize::MAX, 0), None);
}
