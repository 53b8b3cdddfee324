use polymarket_btc::decimal::decimal_string;
use polymarket_btc::schedule::{plan_next_window, stream_seconds, WindowPlan};

#[test]
fn decimal_matches_to_string() {
    for n in [0u64, 7, 9, 10, 99, 100, 1772920200, 1772923411657, u64::MAX] {
        assert_eq!(decimal_string(n), n.to_string());
        assert_eq!(decimal_string(n).parse::<u64>().unwrap(), n);
    }
}

#[test]
fn plan_inside_a_window() {
    assert_eq!(plan_next_window(1772920123), WindowPlan { next_window: 1772920200, sleep_secs: 80 });
}

#[test]
fn plan_on_a_window_boundary_waits_a_full_window() {
    assert_eq!(plan_next_window(1772920200), WindowPlan { next_window: 1772920500, sleep_secs: 303 });
}

#[test]
fn plan_just_before_a_boundary() {
    assert_eq!(plan_next_window(1772920499), WindowPlan { next_window: 1772920500, sleep_secs: 4 });
}

#[test]
fn windows_advance_after_waking() {
    let first = plan_next_window(1772920123);
    let second = plan_next_window(first.next_window + 3);
    assert_eq!(second.next_window, first.next_window + 300);
}

#[test]
fn stream_lasts_until_the_window_ends() {
    assert_eq!(stream_seconds(1772920200, 1772920203), 297);
    assert_eq!(stream_seconds(1772920200, 1772920200), 300);
    assert_eq!(stream_seconds(1772920200, 1772920500), 0);
    assert_eq!(stream_seconds(1772920200, 1772921000), 0);
}
