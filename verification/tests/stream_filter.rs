use polymarket_btc::models::{PriceChange, PriceChangeEvent, PriceRow};
use polymarket_btc::prices::{is_pong, parse_price_row, price_changed, EventOutcome, MarketStream};

fn change(asset: &str, bid: &str, ask: &str, side: &str, size: &str) -> PriceChange {
    PriceChange {
        asset_id: asset.to_string(),
        price: "0.5".to_string(),
        size: size.to_string(),
        side: side.to_string(),
        best_bid: bid.to_string(),
        best_ask: ask.to_string(),
    }
}

fn event(kind: &str, changes: Vec<PriceChange>, ts: &str) -> PriceChangeEvent {
    PriceChangeEvent {
        market: "0xabc".to_string(),
        price_changes: changes,
        timestamp: ts.to_string(),
        event_type: kind.to_string(),
    }
}

fn quote(up_bid: &str, up_ask: &str, ts: &str) -> PriceChangeEvent {
    event(
        "price_change",
        vec![change("UP", up_bid, up_ask, "BUY", "10"), change("DOWN", "0.25", "0.26", "SELL", "5")],
        ts,
    )
}

#[test]
fn parse_takes_up_side_from_first_entry() {
    let ev = event(
        "price_change",
        vec![change("UP", "0.74", "0.75", "SELL", "155.71"), change("DOWN", "0.25", "0.26", "BUY", "3")],
        "1772923411657",
    );
    let row = parse_price_row(&ev, "UP", "btc-updown-5m-1772920200").unwrap();
    assert_eq!(row.market_slug, "btc-updown-5m-1772920200");
    assert_eq!(row.timestamp, "1772923411657");
    assert_eq!(row.up_bid, "0.74");
    assert_eq!(row.up_ask, "0.75");
    assert_eq!(row.down_bid, "0.25");
    assert_eq!(row.down_ask, "0.26");
    assert_eq!(row.side, "SELL");
    assert_eq!(row.size, "155.71");
}

#[test]
fn parse_takes_up_side_from_second_entry() {
    let ev = event(
        "price_change",
        vec![change("DOWN", "0.25", "0.26", "BUY", "3"), change("UP", "0.74", "0.75", "SELL", "155.71")],
        "1",
    );
    let row = parse_price_row(&ev, "UP", "slug").unwrap();
    assert_eq!(row.up_bid, "0.74");
    assert_eq!(row.up_ask, "0.75");
    assert_eq!(row.down_bid, "0.25");
    assert_eq!(row.down_ask, "0.26");
    assert_eq!(row.side, "SELL");
    assert_eq!(row.size, "155.71");
}

#[test]
fn parse_without_up_token_takes_second_entry_as_up() {
    let ev = event(
        "price_change",
        vec![change("A", "0.1", "0.2", "BUY", "1"), change("B", "0.8", "0.9", "SELL", "2")],
        "1",
    );
    let row = parse_price_row(&ev, "UP", "slug").unwrap();
    assert_eq!(row.up_bid, "0.8");
    assert_eq!(row.down_bid, "0.1");
}

#[test]
fn parse_rejects_other_event_types() {
    let ev = event(
        "book",
        vec![change("UP", "0.74", "0.75", "SELL", "1"), change("DOWN", "0.25", "0.26", "BUY", "1")],
        "1",
    );
    assert!(parse_price_row(&ev, "UP", "slug").is_none());
}

#[test]
fn parse_rejects_wrong_entry_counts() {
    let one = event("price_change", vec![change("UP", "0.74", "0.75", "SELL", "1")], "1");
    assert!(parse_price_row(&one, "UP", "slug").is_none());
    let three = event(
        "price_change",
        vec![
            change("UP", "0.74", "0.75", "SELL", "1"),
            change("DOWN", "0.25", "0.26", "BUY", "1"),
            change("DOWN", "0.25", "0.26", "BUY", "1"),
        ],
        "1",
    );
    assert!(parse_price_row(&three, "UP", "slug").is_none());
    let none = event("price_change", vec![], "1");
    assert!(parse_price_row(&none, "UP", "slug").is_none());
}

fn row(bid: &str, ask: &str) -> PriceRow {
    PriceRow {
        market_slug: "s".to_string(),
        timestamp: "1".to_string(),
        up_bid: bid.to_string(),
        up_ask: ask.to_string(),
        down_bid: "0.2".to_string(),
        down_ask: "0.3".to_string(),
        side: "BUY".to_string(),
        size: "1".to_string(),
    }
}

#[test]
fn price_changed_compares_up_bid_and_ask_only() {
    assert!(!price_changed(&row("0.74", "0.75"), "0.74", "0.75"));
    assert!(price_changed(&row("0.74", "0.75"), "0.73", "0.75"));
    assert!(price_changed(&row("0.74", "0.75"), "0.74", "0.76"));
    assert!(price_changed(&row("0.74", "0.75"), "", ""));
    let mut other_down = row("0.74", "0.75");
    other_down.down_bid = "0.99".to_string();
    assert!(!price_changed(&other_down, "0.74", "0.75"));
}

#[test]
fn pong_frames_are_recognised() {
    assert!(is_pong("PONG"));
    assert!(!is_pong("PING"));
    assert!(!is_pong("pong"));
    assert!(!is_pong(""));
}

#[test]
fn stream_keeps_only_changes() {
    let mut stream = MarketStream::new("btc-updown-5m-1772920200", "UP");
    assert_eq!(stream.on_event(&quote("0.74", "0.75", "1")), EventOutcome::Buffered);
    assert_eq!(stream.on_event(&quote("0.74", "0.75", "2")), EventOutcome::Duplicate);
    assert_eq!(stream.on_event(&quote("0.74", "0.75", "3")), EventOutcome::Duplicate);
    assert_eq!(stream.on_event(&quote("0.76", "0.75", "4")), EventOutcome::Buffered);
    assert_eq!(stream.on_event(&quote("0.74", "0.75", "5")), EventOutcome::Buffered);
    assert_eq!(stream.skipped(), 2);
    assert_eq!(stream.pending_len(), 3);
    let rows = stream.take_pending();
    let stamps: Vec<&str> = rows.iter().map(|r| r.timestamp.as_str()).collect();
    assert_eq!(stamps, vec!["1", "4", "5"]);
    assert!(rows.iter().all(|r| r.market_slug == "btc-updown-5m-1772920200"));
    assert_eq!(stream.pending_len(), 0);
}

#[test]
fn stream_remembers_last_quote_across_flushes() {
    let mut stream = MarketStream::new("s", "UP");
    assert_eq!(stream.on_event(&quote("0.5", "0.6", "1")), EventOutcome::Buffered);
    assert_eq!(stream.take_pending().len(), 1);
    assert_eq!(stream.on_event(&quote("0.5", "0.6", "2")), EventOutcome::Duplicate);
    assert_eq!(stream.pending_len(), 0);
    assert_eq!(stream.skipped(), 1);
}

#[test]
fn stream_ignores_messages_without_two_sides() {
    let mut stream = MarketStream::new("s", "UP");
    let other = event("last_trade_price", vec![change("UP", "0.5", "0.6", "BUY", "1")], "1");
    assert_eq!(stream.on_event(&other), EventOutcome::Ignored);
    assert_eq!(stream.skipped(), 0);
    assert_eq!(stream.pending_len(), 0);
}

#[test]
fn first_quote_with_empty_prices_is_a_duplicate() {
    let mut stream = MarketStream::new("s", "UP");
    assert_eq!(stream.on_event(&quote("", "", "1")), EventOutcome::Duplicate);
    assert_eq!(stream.skipped(), 1);
}

#[test]
fn repeated_message_is_not_stored_twice() {
    let mut stream = MarketStream::new("s", "UP");
    let ev = quote("0.31", "0.33", "9");
    assert_eq!(stream.on_event(&ev), EventOutcome::Buffered);
    assert_eq!(stream.on_event(&ev), EventOutcome::Duplicate);
}

#[test]
fn classify_predicts_without_changing() {
    let mut stream = MarketStream::new("s", "UP");
    let ev = quote("0.31", "0.33", "9");
    assert_eq!(stream.classify(&ev), EventOutcome::Buffered);
    assert_eq!(stream.pending_len(), 0);
    assert_eq!(stream.on_event(&ev), EventOutcome::Buffered);
    assert_eq!(stream.classify(&ev), EventOutcome::Duplicate);
    assert_eq!(stream.skipped(), 0);
    let other = event("book", vec![], "1");
    assert_eq!(stream.classify(&other), EventOutcome::Ignored);
}
