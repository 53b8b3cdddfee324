use polymarket_btc::btc::{btc_price_row, BtcStream};
use polymarket_btc::models::{BinanceMarkPrice, BtcPriceRow, PriceRow};
use polymarket_btc::storage::{
    btc_prices_flush_plan, price_rows_flush_plan, schema_statements, BEGIN_SQL, COMMIT_SQL,
    CREATE_EVENTS_TABLE, CREATE_BTC_TIMESTAMP_INDEX, INSERT_BTC_PRICE_SQL, INSERT_PRICE_CHANGE_SQL,
};

fn price_row(ts: &str, bid: &str) -> PriceRow {
    PriceRow {
        market_slug: "btc-updown-5m-1772920200".to_string(),
        timestamp: ts.to_string(),
        up_bid: bid.to_string(),
        up_ask: "0.75".to_string(),
        down_bid: "0.25".to_string(),
        down_ask: "0.26".to_string(),
        side: "SELL".to_string(),
        size: "155.71".to_string(),
    }
}

#[test]
fn schema_has_three_tables_and_three_indexes() {
    let schema = schema_statements();
    assert_eq!(schema.len(), 6);
    assert_eq!(schema[0], CREATE_EVENTS_TABLE);
    assert!(schema[1].starts_with("CREATE TABLE IF NOT EXISTS price_changes"));
    assert!(schema[2].starts_with("CREATE TABLE IF NOT EXISTS btc_prices"));
    assert_eq!(schema[5], CREATE_BTC_TIMESTAMP_INDEX);
}

#[test]
fn price_flush_is_one_transaction() {
    let rows = vec![price_row("1772923411657", "0.74"), price_row("1772923411700", "0.76")];
    let plan = price_rows_flush_plan(&rows);
    assert_eq!(plan.len(), 4);
    assert_eq!(plan[0].sql, BEGIN_SQL);
    assert!(plan[0].params.is_empty());
    assert_eq!(plan[1].sql, INSERT_PRICE_CHANGE_SQL);
    assert_eq!(
        plan[1].params,
        vec!["btc-updown-5m-1772920200", "1772923411657", "0.74", "0.75", "0.25", "0.26", "SELL", "155.71"]
    );
    assert_eq!(plan[2].params[1], "1772923411700");
    assert_eq!(plan[2].params[2], "0.76");
    assert_eq!(plan[3].sql, COMMIT_SQL);
    assert!(plan[3].params.is_empty());
}

#[test]
fn empty_flush_still_opens_and_commits() {
    let plan = price_rows_flush_plan(&[]);
    assert_eq!(plan.len(), 2);
    assert_eq!(plan[0].sql, "BEGIN");
    assert_eq!(plan[1].sql, "COMMIT");
}

#[test]
fn btc_flush_is_one_transaction() {
    let rows = vec![BtcPriceRow {
        market_slug: "s".to_string(),
        timestamp: "1772923411000".to_string(),
        mark_price: "67366.25".to_string(),
        index_price: "67360.10".to_string(),
    }];
    let plan = btc_prices_flush_plan(&rows);
    assert_eq!(plan.len(), 3);
    assert_eq!(plan[1].sql, INSERT_BTC_PRICE_SQL);
    assert_eq!(plan[1].params, vec!["s", "1772923411000", "67366.25", "67360.10"]);
    assert_eq!(plan[2].sql, "COMMIT");
}

fn mark(time: u64, price: &str) -> BinanceMarkPrice {
    BinanceMarkPrice {
        event_type: "markPriceUpdate".to_string(),
        event_time: time,
        symbol: "BTCUSDT".to_string(),
        mark_price: price.to_string(),
        index_price: "67360.10".to_string(),
    }
}

#[test]
fn btc_row_from_mark_price() {
    let row = btc_price_row("btc-updown-5m-1772920200", &mark(1772923411000, "67366.25"));
    assert_eq!(row.market_slug, "btc-updown-5m-1772920200");
    assert_eq!(row.timestamp, "1772923411000");
    assert_eq!(row.mark_price, "67366.25");
    assert_eq!(row.index_price, "67360.10");
}

#[test]
fn btc_stream_buffers_every_update_in_order() {
    let mut stream = BtcStream::new("s");
    stream.on_mark_price(&mark(1, "1.0"));
    stream.on_mark_price(&mark(2, "1.0"));
    assert_eq!(stream.pending_len(), 2);
    let rows = stream.take_pending();
    assert_eq!(rows[0].timestamp, "1");
    assert_eq!(rows[1].timestamp, "2");
    assert_eq!(stream.pending_len(), 0);
    assert!(stream.take_pending().is_empty());
}
