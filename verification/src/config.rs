use vstd::prelude::*;

verus! {

/// Gamma API host that serves market events.
pub const BASE_URL: &'static str = "https://gamma-api.polymarket.com";

/// Slug prefix of the five-minute BTC Up/Down markets.
pub const MARKET_SLUG: &'static str = "btc-updown-5m";

/// Polymarket market-channel websocket.
pub const WS_URL: &'static str = "wss://ws-subscriptions-clob.polymarket.com/ws/market";

/// Binance futures mark-price stream (one update per second).
pub const BINANCE_WS_URL: &'static str = "wss://fstream.binance.com/ws/btcusdt@markPrice@1s";

/// SQLite database file.
pub const DB_PATH: &'static str = "polymarket.db";

/// Seconds between two flushes of buffered rows.
pub const FLUSH_INTERVAL_SECS: u64 = 2;

/// Seconds between two keep-alive pings on the Polymarket socket.
pub const PING_INTERVAL_SECS: u64 = 10;

/// Seconds between two polls for the price to beat.
pub const PRICE_TO_BEAT_POLL_SECS: u64 = 10;

/// Keep-alive text sent to the Polymarket socket.
pub const PING_TEXT: &'static str = "PING";

/// Reply of the Polymarket socket to a keep-alive.
pub const PONG_TEXT: &'static str = "PONG";

} // verus!
