use vstd::prelude::*;

verus! {

/// One side of a Polymarket `price_change` message: the book of one token.
pub struct PriceChange {
    pub asset_id: String,
    pub price: String,
    pub size: String,
    pub side: String,
    pub best_bid: String,
    pub best_ask: String,
}

/// A message of the Polymarket market channel.
pub struct PriceChangeEvent {
    pub market: String,
    pub price_changes: Vec<PriceChange>,
    pub timestamp: String,
    pub event_type: String,
}

/// What is stored per Polymarket price change.
#[derive(Debug, Clone)]
pub struct PriceRow {
    pub market_slug: String,
    pub timestamp: String,
    pub up_bid: String,
    pub up_ask: String,
    pub down_bid: String,
    pub down_ask: String,
    pub side: String,
    pub size: String,
}

/// A Binance mark-price update.
pub struct BinanceMarkPrice {
    pub event_type: String,
    pub event_time: u64,
    pub symbol: String,
    pub mark_price: String,
    pub index_price: String,
}

/// What is stored per Binance mark-price update.
#[derive(Debug, Clone)]
pub struct BtcPriceRow {
    pub market_slug: String,
    pub timestamp: String,
    pub mark_price: String,
    pub index_price: String,
}

/// The text of a [`PriceChange`].
pub struct PriceChangeView {
    pub asset_id: Seq<char>,
    pub price: Seq<char>,
    pub size: Seq<char>,
    pub side: Seq<char>,
    pub best_bid: Seq<char>,
    pub best_ask: Seq<char>,
}

/// The text of a [`PriceChangeEvent`].
pub struct PriceChangeEventView {
    pub market: Seq<char>,
    pub price_changes: Seq<PriceChangeView>,
    pub timestamp: Seq<char>,
    pub event_type: Seq<char>,
}

/// The text of a [`PriceRow`].
pub struct PriceRowView {
    pub market_slug: Seq<char>,
    pub timestamp: Seq<char>,
    pub up_bid: Seq<char>,
    pub up_ask: Seq<char>,
    pub down_bid: Seq<char>,
    pub down_ask: Seq<char>,
    pub side: Seq<char>,
    pub size: Seq<char>,
}

/// The content of a [`BinanceMarkPrice`].
pub struct BinanceMarkPriceView {
    pub event_type: Seq<char>,
    pub event_time: nat,
    pub symbol: Seq<char>,
    pub mark_price: Seq<char>,
    pub index_price: Seq<char>,
}

/// The text of a [`BtcPriceRow`].
pub struct BtcPriceRowView {
    pub market_slug: Seq<char>,
    pub timestamp: Seq<char>,
    pub mark_price: Seq<char>,
    pub index_price: Seq<char>,
}

impl View for PriceChange {
    type V = PriceChangeView;

    open spec fn view(&self) -> PriceChangeView {
        PriceChangeView {
            asset_id: self.asset_id@,
            price: self.price@,
            size: self.size@,
            side: self.side@,
            best_bid: self.best_bid@,
            best_ask: self.best_ask@,
        }
    }
}

impl View for PriceChangeEvent {
    type V = PriceChangeEventView;

    open spec fn view(&self) -> PriceChangeEventView {
        PriceChangeEventView {
            market: self.market@,
            price_changes: self.price_changes@.map_values(|c: PriceChange| c@),
            timestamp: self.timestamp@,
            event_type: self.event_type@,
        }
    }
}

impl View for PriceRow {
    type V = PriceRowView;

    open spec fn view(&self) -> PriceRowView {
        PriceRowView {
            market_slug: self.market_slug@,
            timestamp: self.timestamp@,
            up_bid: self.up_bid@,
            up_ask: self.up_ask@,
            down_bid: self.down_bid@,
            down_ask: self.down_ask@,
            side: self.side@,
            size: self.size@,
        }
    }
}

impl View for BinanceMarkPrice {
    type V = BinanceMarkPriceView;

    open spec fn view(&self) -> BinanceMarkPriceView {
        BinanceMarkPriceView {
            event_type: self.event_type@,
            event_time: self.event_time as nat,
            symbol: self.symbol@,
            mark_price: self.mark_price@,
            index_price: self.index_price@,
        }
    }
}

impl View for BtcPriceRow {
    type V = BtcPriceRowView;

    open spec fn view(&self) -> BtcPriceRowView {
        BtcPriceRowView {
            market_slug: self.market_slug@,
            timestamp: self.timestamp@,
            mark_price: self.mark_price@,
            index_price: self.index_price@,
        }
    }
}

/// The views of a sequence of price rows.
pub open spec fn price_rows_view(rows: Seq<PriceRow>) -> Seq<PriceRowView> {
    rows.map_values(|r: PriceRow| r@)
}

/// The views of a sequence of BTC price rows.
pub open spec fn btc_rows_view(rows: Seq<BtcPriceRow>) -> Seq<BtcPriceRowView> {
    rows.map_values(|r: BtcPriceRow| r@)
}

} // verus!
