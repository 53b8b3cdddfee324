use vstd::prelude::*;

use crate::decimal::{decimal_string, decimal_text};
use crate::models::{btc_rows_view, BinanceMarkPrice, BinanceMarkPriceView, BtcPriceRow, BtcPriceRowView};
use crate::text::owned;

verus! {

/// The row stored for a Binance mark-price update of the market `slug`:
/// the event time in decimal, and the mark and index prices as sent.
pub open spec fn spec_btc_row(slug: Seq<char>, data: BinanceMarkPriceView) -> BtcPriceRowView {
    BtcPriceRowView {
        market_slug: slug,
        timestamp: decimal_text(data.event_time),
        mark_price: data.mark_price,
        index_price: data.index_price,
    }
}

/// Turns a Binance mark-price update into the row to store.
pub fn btc_price_row(slug: &str, data: &BinanceMarkPrice) -> (row: BtcPriceRow)
    ensures
        row@ == spec_btc_row(slug@, data@),
{
    BtcPriceRow {
        market_slug: owned(slug),
        timestamp: decimal_string(data.event_time),
        mark_price: data.mark_price.clone(),
        index_price: data.index_price.clone(),
    }
}

/// The state of a Binance stream: its market and the rows waiting to be
/// flushed.
pub struct BtcStreamView {
    pub slug: Seq<char>,
    pub pending: Seq<BtcPriceRowView>,
}

/// The rows that one Binance stream collects for one market window.
pub struct BtcStream {
    slug: String,
    pending: Vec<BtcPriceRow>,
}

impl View for BtcStream {
    type V = BtcStreamView;

    closed spec fn view(&self) -> BtcStreamView {
        BtcStreamView { slug: self.slug@, pending: btc_rows_view(self.pending@) }
    }
}

impl BtcStream {
    /// A fresh stream for the market `slug`, with nothing buffered.
    pub fn new(slug: &str) -> (res: BtcStream)
        ensures
            res@ == (BtcStreamView { slug: slug@, pending: Seq::empty() }),
    {
        let res = BtcStream { slug: owned(slug), pending: Vec::new() };
        proof {
            assert(res@.pending =~= Seq::<BtcPriceRowView>::empty());
        }
        res
    }

    /// Buffers the row of one decoded mark-price update.
    pub fn on_mark_price(&mut self, data: &BinanceMarkPrice)
        ensures
            final(self)@ == (BtcStreamView {
                slug: old(self)@.slug,
                pending: old(self)@.pending.push(spec_btc_row(old(self)@.slug, data@)),
            }),
    {
        let row = btc_price_row(self.slug.as_str(), data);
        let ghost before = btc_rows_view(self.pending@);
        self.pending.push(row);
        proof {
            assert(btc_rows_view(self.pending@) =~= before.push(row@));
        }
    }

    /// Hands out the buffered rows, oldest first, and empties the buffer.
    pub fn take_pending(&mut self) -> (rows: Vec<BtcPriceRow>)
        ensures
            btc_rows_view(rows@) == old(self)@.pending,
            final(self)@ == (BtcStreamView { slug: old(self)@.slug, pending: Seq::empty() }),
    {
        let mut rows: Vec<BtcPriceRow> = Vec::new();
        std::mem::swap(&mut rows, &mut self.pending);
        proof {
            assert(btc_rows_view(self.pending@) =~= Seq::<BtcPriceRowView>::empty());
        }
        rows
    }

    /// How many rows wait to be flushed.
    pub fn pending_len(&self) -> (res: usize)
        ensures
            res == self@.pending.len(),
    {
        self.pending.len()
    }
}

} // verus!

verus! {

/// The stored timestamp of a BTC price reads back as the update's event time.
pub proof fn lemma_btc_timestamp_reads_back(slug: Seq<char>, data: BinanceMarkPriceView)
    ensures
        crate::decimal::decimal_value(spec_btc_row(slug, data).timestamp) == data.event_time,
        crate::decimal::all_digits(spec_btc_row(slug, data).timestamp),
{
    crate::decimal::lemma_decimal_text_round_trip(data.event_time);
}

} // verus!

verus! {

/// A BTC row keeps the update's prices as sent and belongs to the stream's
/// market.
pub proof fn lemma_btc_row_keeps_the_update(slug: Seq<char>, data: BinanceMarkPriceView)
    ensures
        spec_btc_row(slug, data).market_slug == slug,
        spec_btc_row(slug, data).mark_price == data.mark_price,
        spec_btc_row(slug, data).index_price == data.index_price,
{
}

} // verus!
