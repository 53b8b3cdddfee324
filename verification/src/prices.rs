use vstd::prelude::*;

use crate::models::{price_rows_view, PriceChangeEvent, PriceChangeEventView, PriceRow, PriceRowView};
use crate::config::PONG_TEXT;
use crate::text::{owned, str_eq};

verus! {

/// The event type of the messages that carry a price change.
pub const PRICE_CHANGE_TYPE: &'static str = "price_change";

/// The row that a price-change message gives, if any.
///
/// A message gives a row exactly when its type is `price_change` and it
/// holds two book entries. The entry whose asset is `up_token` is the Up
/// side when it comes first; otherwise the second entry is taken as Up and
/// the first as Down.
pub open spec fn spec_parse_price_row(
    event: PriceChangeEventView,
    up_token: Seq<char>,
    slug: Seq<char>,
) -> Option<PriceRowView> {
    if event.event_type != PRICE_CHANGE_TYPE@ || event.price_changes.len() != 2 {
        None
    } else {
        let first_is_up = event.price_changes[0].asset_id == up_token;
        let up = if first_is_up { event.price_changes[0] } else { event.price_changes[1] };
        let down = if first_is_up { event.price_changes[1] } else { event.price_changes[0] };
        Some(
            PriceRowView {
                market_slug: slug,
                timestamp: event.timestamp,
                up_bid: up.best_bid,
                up_ask: up.best_ask,
                down_bid: down.best_bid,
                down_ask: down.best_ask,
                side: up.side,
                size: up.size,
            },
        )
    }
}

/// Whether the Up side's best bid or best ask differs from the last one seen.
pub open spec fn spec_price_changed(row: PriceRowView, last_bid: Seq<char>, last_ask: Seq<char>) -> bool {
    row.up_bid != last_bid || row.up_ask != last_ask
}

/// Turns a price-change message into the row to store.
pub fn parse_price_row(event: &PriceChangeEvent, up_token: &str, slug: &str) -> (res: Option<PriceRow>)
    ensures
        res matches Some(row) ==> spec_parse_price_row(event@, up_token@, slug@) == Some(row@),
        res is None ==> spec_parse_price_row(event@, up_token@, slug@) is None,
{
    if !str_eq(event.event_type.as_str(), PRICE_CHANGE_TYPE) || event.price_changes.len() != 2 {
        return None;
    }
    proof {
        assert(event@.price_changes[0] == event.price_changes@[0]@);
        assert(event@.price_changes[1] == event.price_changes@[1]@);
    }
    let first_is_up = str_eq(event.price_changes[0].asset_id.as_str(), up_token);
    let (up_data, down_data) = if first_is_up {
        (&event.price_changes[0], &event.price_changes[1])
    } else {
        (&event.price_changes[1], &event.price_changes[0])
    };
    Some(
        PriceRow {
            market_slug: owned(slug),
            timestamp: event.timestamp.clone(),
            up_bid: up_data.best_bid.clone(),
            up_ask: up_data.best_ask.clone(),
            down_bid: down_data.best_bid.clone(),
            down_ask: down_data.best_ask.clone(),
            side: up_data.side.clone(),
            size: up_data.size.clone(),
        },
    )
}

/// Whether a text frame is the socket's reply to a keep-alive, which
/// carries no price.
pub fn is_pong(text: &str) -> (res: bool)
    ensures
        res == (text@ == PONG_TEXT@),
{
    str_eq(text, PONG_TEXT)
}

/// Whether a row's Up bid or ask differs from the last stored ones.
pub fn price_changed(row: &PriceRow, last_bid: &str, last_ask: &str) -> (res: bool)
    ensures
        res == spec_price_changed(row@, last_bid@, last_ask@),
{
    !str_eq(row.up_bid.as_str(), last_bid) || !str_eq(row.up_ask.as_str(), last_ask)
}

} // verus!

verus! {

/// What became of one price-change message.
#[derive(Debug, Clone, Copy, PartialEq, Eq, Structural)]
pub enum EventOutcome {
    /// Not a two-sided `price_change` message: nothing changes.
    Ignored,
    /// The Up bid and ask are those last stored: the message is counted as skipped.
    Duplicate,
    /// A new row was put in the buffer.
    Buffered,
}

/// The state of a Polymarket stream, as text and numbers.
pub struct MarketStreamView {
    pub slug: Seq<char>,
    pub up_token: Seq<char>,
    pub last_up_bid: Seq<char>,
    pub last_up_ask: Seq<char>,
    pub skipped: nat,
    pub pending: Seq<PriceRowView>,
}

/// The invariant of a stream: every buffered row belongs to the stream's
/// market, no buffered row repeats the Up bid and ask of the row before it,
/// and the last buffered row carries the last stored Up bid and ask.
pub open spec fn stream_wf(s: MarketStreamView) -> bool {
    &&& forall|i: int| 0 <= i < s.pending.len() ==> (#[trigger] s.pending[i]).market_slug == s.slug
    &&& forall|i: int|
        0 < i < s.pending.len() ==> #[trigger] spec_price_changed(
            s.pending[i],
            s.pending[i - 1].up_bid,
            s.pending[i - 1].up_ask,
        )
    &&& s.pending.len() > 0 ==> s.pending.last().up_bid == s.last_up_bid && s.pending.last().up_ask
        == s.last_up_ask
}

/// The effect of one message on a stream.
pub open spec fn spec_step(s: MarketStreamView, event: PriceChangeEventView) -> (MarketStreamView, EventOutcome) {
    match spec_parse_price_row(event, s.up_token, s.slug) {
        None => (s, EventOutcome::Ignored),
        Some(row) => if !spec_price_changed(row, s.last_up_bid, s.last_up_ask) {
            (MarketStreamView { skipped: s.skipped + 1, ..s }, EventOutcome::Duplicate)
        } else {
            (
                MarketStreamView {
                    last_up_bid: row.up_bid,
                    last_up_ask: row.up_ask,
                    pending: s.pending.push(row),
                    ..s
                },
                EventOutcome::Buffered,
            )
        },
    }
}

/// The state after the buffered rows were handed out.
pub open spec fn spec_drained(s: MarketStreamView) -> MarketStreamView {
    MarketStreamView { pending: Seq::empty(), ..s }
}

/// The filtering state of one Polymarket market stream: the rows waiting to
/// be flushed, the last stored Up bid and ask, and the count of skipped
/// duplicates.
pub struct MarketStream {
    slug: String,
    up_token: String,
    last_up_bid: String,
    last_up_ask: String,
    skipped: u64,
    pending: Vec<PriceRow>,
}

impl View for MarketStream {
    type V = MarketStreamView;

    closed spec fn view(&self) -> MarketStreamView {
        MarketStreamView {
            slug: self.slug@,
            up_token: self.up_token@,
            last_up_bid: self.last_up_bid@,
            last_up_ask: self.last_up_ask@,
            skipped: self.skipped as nat,
            pending: price_rows_view(self.pending@),
        }
    }
}

impl MarketStream {
    /// Whether the stream's state meets its invariant.
    pub open spec fn wf(&self) -> bool {
        stream_wf(self@)
    }

    /// A fresh stream for a market, with nothing stored yet.
    pub fn new(slug: &str, up_token: &str) -> (res: MarketStream)
        ensures
            res.wf(),
            res@ == (MarketStreamView {
                slug: slug@,
                up_token: up_token@,
                last_up_bid: Seq::empty(),
                last_up_ask: Seq::empty(),
                skipped: 0,
                pending: Seq::empty(),
            }),
    {
        let res = MarketStream {
            slug: owned(slug),
            up_token: owned(up_token),
            last_up_bid: String::new(),
            last_up_ask: String::new(),
            skipped: 0,
            pending: Vec::new(),
        };
        proof {
            assert(res@.pending =~= Seq::<PriceRowView>::empty());
        }
        res
    }

    /// The row a message would give and what handling it would do, without
    /// handling it.
    fn examine(&self, event: &PriceChangeEvent) -> (res: (Option<PriceRow>, EventOutcome))
        ensures
            res.1 == spec_step(self@, event@).1,
            res.1 == EventOutcome::Buffered <==> res.0 is Some,
            res.0 matches Some(row) ==> spec_parse_price_row(event@, self@.up_token, self@.slug) == Some(row@),
    {
        match parse_price_row(event, self.up_token.as_str(), self.slug.as_str()) {
            None => (None, EventOutcome::Ignored),
            Some(row) => {
                if !price_changed(&row, self.last_up_bid.as_str(), self.last_up_ask.as_str()) {
                    (None, EventOutcome::Duplicate)
                } else {
                    (Some(row), EventOutcome::Buffered)
                }
            },
        }
    }

    /// What handling a message would do: ignore it, count it as a
    /// duplicate, or buffer its row.
    pub fn classify(&self, event: &PriceChangeEvent) -> (outcome: EventOutcome)
        ensures
            outcome == spec_step(self@, event@).1,
    {
        self.examine(event).1
    }

    /// Handles one decoded price-change message: keeps its row when the Up
    /// bid or ask moved, counts it as skipped when they did not.
    pub fn on_event(&mut self, event: &PriceChangeEvent) -> (outcome: EventOutcome)
        requires
            old(self).wf(),
            spec_step(old(self)@, event@).1 == EventOutcome::Duplicate ==> old(self)@.skipped < u64::MAX,
        ensures
            final(self).wf(),
            (final(self)@, outcome) == spec_step(old(self)@, event@),
    {
        let (row, outcome) = self.examine(event);
        match row {
            None => {
                if outcome == EventOutcome::Duplicate {
                    self.skipped = self.skipped + 1;
                }
                outcome
            },
            Some(row) => {
                let ghost old_pending = price_rows_view(self.pending@);
                self.last_up_bid = row.up_bid.clone();
                self.last_up_ask = row.up_ask.clone();
                self.pending.push(row);
                proof {
                    assert(price_rows_view(self.pending@) =~= old_pending.push(row@));
                }
                outcome
            },
        }
    }

    /// Hands out the buffered rows, oldest first, and empties the buffer.
    pub fn take_pending(&mut self) -> (rows: Vec<PriceRow>)
        requires
            old(self).wf(),
        ensures
            final(self).wf(),
            price_rows_view(rows@) == old(self)@.pending,
            final(self)@ == spec_drained(old(self)@),
    {
        let mut rows: Vec<PriceRow> = Vec::new();
        std::mem::swap(&mut rows, &mut self.pending);
        proof {
            assert(price_rows_view(self.pending@) =~= Seq::<PriceRowView>::empty());
        }
        rows
    }

    /// How many messages were skipped as duplicates.
    pub fn skipped(&self) -> (res: u64)
        ensures
            res == self@.skipped,
    {
        self.skipped
    }

    /// How many rows wait to be flushed.
    pub fn pending_len(&self) -> (res: usize)
        ensures
            res == self@.pending.len(),
    {
        self.pending.len()
    }
}

} // verus!

verus! {

/// One thing that can happen to a stream: a decoded message arrives, or the
/// buffer is flushed.
pub enum StreamOp {
    Message(PriceChangeEventView),
    Flush,
}

/// The state after a run of operations, and the rows flushed on the way,
/// in the order in which they were flushed.
pub open spec fn spec_run(s: MarketStreamView, ops: Seq<StreamOp>) -> (MarketStreamView, Seq<PriceRowView>)
    decreases ops.len(),
{
    if ops.len() == 0 {
        (s, Seq::empty())
    } else {
        let (next, flushed) = match ops[0] {
            StreamOp::Message(event) => (spec_step(s, event).0, Seq::<PriceRowView>::empty()),
            StreamOp::Flush => (spec_drained(s), s.pending),
        };
        let (last, rest) = spec_run(next, ops.drop_first());
        (last, flushed + rest)
    }
}

/// The Up bid and ask before row `i`: those of row `i - 1`, or the given
/// starting pair for the first row.
pub open spec fn previous_up_quote(rows: Seq<PriceRowView>, i: int, bid0: Seq<char>, ask0: Seq<char>) -> (Seq<char>, Seq<char>) {
    if i == 0 {
        (bid0, ask0)
    } else {
        (rows[i - 1].up_bid, rows[i - 1].up_ask)
    }
}

/// Every row changes the Up bid or ask with respect to the row before it
/// (the first one with respect to the starting pair).
pub open spec fn changes_only(rows: Seq<PriceRowView>, bid0: Seq<char>, ask0: Seq<char>) -> bool {
    forall|i: int|
        0 <= i < rows.len() ==> #[trigger] spec_price_changed(
            rows[i],
            previous_up_quote(rows, i, bid0, ask0).0,
            previous_up_quote(rows, i, bid0, ask0).1,
        )
}

/// The Up bid and ask of the last row, or the starting pair when there is none.
pub open spec fn last_up_quote(rows: Seq<PriceRowView>, bid0: Seq<char>, ask0: Seq<char>) -> (Seq<char>, Seq<char>) {
    previous_up_quote(rows, rows.len() as int, bid0, ask0)
}

proof fn lemma_run_changes_only(
    s: MarketStreamView,
    ops: Seq<StreamOp>,
    prefix: Seq<PriceRowView>,
    bid0: Seq<char>,
    ask0: Seq<char>,
)
    requires
        stream_wf(s),
        changes_only(prefix + s.pending, bid0, ask0),
        last_up_quote(prefix + s.pending, bid0, ask0) == (s.last_up_bid, s.last_up_ask),
    ensures
        changes_only(prefix + spec_run(s, ops).1 + spec_run(s, ops).0.pending, bid0, ask0),
    decreases ops.len(),
{
    if ops.len() == 0 {
        assert(prefix + spec_run(s, ops).1 =~= prefix);
    } else {
        let rest = ops.drop_first();
        match ops[0] {
            StreamOp::Message(event) => {
                let next = spec_step(s, event).0;
                let all = prefix + s.pending;
                match spec_parse_price_row(event, s.up_token, s.slug) {
                    None => {},
                    Some(row) => {
                        if spec_price_changed(row, s.last_up_bid, s.last_up_ask) {
                            assert(prefix + next.pending =~= all.push(row));
                            let grown = all.push(row);
                            assert forall|i: int| 0 <= i < grown.len() implies #[trigger] spec_price_changed(
                                grown[i],
                                previous_up_quote(grown, i, bid0, ask0).0,
                                previous_up_quote(grown, i, bid0, ask0).1,
                            ) by {
                                if i < all.len() {
                                    assert(grown[i] == all[i]);
                                    assert(previous_up_quote(grown, i, bid0, ask0) == previous_up_quote(all, i, bid0, ask0));
                                    assert(spec_price_changed(
                                        all[i],
                                        previous_up_quote(all, i, bid0, ask0).0,
                                        previous_up_quote(all, i, bid0, ask0).1,
                                    ));
                                }
                            }
                            assert(last_up_quote(grown, bid0, ask0) == (row.up_bid, row.up_ask));
                        }
                    },
                }
                lemma_run_changes_only(next, rest, prefix, bid0, ask0);
                assert(spec_run(s, ops).1 =~= spec_run(next, rest).1);
                assert(prefix + spec_run(s, ops).1 =~= prefix + spec_run(next, rest).1);
            },
            StreamOp::Flush => {
                let next = spec_drained(s);
                let longer = prefix + s.pending;
                assert(longer + next.pending =~= longer);
                lemma_run_changes_only(next, rest, longer, bid0, ask0);
                assert(prefix + spec_run(s, ops).1 =~= longer + spec_run(next, rest).1);
            },
        }
    }
}

/// Only changes are stored: from a fresh stream, whatever messages arrive
/// and however often the buffer is flushed, every row that was flushed or
/// still waits (in that order) differs in its Up bid or Up ask from the row
/// before it, and the first one from the empty pair.
pub proof fn lemma_stored_rows_always_change(slug: Seq<char>, up_token: Seq<char>, ops: Seq<StreamOp>)
    ensures
        ({
            let fresh = MarketStreamView {
                slug,
                up_token,
                last_up_bid: Seq::empty(),
                last_up_ask: Seq::empty(),
                skipped: 0,
                pending: Seq::empty(),
            };
            let (last, flushed) = spec_run(fresh, ops);
            changes_only(flushed + last.pending, Seq::empty(), Seq::empty())
        }),
{
    let fresh = MarketStreamView {
        slug,
        up_token,
        last_up_bid: Seq::empty(),
        last_up_ask: Seq::empty(),
        skipped: 0,
        pending: Seq::empty(),
    };
    let empty = Seq::<PriceRowView>::empty();
    assert(empty + fresh.pending =~= empty);
    lemma_run_changes_only(fresh, ops, empty, Seq::empty(), Seq::empty());
    assert(empty + spec_run(fresh, ops).1 =~= spec_run(fresh, ops).1);
}

/// A repeated message is never stored twice: handling the same message a
/// second time right after the first never buffers a row.
pub proof fn lemma_repeated_message_not_stored(s: MarketStreamView, event: PriceChangeEventView)
    ensures
        spec_step(spec_step(s, event).0, event).1 != EventOutcome::Buffered,
{
}

/// Messages that are not two-sided price changes leave the stream as it was.
pub proof fn lemma_ignored_message_changes_nothing(s: MarketStreamView, event: PriceChangeEventView)
    requires
        spec_parse_price_row(event, s.up_token, s.slug) is None,
    ensures
        spec_step(s, event) == (s, EventOutcome::Ignored),
{
}

/// The order of the two book entries does not matter when exactly one of
/// them belongs to the Up token.
pub proof fn lemma_parse_ignores_entry_order(
    event: PriceChangeEventView,
    up_token: Seq<char>,
    slug: Seq<char>,
)
    requires
        event.price_changes.len() == 2,
        (event.price_changes[0].asset_id == up_token) != (event.price_changes[1].asset_id == up_token),
    ensures
        spec_parse_price_row(event, up_token, slug) == spec_parse_price_row(
            PriceChangeEventView {
                price_changes: seq![event.price_changes[1], event.price_changes[0]],
                ..event
            },
            up_token,
            slug,
        ),
{
}

} // verus!

verus! {

/// The filter keeps every change and only changes: for a message that gives
/// a row, the row is buffered exactly when its Up bid or its Up ask differs
/// from the last stored pair; a buffered row is appended after the rows
/// already waiting and becomes the last stored pair, while a row that is not
/// buffered leaves the buffer and the pair alone and adds one to the skip
/// count.
pub proof fn lemma_step_buffers_exactly_the_changes(s: MarketStreamView, event: PriceChangeEventView)
    requires
        spec_parse_price_row(event, s.up_token, s.slug) is Some,
    ensures
        ({
            let row = spec_parse_price_row(event, s.up_token, s.slug)->0;
            let (next, outcome) = spec_step(s, event);
            &&& (outcome == EventOutcome::Buffered) <==> (row.up_bid != s.last_up_bid || row.up_ask
                != s.last_up_ask)
            &&& outcome == EventOutcome::Buffered || outcome == EventOutcome::Duplicate
            &&& outcome == EventOutcome::Buffered ==> {
                &&& next.pending.len() == s.pending.len() + 1
                &&& next.pending.last() == row
                &&& next.pending.take(s.pending.len() as int) == s.pending
                &&& next.last_up_bid == row.up_bid
                &&& next.last_up_ask == row.up_ask
                &&& next.skipped == s.skipped
            }
            &&& outcome == EventOutcome::Duplicate ==> {
                &&& next.pending == s.pending
                &&& next.last_up_bid == s.last_up_bid
                &&& next.last_up_ask == s.last_up_ask
                &&& next.skipped == s.skipped + 1
            }
            &&& next.slug == s.slug
            &&& next.up_token == s.up_token
        }),
{
    let row = spec_parse_price_row(event, s.up_token, s.slug)->0;
    if spec_step(s, event).1 == EventOutcome::Buffered {
        assert(spec_step(s, event).0.pending.take(s.pending.len() as int) =~= s.pending);
    }
}

/// What a price-change message gives: nothing unless its type is
/// `price_change` and it has exactly two book entries; otherwise a row of
/// the stream's market at the message's time whose Up side is the first
/// entry when that entry is the Up token's, else the second, and whose Down
/// side is the other entry; side and size are those of the Up entry.
pub proof fn lemma_parse_reads_the_right_entries(
    event: PriceChangeEventView,
    up_token: Seq<char>,
    slug: Seq<char>,
)
    ensures
        (event.event_type != PRICE_CHANGE_TYPE@ || event.price_changes.len() != 2) ==> spec_parse_price_row(
            event,
            up_token,
            slug,
        ) is None,
        (event.event_type == PRICE_CHANGE_TYPE@ && event.price_changes.len() == 2) ==> ({
            let up_index: int = if event.price_changes[0].asset_id == up_token { 0 } else { 1 };
            let up = event.price_changes[up_index];
            let down = event.price_changes[1 - up_index];
            spec_parse_price_row(event, up_token, slug) matches Some(row) && row.market_slug == slug
                && row.timestamp == event.timestamp && row.up_bid == up.best_bid && row.up_ask
                == up.best_ask && row.down_bid == down.best_bid && row.down_ask == down.best_ask
                && row.side == up.side && row.size == up.size
        }),
{
}

/// Handing out the buffer empties it and changes nothing else.
pub proof fn lemma_drain_empties_only_the_buffer(s: MarketStreamView)
    ensures
        spec_drained(s).pending.len() == 0,
        spec_drained(s).slug == s.slug,
        spec_drained(s).up_token == s.up_token,
        spec_drained(s).last_up_bid == s.last_up_bid,
        spec_drained(s).last_up_ask == s.last_up_ask,
        spec_drained(s).skipped == s.skipped,
{
}

} // verus!
