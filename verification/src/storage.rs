use vstd::prelude::*;

use crate::models::{BtcPriceRow, BtcPriceRowView, PriceRow, PriceRowView};
use crate::text::owned;

verus! {

/// Table of market windows, one row per event of the REST API.
pub const CREATE_EVENTS_TABLE: &'static str = "CREATE TABLE IF NOT EXISTS events (
            id INTEGER PRIMARY KEY AUTOINCREMENT,
            market_slug TEXT NOT NULL UNIQUE,
            title TEXT,
            start_time TEXT,
            end_time TEXT,
            price_to_beat REAL,
            up_token_id TEXT NOT NULL,
            down_token_id TEXT NOT NULL
        )";

/// Table of the Polymarket price changes that were kept.
pub const CREATE_PRICE_CHANGES_TABLE: &'static str = "CREATE TABLE IF NOT EXISTS price_changes (
            id INTEGER PRIMARY KEY AUTOINCREMENT,
            market_slug TEXT NOT NULL,
            timestamp TEXT NOT NULL,
            up_bid TEXT NOT NULL,
            up_ask TEXT NOT NULL,
            down_bid TEXT NOT NULL,
            down_ask TEXT NOT NULL,
            side TEXT NOT NULL,
            size TEXT NOT NULL
        )";

/// Table of the Binance BTC prices.
pub const CREATE_BTC_PRICES_TABLE: &'static str = "CREATE TABLE IF NOT EXISTS btc_prices (
            id INTEGER PRIMARY KEY AUTOINCREMENT,
            market_slug TEXT NOT NULL,
            timestamp TEXT NOT NULL,
            mark_price TEXT NOT NULL,
            index_price TEXT NOT NULL
        )";

/// Index of price changes by market.
pub const CREATE_SLUG_INDEX: &'static str = "CREATE INDEX IF NOT EXISTS idx_slug ON price_changes(market_slug)";

/// Index of price changes by time.
pub const CREATE_TIMESTAMP_INDEX: &'static str = "CREATE INDEX IF NOT EXISTS idx_timestamp ON price_changes(timestamp)";

/// Index of BTC prices by time.
pub const CREATE_BTC_TIMESTAMP_INDEX: &'static str = "CREATE INDEX IF NOT EXISTS idx_btc_timestamp ON btc_prices(timestamp)";

/// Records a market window once (a second insert of the same slug is ignored).
pub const INSERT_EVENT_SQL: &'static str = "INSERT OR IGNORE INTO events (market_slug, title, start_time, end_time, price_to_beat, up_token_id, down_token_id)
         VALUES (?1, ?2, ?3, ?4, ?5, ?6, ?7)";

/// Sets the price to beat of a market window.
pub const UPDATE_PRICE_TO_BEAT_SQL: &'static str = "UPDATE events SET price_to_beat = ?1 WHERE market_slug = ?2";

/// Stores one Polymarket price change.
pub const INSERT_PRICE_CHANGE_SQL: &'static str = "INSERT INTO price_changes (market_slug, timestamp, up_bid, up_ask, down_bid, down_ask, side, size)
             VALUES (?1, ?2, ?3, ?4, ?5, ?6, ?7, ?8)";

/// Stores one Binance BTC price.
pub const INSERT_BTC_PRICE_SQL: &'static str = "INSERT INTO btc_prices (market_slug, timestamp, mark_price, index_price)
             VALUES (?1, ?2, ?3, ?4)";

/// Opens a transaction.
pub const BEGIN_SQL: &'static str = "BEGIN";

/// Commits a transaction.
pub const COMMIT_SQL: &'static str = "COMMIT";

/// One SQL statement with its positional text parameters.
pub struct SqlStatement {
    pub sql: String,
    pub params: Vec<String>,
}

/// The text of a [`SqlStatement`].
pub struct SqlStatementView {
    pub sql: Seq<char>,
    pub params: Seq<Seq<char>>,
}

impl View for SqlStatement {
    type V = SqlStatementView;

    open spec fn view(&self) -> SqlStatementView {
        SqlStatementView { sql: self.sql@, params: strings_view(self.params@) }
    }
}

/// The text of each string.
pub open spec fn strings_view(strings: Seq<String>) -> Seq<Seq<char>> {
    strings.map_values(|s: String| s@)
}

/// The text of each statement.
pub open spec fn statements_view(statements: Seq<SqlStatement>) -> Seq<SqlStatementView> {
    statements.map_values(|s: SqlStatement| s@)
}

/// The statements that create the tables and indexes, in the order in which
/// they run when the database is opened.
pub open spec fn spec_schema() -> Seq<Seq<char>> {
    seq![
        CREATE_EVENTS_TABLE@,
        CREATE_PRICE_CHANGES_TABLE@,
        CREATE_BTC_PRICES_TABLE@,
        CREATE_SLUG_INDEX@,
        CREATE_TIMESTAMP_INDEX@,
        CREATE_BTC_TIMESTAMP_INDEX@,
    ]
}

/// The statements that set up the database.
pub fn schema_statements() -> (res: Vec<String>)
    ensures
        strings_view(res@) == spec_schema(),
{
    let mut res: Vec<String> = Vec::new();
    res.push(owned(CREATE_EVENTS_TABLE));
    res.push(owned(CREATE_PRICE_CHANGES_TABLE));
    res.push(owned(CREATE_BTC_PRICES_TABLE));
    res.push(owned(CREATE_SLUG_INDEX));
    res.push(owned(CREATE_TIMESTAMP_INDEX));
    res.push(owned(CREATE_BTC_TIMESTAMP_INDEX));
    proof {
        assert(strings_view(res@) =~= spec_schema());
    }
    res
}

/// A statement without parameters.
pub open spec fn spec_bare(sql: Seq<char>) -> SqlStatementView {
    SqlStatementView { sql, params: Seq::empty() }
}

/// The insert of one price row: its eight columns in table order.
pub open spec fn spec_price_row_insert(row: PriceRowView) -> SqlStatementView {
    SqlStatementView {
        sql: INSERT_PRICE_CHANGE_SQL@,
        params: seq![
            row.market_slug,
            row.timestamp,
            row.up_bid,
            row.up_ask,
            row.down_bid,
            row.down_ask,
            row.side,
            row.size,
        ],
    }
}

/// The insert of one BTC price row: its four columns in table order.
pub open spec fn spec_btc_row_insert(row: BtcPriceRowView) -> SqlStatementView {
    SqlStatementView {
        sql: INSERT_BTC_PRICE_SQL@,
        params: seq![row.market_slug, row.timestamp, row.mark_price, row.index_price],
    }
}

/// One transaction around a run of inserts.
pub open spec fn spec_transaction(inserts: Seq<SqlStatementView>) -> Seq<SqlStatementView> {
    seq![spec_bare(BEGIN_SQL@)] + inserts + seq![spec_bare(COMMIT_SQL@)]
}

/// The statements that flush price rows: one transaction with an insert
/// per row, in the order of the rows.
pub open spec fn spec_price_flush(rows: Seq<PriceRowView>) -> Seq<SqlStatementView> {
    spec_transaction(rows.map_values(|r: PriceRowView| spec_price_row_insert(r)))
}

/// The statements that flush BTC price rows: one transaction with an
/// insert per row, in the order of the rows.
pub open spec fn spec_btc_flush(rows: Seq<BtcPriceRowView>) -> Seq<SqlStatementView> {
    spec_transaction(rows.map_values(|r: BtcPriceRowView| spec_btc_row_insert(r)))
}

fn bare_statement(sql: &str) -> (res: SqlStatement)
    ensures
        res@ == spec_bare(sql@),
{
    let res = SqlStatement { sql: owned(sql), params: Vec::new() };
    proof {
        assert(res@.params =~= Seq::<Seq<char>>::empty());
    }
    res
}

/// The insert statement of one price row.
pub fn price_row_insert(row: &PriceRow) -> (res: SqlStatement)
    ensures
        res@ == spec_price_row_insert(row@),
{
    let mut params: Vec<String> = Vec::new();
    params.push(row.market_slug.clone());
    params.push(row.timestamp.clone());
    params.push(row.up_bid.clone());
    params.push(row.up_ask.clone());
    params.push(row.down_bid.clone());
    params.push(row.down_ask.clone());
    params.push(row.side.clone());
    params.push(row.size.clone());
    let res = SqlStatement { sql: owned(INSERT_PRICE_CHANGE_SQL), params };
    proof {
        assert(res@.params =~= spec_price_row_insert(row@).params);
    }
    res
}

/// The insert statement of one BTC price row.
pub fn btc_row_insert(row: &BtcPriceRow) -> (res: SqlStatement)
    ensures
        res@ == spec_btc_row_insert(row@),
{
    let mut params: Vec<String> = Vec::new();
    params.push(row.market_slug.clone());
    params.push(row.timestamp.clone());
    params.push(row.mark_price.clone());
    params.push(row.index_price.clone());
    let res = SqlStatement { sql: owned(INSERT_BTC_PRICE_SQL), params };
    proof {
        assert(res@.params =~= spec_btc_row_insert(row@).params);
    }
    res
}

/// The statements that write a batch of price rows in one transaction.
pub fn price_rows_flush_plan(rows: &[PriceRow]) -> (plan: Vec<SqlStatement>)
    ensures
        statements_view(plan@) == spec_price_flush(rows@.map_values(|r: PriceRow| r@)),
{
    let ghost views = rows@.map_values(|r: PriceRow| r@);
    let ghost inserts = views.map_values(|r: PriceRowView| spec_price_row_insert(r));
    let mut plan: Vec<SqlStatement> = Vec::new();
    plan.push(bare_statement(BEGIN_SQL));
    let mut i: usize = 0;
    while i < rows.len()
        invariant
            i <= rows.len(),
            views == rows@.map_values(|r: PriceRow| r@),
            inserts == views.map_values(|r: PriceRowView| spec_price_row_insert(r)),
            statements_view(plan@) =~= seq![spec_bare(BEGIN_SQL@)] + inserts.take(i as int),
        decreases rows.len() - i,
    {
        let ghost before = plan@;
        let statement = price_row_insert(&rows[i]);
        proof {
            assert(views[i as int] == rows@[i as int]@);
            assert(statement@ == inserts[i as int]);
        }
        plan.push(statement);
        proof {
            assert(statements_view(plan@) =~= statements_view(before).push(inserts[i as int]));
            assert(inserts.take(i + 1) =~= inserts.take(i as int).push(inserts[i as int]));
        }
        i = i + 1;
    }
    plan.push(bare_statement(COMMIT_SQL));
    proof {
        assert(inserts.take(rows.len() as int) =~= inserts);
    }
    plan
}

/// The statements that write a batch of BTC price rows in one transaction.
pub fn btc_prices_flush_plan(rows: &[BtcPriceRow]) -> (plan: Vec<SqlStatement>)
    ensures
        statements_view(plan@) == spec_btc_flush(rows@.map_values(|r: BtcPriceRow| r@)),
{
    let ghost views = rows@.map_values(|r: BtcPriceRow| r@);
    let ghost inserts = views.map_values(|r: BtcPriceRowView| spec_btc_row_insert(r));
    let mut plan: Vec<SqlStatement> = Vec::new();
    plan.push(bare_statement(BEGIN_SQL));
    let mut i: usize = 0;
    while i < rows.len()
        invariant
            i <= rows.len(),
            views == rows@.map_values(|r: BtcPriceRow| r@),
            inserts == views.map_values(|r: BtcPriceRowView| spec_btc_row_insert(r)),
            statements_view(plan@) =~= seq![spec_bare(BEGIN_SQL@)] + inserts.take(i as int),
        decreases rows.len() - i,
    {
        let ghost before = plan@;
        let statement = btc_row_insert(&rows[i]);
        proof {
            assert(views[i as int] == rows@[i as int]@);
            assert(statement@ == inserts[i as int]);
        }
        plan.push(statement);
        proof {
            assert(statements_view(plan@) =~= statements_view(before).push(inserts[i as int]));
            assert(inserts.take(i + 1) =~= inserts.take(i as int).push(inserts[i as int]));
        }
        i = i + 1;
    }
    plan.push(bare_statement(COMMIT_SQL));
    proof {
        assert(inserts.take(rows.len() as int) =~= inserts);
    }
    plan
}

} // verus!

verus! {

/// A flush of price rows writes every row once, in order, inside one
/// transaction: `BEGIN`, then for each row `i` the price-change insert with
/// that row's eight columns in table order, then `COMMIT`, whatever the
/// rows hold.
pub proof fn lemma_price_flush_writes_every_row(rows: Seq<PriceRowView>)
    ensures
        ({
            let plan = spec_price_flush(rows);
            &&& plan.len() == rows.len() + 2
            &&& plan[0].sql == BEGIN_SQL@ && plan[0].params.len() == 0
            &&& plan[plan.len() - 1].sql == COMMIT_SQL@ && plan[plan.len() - 1].params.len() == 0
            &&& forall|i: int|
                0 <= i < rows.len() ==> {
                    &&& (#[trigger] plan[i + 1]).sql == INSERT_PRICE_CHANGE_SQL@
                    &&& plan[i + 1].params.len() == 8
                    &&& plan[i + 1].params[0] == rows[i].market_slug
                    &&& plan[i + 1].params[1] == rows[i].timestamp
                    &&& plan[i + 1].params[2] == rows[i].up_bid
                    &&& plan[i + 1].params[3] == rows[i].up_ask
                    &&& plan[i + 1].params[4] == rows[i].down_bid
                    &&& plan[i + 1].params[5] == rows[i].down_ask
                    &&& plan[i + 1].params[6] == rows[i].side
                    &&& plan[i + 1].params[7] == rows[i].size
                }
        }),
{
    let plan = spec_price_flush(rows);
    let inserts = rows.map_values(|r: PriceRowView| spec_price_row_insert(r));
    assert forall|i: int| 0 <= i < rows.len() implies (#[trigger] plan[i + 1]) == inserts[i] by {}
}

/// A flush of BTC price rows writes every row once, in order, inside one
/// transaction: `BEGIN`, then for each row `i` the BTC-price insert with
/// that row's four columns in table order, then `COMMIT`.
pub proof fn lemma_btc_flush_writes_every_row(rows: Seq<BtcPriceRowView>)
    ensures
        ({
            let plan = spec_btc_flush(rows);
            &&& plan.len() == rows.len() + 2
            &&& plan[0].sql == BEGIN_SQL@ && plan[0].params.len() == 0
            &&& plan[plan.len() - 1].sql == COMMIT_SQL@ && plan[plan.len() - 1].params.len() == 0
            &&& forall|i: int|
                0 <= i < rows.len() ==> {
                    &&& (#[trigger] plan[i + 1]).sql == INSERT_BTC_PRICE_SQL@
                    &&& plan[i + 1].params.len() == 4
                    &&& plan[i + 1].params[0] == rows[i].market_slug
                    &&& plan[i + 1].params[1] == rows[i].timestamp
                    &&& plan[i + 1].params[2] == rows[i].mark_price
                    &&& plan[i + 1].params[3] == rows[i].index_price
                }
        }),
{
    let plan = spec_btc_flush(rows);
    let inserts = rows.map_values(|r: BtcPriceRowView| spec_btc_row_insert(r));
    assert forall|i: int| 0 <= i < rows.len() implies (#[trigger] plan[i + 1]) == inserts[i] by {}
}

/// Setting up the database runs six statements: the events, price_changes
/// and btc_prices tables, then the idx_slug, idx_timestamp and
/// idx_btc_timestamp indexes, each exactly once and in that order.
pub proof fn lemma_schema_creates_each_object_once()
    ensures
        spec_schema().len() == 6,
        spec_schema()[0] == CREATE_EVENTS_TABLE@,
        spec_schema()[1] == CREATE_PRICE_CHANGES_TABLE@,
        spec_schema()[2] == CREATE_BTC_PRICES_TABLE@,
        spec_schema()[3] == CREATE_SLUG_INDEX@,
        spec_schema()[4] == CREATE_TIMESTAMP_INDEX@,
        spec_schema()[5] == CREATE_BTC_TIMESTAMP_INDEX@,
        spec_schema().no_duplicates(),
{
    reveal_strlit("CREATE INDEX IF NOT EXISTS idx_slug ON price_changes(market_slug)");
    reveal_strlit("CREATE INDEX IF NOT EXISTS idx_timestamp ON price_changes(timestamp)");
    reveal_strlit("CREATE INDEX IF NOT EXISTS idx_btc_timestamp ON btc_prices(timestamp)");
    reveal_strlit("CREATE TABLE IF NOT EXISTS events (
            id INTEGER PRIMARY KEY AUTOINCREMENT,
            market_slug TEXT NOT NULL UNIQUE,
            title TEXT,
            start_time TEXT,
            end_time TEXT,
            price_to_beat REAL,
            up_token_id TEXT NOT NULL,
            down_token_id TEXT NOT NULL
        )");
    reveal_strlit("CREATE TABLE IF NOT EXISTS price_changes (
            id INTEGER PRIMARY KEY AUTOINCREMENT,
            market_slug TEXT NOT NULL,
            timestamp TEXT NOT NULL,
            up_bid TEXT NOT NULL,
            up_ask TEXT NOT NULL,
            down_bid TEXT NOT NULL,
            down_ask TEXT NOT NULL,
            side TEXT NOT NULL,
            size TEXT NOT NULL
        )");
    reveal_strlit("CREATE TABLE IF NOT EXISTS btc_prices (
            id INTEGER PRIMARY KEY AUTOINCREMENT,
            market_slug TEXT NOT NULL,
            timestamp TEXT NOT NULL,
            mark_price TEXT NOT NULL,
            index_price TEXT NOT NULL
        )");
    let s = spec_schema();
    assert(s[0].len() != s[1].len());
    assert(s[0].len() != s[2].len());
    assert(s[1].len() != s[2].len());
    assert(s[3].len() != s[4].len());
    assert(s[3].len() != s[5].len());
    assert(s[4].len() != s[5].len());
    assert(s[0].len() > s[3].len() && s[0].len() > s[4].len() && s[0].len() > s[5].len());
    assert(s[1].len() > s[3].len() && s[1].len() > s[4].len() && s[1].len() > s[5].len());
    assert(s[2].len() > s[3].len() && s[2].len() > s[4].len() && s[2].len() > s[5].len());
}

} // verus!
