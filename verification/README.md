# polymarket_btc

A collector for Polymarket's five-minute BTC Up/Down markets. Every window it
fetches the market's event, streams Polymarket price changes and Binance BTC
mark prices, and stores them in SQLite.

- `src/` is the verified library (Verus): window scheduling (`schedule`),
  decimal text of numbers (`decimal`), URLs, token selection and the
  subscription message (`market`), the price-change filter that stores a row
  only when the Up bid or ask moved (`prices`), Binance rows (`btc`), and the
  SQL statements that create the schema and flush rows in one transaction
  (`storage`).
- `app/` is the program around it: HTTP, websockets, timers, threads and
  SQLite, which run what the library decides.
- `tests/` exercises the library on concrete values.
