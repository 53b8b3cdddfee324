//! Verified core of a collector for five-minute BTC Up/Down prediction markets:
//! window scheduling, price-change filtering, row building and the SQL plans
//! that store them.

pub mod config;
mod text;
pub mod decimal;
pub mod schedule;
pub mod market;
pub mod storage;
pub mod models;
pub mod prices;
pub mod btc;
