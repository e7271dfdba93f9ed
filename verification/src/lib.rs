//! Message-handling core of a chat bot that answers textual commands with
//! cryptocurrency price information: command dispatch, coin-name resolution,
//! a cooldown gate, and deterministic formatting of price data.
//!
//! Money amounts are fixed-point integers counting hundred-millionths
//! (1e-8) of a currency unit; percent changes count hundredths of a percent.

pub mod db;
pub mod numfmt;
pub mod replies;
pub mod text;
