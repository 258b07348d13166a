//! The decisions behind a websocket gateway to the Drift exchange: what a
//! client's request leads to, which exchange events an account is told of and
//! in which figures, and how the account and order book feeds proceed.
pub mod account_event;
pub mod connection;
pub mod decimal;
pub mod exchange;
pub mod feed;
pub mod names;
pub mod reply;
pub mod subscription;
