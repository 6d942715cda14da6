//! Trading core of an automated market-maker bot: pool arithmetic, the
//! per-user position state machine, entry and exit decisions, swap
//! instruction assembly and the bookkeeping around submitted transactions.

pub mod auth;
pub mod builder;
pub mod config;
pub mod cpmm;
pub mod decision;
pub mod error;
pub mod event;
pub mod instruction;
pub mod keys;
pub mod launchpad;
pub mod math;
pub mod pipeline;
pub mod price;
pub mod processor;
pub mod pumpswap;
pub mod raydium;
pub mod service;
pub mod slot;
pub mod store;
pub mod strategy;
pub mod text;
pub mod user;
