//! Verified core of a power-perpetual vault protocol: fixed-point arithmetic,
//! configuration rules, vault accounting, solvency, fees, liquidation,
//! funding and the fee collector's token list.

pub mod error;
pub mod math;
pub mod config;
pub mod vault;
pub mod state;
pub mod payment;
pub mod helpers;
pub mod funding;
pub mod collector;
pub mod operations;
pub mod flows;
pub mod reply;
pub mod admin;
pub mod migrate;
pub mod queries;
pub mod ownership;
