//! E-commerce domain logic with machine-checked contracts.
pub mod platform;
pub mod arith;
pub mod text;
pub mod encoding;
pub mod lines;
pub mod seq_util;
pub mod ids;
pub mod money;
pub mod error;
pub mod time;
pub mod cart;
pub mod checkout;
pub mod catalog;
pub mod search;
pub mod framework;
pub mod http;
pub mod db;
pub mod cli;
