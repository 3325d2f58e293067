//! Rockery: the rule engine of a transparent HTTP mocking gateway.
//!
//! The gateway sits in front of a backend. It answers a request from a
//! registered mocking rule when one matches the request exactly, and forwards
//! it to the backend otherwise. Rules are registered and removed through two
//! management requests.
//!
//! - [`method`]: the methods for which rules are looked up.
//! - [`engine`]: the SQLite table that holds the rules, and what is taken on
//!   trust of it.
//! - [`db`]: mocking rules and their store, with the store's invariant.
//! - [`json`]: request payloads as far as they are read.
//! - [`validation`]: from a payload to a rule, or to every error at once.
//! - [`views`]: the handlers and the routing between them.
//! - [`response`], [`settings`], [`utils`], [`text`]: what they share.
//!
//! The library decides; reading requests from the network and sending
//! responses is left to the program around it.

pub mod db;
pub mod engine;
pub mod json;
pub mod method;
pub mod response;
pub mod settings;
pub mod text;
pub mod utils;
pub mod validation;
pub mod views;
