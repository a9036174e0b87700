//! The deciding part of a token-swap agent.
//!
//! The agent trades one token list at a time: the user chooses a fee, then to
//! buy or to sell, and the request is carried out for every token of the
//! list by a swap that is quoted, built, finalized and submitted.
//!
//! This library holds what is decided on the way: how an entry becomes an
//! exact amount ([`amount`]) or a fee ([`fee`]), how the local documents and
//! the answers of the remote services are read ([`config`]), how a built
//! transaction gets its fresh anchor and its signature ([`transaction`]),
//! and the three state machines that order the work ([`startup`],
//! [`controller`], [`pipeline`]). Reading files and the console and talking
//! to the network is left to the driver of the machines.

pub mod address;
pub mod amount;
pub mod config;
pub mod controller;
pub mod decimal;
pub mod error;
pub mod fee;
pub mod json;
pub mod pipeline;
pub mod service;
pub mod session;
pub mod startup;
pub mod text;
pub mod trades;
pub mod transaction;
