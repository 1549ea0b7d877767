//! Verified core of the OpenLeash privilege broker: the policy engine, the
//! approval ledger, the hash-chained audit log, sandbox profiles and the
//! decisions that the daemon, the client and the command-line tool make.
pub mod models;
pub mod text;
pub mod policy;
pub mod encoding;
pub mod audit;
pub mod store;
pub mod flow;
pub mod error;
pub mod config;
pub mod sandbox;
pub mod venv;
pub mod backends;
pub mod telegram;
pub mod codec;
pub mod daemon;
pub mod client;
pub mod cli;
pub mod service;
pub mod requests;
pub mod callbacks;
pub mod provision;
pub mod tasks;
