//! Verified core of a pharmacy management back end: configuration, query
//! filters, the planning of inserts and updates, session permissions,
//! account checks, stock rules and the authorization of every command.

pub mod commands;
pub mod config;
pub mod decimal;
pub mod filter;
pub mod queries;
