//! Identity-provider authentication and session-lifecycle engine.
//!
//! The crate issues and verifies signed access tokens, keeps the
//! server-side refresh-token and authorization-code stores, drives the
//! silent-renewal step of the request pipeline, and implements the
//! authorization-code exchange used by external client sites.

pub mod accounts;
pub mod auth;
pub mod auth_code_shared;
pub mod auth_codes;
pub mod broker;
pub mod clients;
pub mod config;
pub mod middleware;
pub mod passwords;
pub mod payloads;
pub mod refresh_store;
pub mod users;
pub mod utils;
