//! The account and security core of PwnForge: authentication, sessions,
//! rate limits, validation and the administrative rules, each function with
//! a contract proved by Verus.

pub mod text;
pub mod seed;
pub mod types;
pub mod legal;
pub mod validation;
pub mod dto;
pub mod entities;
pub mod errors;
pub mod error;
pub mod token;
pub mod client_ip;
pub mod rate_limit;
pub mod auth;
pub mod password;
pub mod blocked_email;
pub mod session;
pub mod config;
pub mod admin;
pub mod register;
pub mod account;
pub mod email;
pub mod cleanup;
pub mod gate;
pub mod cookies;
pub mod cli;
pub mod logging;
pub mod setup;
pub mod audit;
