//! Shapes of the request and response bodies of the API.
pub mod alerts;
pub mod auth;
pub mod contact;
pub mod error_responses;
pub mod health;
pub mod instance;
pub mod legal;
pub mod setup;
