//! Authentication engine for Hive accounts: the challenge-response login
//! flow, the trusted-device lifecycle and the cached token pair, written as
//! verified decision functions around an identity provider that the caller
//! contacts.

pub mod api;
pub mod authentication;
pub mod client;
pub mod constants;
pub mod devices;
pub mod helper;
pub mod products;
pub mod weather;

pub use api::ApiError;
pub use authentication::AuthenticationError;
pub use client::Client;
