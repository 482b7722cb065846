//! Helpers for the calls to the Hive API.

pub mod url;
