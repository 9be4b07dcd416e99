//! Providers of AWS credentials.

pub mod config;
pub mod constants;
pub mod credential;
pub mod imds;
