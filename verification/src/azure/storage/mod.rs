//! Credentials for Azure Storage.

pub mod config;
pub mod credential;
pub mod imds_credential;
pub mod loader;
