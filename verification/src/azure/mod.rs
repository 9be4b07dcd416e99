//! Providers of Azure credentials.

pub mod storage;
