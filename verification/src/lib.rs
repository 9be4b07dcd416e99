//! Credential resolution for AWS and Azure, written without I/O of its own.
//!
//! Every provider is a small protocol machine: the caller reports what
//! happened (an `Event`), the machine answers with what to do next (a
//! `Step`). Reading the environment, files and the network is left to the
//! caller; every decision about what to ask for, what an answer means and
//! what is cached is taken here and carries a contract.

pub mod time;

pub mod transport;
pub mod credential;
pub mod retry;
pub mod text;
pub mod aws;
pub mod azure;
