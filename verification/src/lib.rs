//! Bounded retry with exponential backoff.

pub mod backoff;
pub mod fetcher;
pub mod retry;
pub mod run;
