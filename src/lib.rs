//! Building and supervising a batch of file downloads: the list of
//! (source, destination) jobs, the limiter that bounds how many transfer at
//! once, and the per-job transfer decisions.

pub mod jobs;
pub mod words;
pub mod error;
pub mod transfer;
pub mod limiter;
pub mod batch;
