//! An in-memory queue of image conversion jobs.
//!
//! A submitted image waits in a [`store::JobStore`] until a worker claims it,
//! converts it to WebP and writes the outcome back; the submitter polls for the
//! result by identifier and takes it away with the first successful read.

pub mod codec;
pub mod endpoint;
pub mod job;
pub mod laws;
pub mod store;
pub mod worker;
