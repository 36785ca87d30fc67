//! A minimal HTTP load-sampling engine.
//!
//! Given a list of target URLs and a request count, the engine plans that
//! many requests round-robin over the URLs, validates the configured default
//! headers up front, and derives one immutable [`sample::Sample`] per
//! completed request.  The network itself is driven by an unverified shell
//! around this crate; everything that decides or computes lives here.

pub mod dispatch;
pub mod engine;
pub mod errors;
pub mod headers;
pub mod sample;
pub mod urls;
