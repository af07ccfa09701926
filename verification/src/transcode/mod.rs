//! Transcode and image-compression jobs: the queue and the request rules.

pub mod state;
pub mod rules;
pub mod naming;
pub mod requests;
