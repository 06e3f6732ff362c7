//! Orchestration of one media conversion job: the argument vector handed to
//! the transcoder, the reading of its progress stream, cooperative
//! cancellation and the terminal outcome.

pub mod catalog;
pub mod conversion;
pub mod job;
pub mod outcome;
pub mod progress;
pub mod settings;
pub mod text;
