//! Transcoding: encoding a file, checking the result and swapping it into
//! place.
pub mod encoder;
pub mod error;
pub mod outcome;
pub mod validation;
pub mod swap;
pub mod recovery;
pub mod vmaf;
pub mod detect;
pub mod job;
pub mod queue;
pub mod process;
pub mod reaper;
