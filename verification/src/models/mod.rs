//! The domain: what is known of a media file, and the states it goes through.
pub mod batch;
pub mod common;
pub mod drafts;
pub mod error;
pub mod event;
pub mod library;
pub mod media_file;
pub mod transcode;
pub mod video;
pub mod workflow;
