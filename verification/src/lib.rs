//! A media library transcoding daemon: the rules by which files are probed,
//! analysed, approved, transcoded and swapped into place.
pub mod text;
pub mod text_map;
pub mod decimal;
pub mod binary;
pub mod rounding;
pub mod ids;
pub mod models;
pub mod path;
pub mod transcode;
pub mod record;
pub mod store;
pub mod probe;
pub mod analysis;
pub mod providers;
pub mod sync;
pub mod approval;
pub mod config;
pub mod http;
pub mod maintenance;
pub mod notification;
pub mod scheduler;
