//! What makes a value invalid.
use vstd::prelude::*;

use crate::binary::Binary32;

verus! {

/// Why a value was refused.
#[derive(Debug)]
pub enum DomainError {
    MissingUuid,
    InvalidTmdbId(String),
    InvalidRating(Binary32),
    InvalidPath(String),
    InvalidSeasonNumber(i32),
    InvalidEpisodeNumber(i32),
    InvalidResolution,
    InvalidBitrate,
    InvalidFramerate,
    UnknownStatus(String),
    InvalidSizeBytes,
    InvalidDuration,
}

} // verus!
