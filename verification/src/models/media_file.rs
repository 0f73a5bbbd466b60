//! A media file and its size.
use vstd::prelude::*;
use vstd::string::*;

use crate::decimal::parse_u64;
use crate::models::common::AbsoluteFilePath;
use crate::models::error::DomainError;
use crate::models::library::{EpisodeId, MediaFileId, MovieId};
use crate::models::video::VideoProperties;
use crate::models::workflow::WorkflowStateTag;
use crate::record::ReadMember;

verus! {

/// A size in bytes; never zero.
#[derive(Clone, Copy, Debug, PartialEq, Eq, Structural)]
pub struct SizeBytes(u64);

impl SizeBytes {
    pub closed spec fn bytes(self) -> u64 {
        self.0
    }

    #[verifier::type_invariant]
    spec fn inv(self) -> bool {
        self.0 > 0
    }

    pub fn new(value: u64) -> (r: Result<Self, DomainError>)
        ensures
            match r {
                Ok(s) => value > 0 && s.bytes() == value,
                Err(e) => value == 0 && e == DomainError::InvalidSizeBytes,
            },
    {
        if value == 0 {
            return Err(DomainError::InvalidSizeBytes);
        }
        Ok(SizeBytes(value))
    }

    /// Reads a size. A text that is no number is refused as zero is.
    pub fn from_str(s: &str) -> (r: Result<Self, DomainError>)
        ensures
            match (r, crate::decimal::unsigned_value(s@, u64::MAX as int)) {
                (Ok(size), Some(n)) => n > 0 && size.bytes() == n,
                (Ok(_), None) => false,
                (Err(e), Some(n)) => n == 0 && e == DomainError::InvalidSizeBytes,
                (Err(e), None) => e == DomainError::InvalidSizeBytes,
            },
    {
        match parse_u64(s) {
            Some(value) => SizeBytes::new(value),
            None => Err(DomainError::InvalidSizeBytes),
        }
    }

    pub fn as_u64(&self) -> (r: u64)
        ensures
            r == self.bytes(),
            r > 0,
    {
        proof {
            use_type_invariant(self);
        }
        self.0
    }
}

/// A file of the library, with what is known of it.
#[derive(Debug)]
pub struct MediaFile {
    pub id: MediaFileId,
    pub episode_id: Option<EpisodeId>,
    pub movie_id: Option<MovieId>,
    pub path: AbsoluteFilePath,
    pub video_properties: Option<VideoProperties>,
    /// How the file is to be encoded, by its members.
    pub transcode_spec: Option<Vec<ReadMember>>,
    pub workflow_state: WorkflowStateTag,
}

/// A size is valid where it is not zero, and is kept; read from its decimal
/// notation it is the same.
pub proof fn law_size(
    value: u64,
    r: Result<SizeBytes, DomainError>,
    s: &str,
    read: Result<SizeBytes, DomainError>,
    n: u64,
    parsed: Option<u64>,
)
    requires
        call_ensures(parse_u64, (s,), parsed),
        call_ensures(SizeBytes::new, (value,), r),
        call_ensures(SizeBytes::from_str, (s,), read),
        r matches Ok(x) ==> call_ensures(SizeBytes::as_u64, (&x,), n),
    ensures
        r is Ok <==> value != 0,
        r is Ok ==> n == value,
        r matches Err(e) ==> e is InvalidSizeBytes,
        read matches Err(e) ==> e is InvalidSizeBytes,
        read is Ok <==> parsed is Some && parsed->0 > 0,
        read is Ok ==> read->Ok_0.bytes() == parsed->0,
        s@ == crate::decimal::digits(value as nat) ==> {
            &&& read is Ok <==> value != 0
            &&& read matches Ok(x) ==> x.bytes() == value
        },
{
    crate::decimal::lemma_unsigned_round_trip(value as nat, u64::MAX as int);
}

} // verus!
