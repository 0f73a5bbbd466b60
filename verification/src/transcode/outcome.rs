//! What a transcode attempt came to.
use vstd::prelude::*;

use crate::binary::Binary64;
use crate::models::common::AbsoluteFilePath;
use crate::models::media_file::SizeBytes;
use crate::models::transcode::SkipReason;
use crate::models::video::Bitrate;

verus! {

/// What a transcode attempt came to, before anything is stored of it.
#[derive(Debug)]
pub enum TranscodeOutcome {
    Completed(CompletedTranscode),
    Skipped { reason: SkipReason, vmaf: Option<Binary64> },
    /// The store already holds the completed transcode; there is nothing to
    /// record.
    AlreadyRecovered,
}

/// A file that was encoded and swapped into place.
#[derive(Debug)]
pub struct CompletedTranscode {
    pub final_path: AbsoluteFilePath,
    pub original_size: SizeBytes,
    pub new_size: SizeBytes,
    pub bitrate: Option<Bitrate>,
    pub retention_path: String,
    pub vmaf: Option<Binary64>,
}

/// What a transcode attempt came to, with texts by their characters.
pub enum OutcomeView {
    Completed {
        final_path: Seq<char>,
        original_size: u64,
        new_size: u64,
        bitrate: Option<Bitrate>,
        retention_path: Seq<char>,
        vmaf: Option<Binary64>,
    },
    Skipped { reason: SkipReason, vmaf: Option<Binary64> },
    AlreadyRecovered,
}

impl View for TranscodeOutcome {
    type V = OutcomeView;

    open spec fn view(&self) -> OutcomeView {
        match *self {
            TranscodeOutcome::Completed(c) => OutcomeView::Completed {
                final_path: c.final_path@,
                original_size: c.original_size.bytes(),
                new_size: c.new_size.bytes(),
                bitrate: c.bitrate,
                retention_path: c.retention_path@,
                vmaf: c.vmaf,
            },
            TranscodeOutcome::Skipped { reason, vmaf } => OutcomeView::Skipped { reason, vmaf },
            TranscodeOutcome::AlreadyRecovered => OutcomeView::AlreadyRecovered,
        }
    }
}

} // verus!
