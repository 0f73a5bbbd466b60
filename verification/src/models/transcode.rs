//! What the analysis decides of a file.
use vstd::prelude::*;
use vstd::string::*;

use crate::binary::Binary64;
use crate::text::same_text;

verus! {

/// Why a file is not transcoded.
#[derive(Clone, Copy, Debug, PartialEq, Eq, Structural)]
pub enum SkipReason {
    ExcludedCodec,
    FileTooSmall,
    AlreadyCompressed,
    InsufficientCompressionPotential,
    MissingProbeData,
    InsufficientSizeReduction,
    QualityTooLow,
    DolbyVision,
}

impl SkipReason {
    /// The name under which a reason is recorded.
    pub open spec fn name(self) -> Seq<char> {
        match self {
            SkipReason::ExcludedCodec => "excluded_codec"@,
            SkipReason::FileTooSmall => "file_too_small"@,
            SkipReason::AlreadyCompressed => "already_compressed"@,
            SkipReason::InsufficientCompressionPotential => "insufficient_compression_potential"@,
            SkipReason::MissingProbeData => "missing_probe_data"@,
            SkipReason::InsufficientSizeReduction => "insufficient_size_reduction"@,
            SkipReason::QualityTooLow => "quality_too_low"@,
            SkipReason::DolbyVision => "dolby_vision"@,
        }
    }

    pub fn as_str(&self) -> (r: &'static str)
        ensures
            r@ == self.name(),
    {
        match self {
            SkipReason::ExcludedCodec => "excluded_codec",
            SkipReason::FileTooSmall => "file_too_small",
            SkipReason::AlreadyCompressed => "already_compressed",
            SkipReason::InsufficientCompressionPotential => "insufficient_compression_potential",
            SkipReason::MissingProbeData => "missing_probe_data",
            SkipReason::InsufficientSizeReduction => "insufficient_size_reduction",
            SkipReason::QualityTooLow => "quality_too_low",
            SkipReason::DolbyVision => "dolby_vision",
        }
    }

    /// The reason that a name stands for.
    pub fn from_name(s: &str) -> (r: Option<SkipReason>)
        ensures
            match r {
                Some(reason) => s@ == reason.name(),
                None => forall|reason: SkipReason| #![trigger reason.name()] s@ != reason.name(),
            },
    {
        if same_text(s, "excluded_codec") {
            Some(SkipReason::ExcludedCodec)
        } else if same_text(s, "file_too_small") {
            Some(SkipReason::FileTooSmall)
        } else if same_text(s, "already_compressed") {
            Some(SkipReason::AlreadyCompressed)
        } else if same_text(s, "insufficient_compression_potential") {
            Some(SkipReason::InsufficientCompressionPotential)
        } else if same_text(s, "missing_probe_data") {
            Some(SkipReason::MissingProbeData)
        } else if same_text(s, "insufficient_size_reduction") {
            Some(SkipReason::InsufficientSizeReduction)
        } else if same_text(s, "quality_too_low") {
            Some(SkipReason::QualityTooLow)
        } else if same_text(s, "dolby_vision") {
            Some(SkipReason::DolbyVision)
        } else {
            None
        }
    }
}

/// No two reasons are recorded under one name.
pub proof fn law_skip_reason_names_differ(a: SkipReason, b: SkipReason)
    requires
        a.name() == b.name(),
    ensures
        a == b,
{
    reveal_strlit("excluded_codec");
    reveal_strlit("file_too_small");
    reveal_strlit("already_compressed");
    reveal_strlit("insufficient_compression_potential");
    reveal_strlit("missing_probe_data");
    reveal_strlit("insufficient_size_reduction");
    reveal_strlit("quality_too_low");
    reveal_strlit("dolby_vision");
    assert("excluded_codec"@.len() == 14);
    assert("file_too_small"@.len() == 14);
    assert("already_compressed"@.len() == 18);
    assert("insufficient_compression_potential"@.len() == 34);
    assert("missing_probe_data"@.len() == 18);
    assert("insufficient_size_reduction"@.len() == 27);
    assert("quality_too_low"@.len() == 15);
    assert("dolby_vision"@.len() == 12);
    assert("excluded_codec"@[0] == 'e' && "file_too_small"@[0] == 'f');
    assert("already_compressed"@[0] == 'a' && "missing_probe_data"@[0] == 'm');
}

/// What is to be done with an analysed file.
#[derive(Debug)]
pub enum TranscodeDecision {
    Encode {
        bpp: Binary64,
        compression_potential: Binary64,
        crf: u8,
        /// The fraction of the file's size that the encode is expected to
        /// reclaim, between 0 and 1. It goes into the approval request and
        /// decides nothing.
        estimated_saving_ratio: Binary64,
    },
    SkipWithAnalysis { reason: SkipReason, bpp: Binary64, compression_potential: Binary64 },
    Skip(SkipReason),
}

/// The names under which the reasons are recorded, and that each is read back
/// from its own.
pub proof fn law_skip_reason_names(reason: SkipReason, s: &'static str, read: Option<SkipReason>)
    requires
        call_ensures(SkipReason::as_str, (&reason,), s),
        call_ensures(SkipReason::from_name, (s,), read),
    ensures
        read == Some(reason),
        reason is ExcludedCodec ==> s@ == "excluded_codec"@,
        reason is FileTooSmall ==> s@ == "file_too_small"@,
        reason is AlreadyCompressed ==> s@ == "already_compressed"@,
        reason is InsufficientCompressionPotential ==> s@ == "insufficient_compression_potential"@,
        reason is MissingProbeData ==> s@ == "missing_probe_data"@,
        reason is InsufficientSizeReduction ==> s@ == "insufficient_size_reduction"@,
        reason is QualityTooLow ==> s@ == "quality_too_low"@,
        reason is DolbyVision ==> s@ == "dolby_vision"@,
{
    if let Some(x) = read {
        law_skip_reason_names_differ(x, reason);
    } else {
        assert(s@ == reason.name());
    }
}

/// No text but a reason's own name stands for it.
pub proof fn law_only_names_stand_for_reasons(
    text: &str,
    read: Option<SkipReason>,
    reason: SkipReason,
    name: &'static str,
)
    requires
        call_ensures(SkipReason::from_name, (text,), read),
        call_ensures(SkipReason::as_str, (&reason,), name),
    ensures
        read == Some(reason) <==> text@ == name@,
{
    if text@ == name@ {
        if let Some(x) = read {
            law_skip_reason_names_differ(x, reason);
        } else {
            assert(text@ == reason.name());
        }
    }
}

} // verus!
