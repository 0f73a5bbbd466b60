//! Why a transcode did not come about.
use vstd::prelude::*;
use vstd::string::*;

use crate::binary::Binary64;
use crate::decimal::signed_text;

verus! {

/// Why no encoder was chosen.
#[derive(Debug)]
pub enum DetectError {
    NoEncoderAvailable,
    FfmpegSpawn(String),
}

/// Why an encoded file was refused.
#[derive(Debug)]
pub enum ValidationError {
    FfprobeFailed(String),
    WrongCodec,
    DurationMismatch { original: Binary64, new: Binary64 },
}

/// Why an encoded file was refused, with texts by their characters.
pub enum ValidationErrorView {
    FfprobeFailed(Seq<char>),
    WrongCodec,
    DurationMismatch { original: Binary64, new: Binary64 },
}

impl View for ValidationError {
    type V = ValidationErrorView;

    open spec fn view(&self) -> ValidationErrorView {
        match *self {
            ValidationError::FfprobeFailed(s) => ValidationErrorView::FfprobeFailed(s@),
            ValidationError::WrongCodec => ValidationErrorView::WrongCodec,
            ValidationError::DurationMismatch { original, new } =>
                ValidationErrorView::DurationMismatch { original, new },
        }
    }
}

/// Why an interrupted swap could not be put in order.
#[derive(Debug)]
pub enum RecoveryError {
    Store(String),
    Validation(ValidationError),
    Filesystem(String),
}

/// Why a transcode failed.
#[derive(Debug)]
pub enum TranscodeError {
    MissingVideoProperties,
    MissingSpec,
    /// An earlier swap left a file that cannot be used.
    Recovery(String),
    /// An earlier swap could not be put in order.
    RecoveryFailed(RecoveryError),
    FfmpegFailed { exit_code: Option<i32>, stderr: String },
    Validation(ValidationError),
    SwapFailed(String),
    /// The path of the new file is not absolute.
    InvalidPath(String),
}

/// Why a transcode failed, with texts by their characters.
pub enum TranscodeErrorView {
    MissingVideoProperties,
    MissingSpec,
    Recovery(Seq<char>),
    RecoveryFailed(RecoveryError),
    FfmpegFailed { exit_code: Option<i32>, stderr: Seq<char> },
    Validation(ValidationErrorView),
    SwapFailed(Seq<char>),
    InvalidPath(Seq<char>),
}

impl View for TranscodeError {
    type V = TranscodeErrorView;

    open spec fn view(&self) -> TranscodeErrorView {
        match *self {
            TranscodeError::MissingVideoProperties => TranscodeErrorView::MissingVideoProperties,
            TranscodeError::MissingSpec => TranscodeErrorView::MissingSpec,
            TranscodeError::Recovery(s) => TranscodeErrorView::Recovery(s@),
            TranscodeError::RecoveryFailed(e) => TranscodeErrorView::RecoveryFailed(e),
            TranscodeError::FfmpegFailed { exit_code, stderr } =>
                TranscodeErrorView::FfmpegFailed { exit_code, stderr: stderr@ },
            TranscodeError::Validation(e) => TranscodeErrorView::Validation(e@),
            TranscodeError::SwapFailed(s) => TranscodeErrorView::SwapFailed(s@),
            TranscodeError::InvalidPath(s) => TranscodeErrorView::InvalidPath(s@),
        }
    }
}

impl TranscodeError {
    /// Whether the file is given up. Otherwise it is left as it is and tried
    /// again.
    pub fn is_terminal(&self) -> (r: bool)
        ensures
            r == !(self is RecoveryFailed),
    {
        match self {
            TranscodeError::RecoveryFailed(_) => false,
            _ => true,
        }
    }

    /// The text that is recorded for a failure. `inner` is the text of the
    /// error that this one wraps.
    pub open spec fn text(self, inner: Seq<char>) -> Seq<char> {
        match self {
            TranscodeError::MissingVideoProperties => "video properties missing for media file"@,
            TranscodeError::MissingSpec => "transcode spec missing for media file"@,
            TranscodeError::Recovery(reason) => "recovery failed: "@ + reason@,
            TranscodeError::RecoveryFailed(_) => "recovery failed: "@ + inner,
            TranscodeError::FfmpegFailed { exit_code, stderr } => match exit_code {
                Some(code) => "ffmpeg failed with exit code "@ + crate::decimal::signed_digits(
                    code as int,
                ) + ": "@ + stderr@,
                None => "ffmpeg failed: "@ + stderr@,
            },
            TranscodeError::Validation(_) => "validation failed: "@ + inner,
            TranscodeError::SwapFailed(error) => "swap failed: "@ + error@,
            TranscodeError::InvalidPath(path) => "path must be absolute: "@ + path@,
        }
    }

    /// The text that is recorded for a failure.
    pub fn message(&self, inner: &str) -> (r: String)
        ensures
            r@ == self.text(inner@),
    {
        match self {
            TranscodeError::MissingVideoProperties =>
                "video properties missing for media file".to_owned(),
            TranscodeError::MissingSpec => "transcode spec missing for media file".to_owned(),
            TranscodeError::Recovery(reason) => {
                "recovery failed: ".to_owned().concat(reason.as_str())
            },
            TranscodeError::RecoveryFailed(_) => "recovery failed: ".to_owned().concat(inner),
            TranscodeError::FfmpegFailed { exit_code, stderr } => match exit_code {
                Some(code) => {
                    let n = signed_text(*code as i64);
                    "ffmpeg failed with exit code ".to_owned().concat(n.as_str()).concat(
                        ": ",
                    ).concat(stderr.as_str())
                },
                None => "ffmpeg failed: ".to_owned().concat(stderr.as_str()),
            },
            TranscodeError::Validation(_) => "validation failed: ".to_owned().concat(inner),
            TranscodeError::SwapFailed(error) => "swap failed: ".to_owned().concat(
                error.as_str(),
            ),
            TranscodeError::InvalidPath(path) => "path must be absolute: ".to_owned().concat(
                path.as_str(),
            ),
        }
    }
}

/// A failure gives a file up, unless an earlier swap could not be put in order.
pub proof fn law_only_a_failed_recovery_is_retried(e: TranscodeError, r: bool)
    requires
        call_ensures(TranscodeError::is_terminal, (&e,), r),
    ensures
        !r <==> (e matches TranscodeError::RecoveryFailed(_)),
{
}

/// The texts that are recorded for failures.
pub proof fn law_failure_texts(e: TranscodeError, inner: &str, r: String)
    requires
        call_ensures(TranscodeError::message, (&e, inner), r),
    ensures
        e is MissingVideoProperties ==> r@ == "video properties missing for media file"@,
        e is MissingSpec ==> r@ == "transcode spec missing for media file"@,
        e matches TranscodeError::Recovery(t) ==> r@ == "recovery failed: "@ + t@,
        e is RecoveryFailed ==> r@ == "recovery failed: "@ + inner@,
        e matches TranscodeError::FfmpegFailed { exit_code: Some(code), stderr } ==> r@
            == "ffmpeg failed with exit code "@ + crate::decimal::signed_digits(code as int)
            + ": "@ + stderr@,
        e matches TranscodeError::FfmpegFailed { exit_code: None, stderr } ==> r@
            == "ffmpeg failed: "@ + stderr@,
        e is Validation ==> r@ == "validation failed: "@ + inner@,
        e matches TranscodeError::SwapFailed(t) ==> r@ == "swap failed: "@ + t@,
        e matches TranscodeError::InvalidPath(p) ==> r@ == "path must be absolute: "@ + p@,
{
}

} // verus!
