//! The transcode of one file: recovery, encode, checks and swap.
use vstd::prelude::*;
use vstd::string::*;

use crate::binary::Binary64;
use crate::ids::uuid_text;
use crate::models::common::AbsoluteFilePath;
use crate::models::library::MediaFileId;
use crate::models::media_file::{MediaFile, SizeBytes};
use crate::models::transcode::SkipReason;
use crate::path::join;
use crate::record::read_count;
use crate::transcode::encoder::Encoder;
use crate::transcode::error::{RecoveryError, TranscodeError, ValidationError};
use crate::transcode::outcome::{CompletedTranscode, TranscodeOutcome};
use crate::transcode::recovery::RecoveryAction;
use crate::transcode::swap::SwapResult;
use crate::transcode::validation::ValidatedOutput;

verus! {

/// How transcodes are made.
#[derive(Debug)]
pub struct TranscodeSettings {
    pub encoder: Encoder,
    pub tmp_dir: String,
    pub retention_dir: String,
    /// The least score that is accepted; 0 accepts all.
    pub min_vmaf: Binary64,
}

/// What an encode came to.
#[derive(Debug)]
pub enum EncodeRun {
    NotStarted(String),
    Exited { success: bool, code: Option<i32>, stderr: String },
}

/// What was done for a transcode.
#[derive(Debug)]
pub enum JobEvent {
    Recovered(Result<RecoveryAction, RecoveryError>),
    Encoded(EncodeRun),
    Validated(Result<ValidatedOutput, ValidationError>),
    /// The score, or none where it could not be measured.
    Measured(Option<Binary64>),
    Swapped(Result<SwapResult, TranscodeError>),
}

/// What is to be done next.
#[derive(Clone, Copy, Debug, PartialEq, Eq, Structural)]
pub enum JobStep {
    /// Put an interrupted swap of the file in order.
    Recover,
    /// Run ffmpeg with the job's arguments.
    Encode,
    /// Check the encoded file.
    Validate,
    /// Measure the encoded file against the original.
    Measure,
    /// Swap the encoded file into place.
    Swap,
    Finish,
}

/// How far a transcode has come.
#[derive(Debug)]
pub enum JobState {
    Recovering,
    Encoding,
    Validating,
    Measuring(ValidatedOutput),
    Swapping { output: ValidatedOutput, vmaf: Option<Binary64> },
    Finished {
        result: Result<TranscodeOutcome, TranscodeError>,
        /// Whether the encoded file is still at its temporary path, from which
        /// it is to be removed.
        remove_temp: bool,
    },
}

/// How a transcode ended, with texts by their characters.
pub type JobEnd = Result<
    crate::transcode::outcome::OutcomeView,
    crate::transcode::error::TranscodeErrorView,
>;

/// How far a transcode has come, with texts by their characters.
pub enum JobStage {
    Recovering,
    Encoding,
    Validating,
    Measuring(ValidatedOutput),
    Swapping { output: ValidatedOutput, vmaf: Option<Binary64> },
    Finished { end: JobEnd, remove_temp: bool },
}

/// How a transcode ended.
pub open spec fn end_of(r: Result<TranscodeOutcome, TranscodeError>) -> JobEnd {
    match r {
        Ok(o) => Ok(o@),
        Err(e) => Err(e@),
    }
}

impl View for JobState {
    type V = JobStage;

    open spec fn view(&self) -> JobStage {
        match *self {
            JobState::Recovering => JobStage::Recovering,
            JobState::Encoding => JobStage::Encoding,
            JobState::Validating => JobStage::Validating,
            JobState::Measuring(output) => JobStage::Measuring(output),
            JobState::Swapping { output, vmaf } => JobStage::Swapping { output, vmaf },
            JobState::Finished { result, remove_temp } => JobStage::Finished {
                end: end_of(result),
                remove_temp,
            },
        }
    }
}

/// What the checks of a transcode go by.
#[derive(Clone, Copy, Debug, PartialEq, Eq, Structural)]
pub struct JobLimits {
    pub original_size: SizeBytes,
    /// The greatest size at which the encoded file counts as smaller.
    pub max_size: u64,
    /// The least score that is accepted; 0 accepts all.
    pub min_vmaf: Binary64,
}

/// Whether a score is refused: only where a least score is set, and there is
/// one.
pub open spec fn quality_too_low(min_vmaf: Binary64, vmaf: Option<Binary64>) -> bool {
    (Binary64 { bits: 0 }).below(min_vmaf) && (vmaf matches Some(score) && score.below(min_vmaf))
}

/// The end of a transcode whose file is in place at `final_path`.
pub open spec fn completed(
    limits: JobLimits,
    final_path: Seq<char>,
    retention_path: Seq<char>,
    output: ValidatedOutput,
    vmaf: Option<Binary64>,
) -> JobEnd {
    if crate::models::common::is_absolute(final_path) {
        Ok(
            crate::transcode::outcome::OutcomeView::Completed {
                final_path,
                original_size: limits.original_size.bytes(),
                new_size: output.size_bytes.bytes(),
                bitrate: output.bitrate,
                retention_path,
                vmaf,
            },
        )
    } else {
        Err(crate::transcode::error::TranscodeErrorView::InvalidPath(final_path))
    }
}

/// How a transcode goes on. What was not asked for changes nothing.
pub open spec fn job_next(limits: JobLimits, stage: JobStage, event: JobEvent) -> JobStage {
    match (stage, event) {
        (JobStage::Recovering, JobEvent::Recovered(Ok(action))) => match action {
            RecoveryAction::ProceedNormally => JobStage::Encoding,
            RecoveryAction::RestoreAndRetry => JobStage::Encoding,
            RecoveryAction::CommitComplete { final_path, retention_path, output_vp } =>
                JobStage::Finished {
                end: completed(limits, final_path@, retention_path@, output_vp, None),
                remove_temp: false,
            },
            RecoveryAction::MarkFailed { reason } => JobStage::Finished {
                end: Err(crate::transcode::error::TranscodeErrorView::Recovery(reason@)),
                remove_temp: false,
            },
        },
        (JobStage::Recovering, JobEvent::Recovered(Err(e))) => JobStage::Finished {
            end: Err(crate::transcode::error::TranscodeErrorView::RecoveryFailed(e)),
            remove_temp: false,
        },
        (JobStage::Encoding, JobEvent::Encoded(EncodeRun::NotStarted(e))) => JobStage::Finished {
            end: Err(
                crate::transcode::error::TranscodeErrorView::FfmpegFailed {
                    exit_code: None,
                    stderr: "failed to spawn ffmpeg: "@ + e@,
                },
            ),
            remove_temp: true,
        },
        (JobStage::Encoding, JobEvent::Encoded(EncodeRun::Exited { success, code, stderr })) =>
            if success {
            JobStage::Validating
        } else {
            JobStage::Finished {
                end: Err(
                    crate::transcode::error::TranscodeErrorView::FfmpegFailed {
                        exit_code: code,
                        stderr: stderr@,
                    },
                ),
                remove_temp: true,
            }
        },
        (JobStage::Validating, JobEvent::Validated(Err(e))) => JobStage::Finished {
            end: Err(crate::transcode::error::TranscodeErrorView::Validation(e@)),
            remove_temp: true,
        },
        (JobStage::Validating, JobEvent::Validated(Ok(output))) => if output.size_bytes.bytes()
            > limits.max_size {
            JobStage::Finished {
                end: Ok(
                    crate::transcode::outcome::OutcomeView::Skipped {
                        reason: SkipReason::InsufficientSizeReduction,
                        vmaf: None,
                    },
                ),
                remove_temp: true,
            }
        } else {
            JobStage::Measuring(output)
        },
        (JobStage::Measuring(output), JobEvent::Measured(vmaf)) => if quality_too_low(
            limits.min_vmaf,
            vmaf,
        ) {
            JobStage::Finished {
                end: Ok(
                    crate::transcode::outcome::OutcomeView::Skipped {
                        reason: SkipReason::QualityTooLow,
                        vmaf,
                    },
                ),
                remove_temp: true,
            }
        } else {
            JobStage::Swapping { output, vmaf }
        },
        (JobStage::Swapping { output, vmaf }, JobEvent::Swapped(Ok(result))) => JobStage::Finished {
            end: completed(limits, result.final_path@, result.retention_path@, output, vmaf),
            remove_temp: false,
        },
        (JobStage::Swapping { .. }, JobEvent::Swapped(Err(e))) => JobStage::Finished {
            end: Err(e@),
            remove_temp: true,
        },
        _ => stage,
    }
}

/// The transcode of one file.
#[derive(Debug)]
pub struct TranscodeJob {
    pub media_file_id: MediaFileId,
    pub original_path: String,
    pub temp_path: String,
    pub retention_dir: String,
    pub original_duration: Option<Binary64>,
    /// The arguments for ffmpeg.
    pub args: Vec<String>,
    pub limits: JobLimits,
    pub state: JobState,
}

/// Where a file is encoded to.
pub open spec fn temp_path_of(tmp_dir: Seq<char>, id: MediaFileId) -> Seq<char> {
    crate::path::joined(tmp_dir, crate::ids::hyphenated(id.0) + ".mkv"@)
}

/// The arguments for ffmpeg: the original, then how it is encoded, then where
/// to.
pub open spec fn ffmpeg_args(
    encoder: Encoder,
    crf: u8,
    color: Option<crate::models::video::ColorView>,
    original: Seq<char>,
    temp: Seq<char>,
) -> Seq<Seq<char>> {
    seq!["-i"@, original, "-y"@, "-nostdin"@] + (crate::transcode::encoder::base_args()
        + crate::transcode::encoder::codec_args(encoder, crf, color)
        + crate::transcode::encoder::color_args(color)) + seq![temp]
}

/// The colour metadata of a file's video.
pub open spec fn color_of(vp: crate::models::video::VideoProperties) -> Option<
    crate::models::video::ColorView,
> {
    match vp.color_metadata {
        Some(c) => Some(c@),
        None => None,
    }
}

/// The duration of a file's video.
pub open spec fn duration_of(vp: crate::models::video::VideoProperties) -> Option<Binary64> {
    match vp.duration {
        Some(d) => Some(d.secs()),
        None => None,
    }
}

/// Whether a job is the transcode of a file with that rate factor.
pub open spec fn is_job_for(
    job: TranscodeJob,
    settings: TranscodeSettings,
    file: MediaFile,
    crf: u64,
    max_size: u64,
) -> bool {
    &&& file.video_properties matches Some(vp)
    &&& job.media_file_id == file.id
    &&& job.original_path@ == file.path@
    &&& job.temp_path@ == temp_path_of(settings.tmp_dir@, file.id)
    &&& job.retention_dir@ == settings.retention_dir@
    &&& job.original_duration == duration_of(vp)
    &&& job.limits == JobLimits {
        original_size: vp.size_bytes,
        max_size,
        min_vmaf: settings.min_vmaf,
    }
    &&& crate::text::texts(job.args@) == ffmpeg_args(
        settings.encoder,
        (crf % 256) as u8,
        color_of(vp),
        file.path@,
        temp_path_of(settings.tmp_dir@, file.id),
    )
    &&& job.state@ == JobStage::Recovering
}

/// The rate factor that a file's transcode spec states.
pub open spec fn stated_crf(file: MediaFile) -> Option<u64> {
    match file.transcode_spec {
        Some(spec) => crate::record::count_member(spec@, "crf"@),
        None => None,
    }
}

/// The transcode of a file, with the rate factor that its transcode spec
/// states, cut to eight bits. `max_size` is the greatest size at which the
/// encoded file counts as smaller.
pub fn transcode_file(settings: &TranscodeSettings, media_file: &MediaFile, max_size: u64) -> (r:
    Result<TranscodeJob, TranscodeError>)
    ensures
        match r {
            Ok(job) => stated_crf(*media_file) matches Some(c) && is_job_for(
                job,
                *settings,
                *media_file,
                c,
                max_size,
            ),
            Err(e) => if media_file.video_properties is None {
                e == TranscodeError::MissingVideoProperties
            } else {
                stated_crf(*media_file) is None && e == TranscodeError::MissingSpec
            },
        },
{
    let vp = match &media_file.video_properties {
        Some(vp) => vp,
        None => {
            return Err(TranscodeError::MissingVideoProperties);
        },
    };
    let stated = match &media_file.transcode_spec {
        Some(spec) => read_count(spec, "crf"),
        None => None,
    };
    let crf: u8 = match stated {
        Some(c) => (c % 256) as u8,
        None => {
            return Err(TranscodeError::MissingSpec);
        },
    };
    let original_duration = match &vp.duration {
        Some(d) => Some(d.as_secs()),
        None => None,
    };
    let file_name = uuid_text(media_file.id.as_uuid()).concat(".mkv");
    let temp_path = join(settings.tmp_dir.as_str(), file_name.as_str());
    let original_path = media_file.path.as_path().to_owned();
    let color = match &vp.color_metadata {
        Some(c) => Some(c),
        None => None,
    };
    let mut encoding = settings.encoder.build_args(crf, color);
    let ghost encoding_texts = crate::text::texts(encoding@);
    let mut args: Vec<String> = Vec::new();
    args.push("-i".to_owned());
    args.push(original_path.clone());
    args.push("-y".to_owned());
    args.push("-nostdin".to_owned());
    assert(crate::text::texts(args@) =~= seq!["-i"@, original_path@, "-y"@, "-nostdin"@]);
    let ghost head = args@;
    args.append(&mut encoding);
    assert(crate::text::texts(args@) =~= crate::text::texts(head) + encoding_texts);
    let ghost most = args@;
    args.push(temp_path.clone());
    assert(crate::text::texts(args@) =~= crate::text::texts(most) + seq![temp_path@]);
    Ok(
        TranscodeJob {
            media_file_id: media_file.id,
            original_path,
            temp_path,
            retention_dir: settings.retention_dir.clone(),
            original_duration,
            args,
            limits: JobLimits {
                original_size: vp.size_bytes,
                max_size,
                min_vmaf: settings.min_vmaf,
            },
            state: JobState::Recovering,
        },
    )
}

/// The end of a transcode whose file is in place at `final_path`.
fn complete(
    limits: &JobLimits,
    final_path: String,
    retention_path: String,
    output: ValidatedOutput,
    vmaf: Option<Binary64>,
) -> (r: Result<TranscodeOutcome, TranscodeError>)
    ensures
        end_of(r) == completed(*limits, final_path@, retention_path@, output, vmaf),
{
    match AbsoluteFilePath::new(final_path.as_str()) {
        Ok(final_path) => Ok(
            TranscodeOutcome::Completed(
                CompletedTranscode {
                    final_path,
                    original_size: limits.original_size,
                    new_size: output.size_bytes,
                    bitrate: output.bitrate,
                    retention_path,
                    vmaf,
                },
            ),
        ),
        Err(_) => Err(TranscodeError::InvalidPath(final_path)),
    }
}

impl TranscodeJob {
    /// What is to be done next.
    pub fn step(&self) -> (r: JobStep)
        ensures
            match self.state@ {
                JobStage::Recovering => r is Recover,
                JobStage::Encoding => r is Encode,
                JobStage::Validating => r is Validate,
                JobStage::Measuring(_) => r is Measure,
                JobStage::Swapping { .. } => r is Swap,
                JobStage::Finished { .. } => r is Finish,
            },
    {
        match &self.state {
            JobState::Recovering => JobStep::Recover,
            JobState::Encoding => JobStep::Encode,
            JobState::Validating => JobStep::Validate,
            JobState::Measuring(_) => JobStep::Measure,
            JobState::Swapping { .. } => JobStep::Swap,
            JobState::Finished { .. } => JobStep::Finish,
        }
    }

    /// Takes what was done.
    pub fn advance(self, event: JobEvent) -> (r: Self)
        ensures
            r.state@ == job_next(self.limits, self.state@, event),
            r.media_file_id == self.media_file_id,
            r.original_path == self.original_path,
            r.temp_path == self.temp_path,
            r.retention_dir == self.retention_dir,
            r.original_duration == self.original_duration,
            r.args == self.args,
            r.limits == self.limits,
    {
        let limits = self.limits;
        let state = match (self.state, event) {
            (JobState::Recovering, JobEvent::Recovered(Ok(action))) => match action {
                RecoveryAction::ProceedNormally => JobState::Encoding,
                RecoveryAction::RestoreAndRetry => JobState::Encoding,
                RecoveryAction::CommitComplete { final_path, retention_path, output_vp } => {
                    JobState::Finished {
                        result: complete(&limits, final_path, retention_path, output_vp, None),
                        remove_temp: false,
                    }
                },
                RecoveryAction::MarkFailed { reason } => JobState::Finished {
                    result: Err(TranscodeError::Recovery(reason)),
                    remove_temp: false,
                },
            },
            (JobState::Recovering, JobEvent::Recovered(Err(e))) => JobState::Finished {
                result: Err(TranscodeError::RecoveryFailed(e)),
                remove_temp: false,
            },
            (JobState::Encoding, JobEvent::Encoded(EncodeRun::NotStarted(e))) => {
                let stderr = "failed to spawn ffmpeg: ".to_owned().concat(e.as_str());
                JobState::Finished {
                    result: Err(TranscodeError::FfmpegFailed { exit_code: None, stderr }),
                    remove_temp: true,
                }
            },
            (JobState::Encoding, JobEvent::Encoded(EncodeRun::Exited { success, code, stderr })) => {
                if success {
                    JobState::Validating
                } else {
                    JobState::Finished {
                        result: Err(TranscodeError::FfmpegFailed { exit_code: code, stderr }),
                        remove_temp: true,
                    }
                }
            },
            (JobState::Validating, JobEvent::Validated(Err(e))) => JobState::Finished {
                result: Err(TranscodeError::Validation(e)),
                remove_temp: true,
            },
            (JobState::Validating, JobEvent::Validated(Ok(output))) => {
                if output.size_bytes.as_u64() > limits.max_size {
                    JobState::Finished {
                        result: Ok(
                            TranscodeOutcome::Skipped {
                                reason: SkipReason::InsufficientSizeReduction,
                                vmaf: None,
                            },
                        ),
                        remove_temp: true,
                    }
                } else {
                    JobState::Measuring(output)
                }
            },
            (JobState::Measuring(output), JobEvent::Measured(vmaf)) => {
                let zero = Binary64 { bits: 0 };
                let too_low = match vmaf {
                    Some(score) => zero.lt(limits.min_vmaf) && score.lt(limits.min_vmaf),
                    None => false,
                };
                if too_low {
                    JobState::Finished {
                        result: Ok(
                            TranscodeOutcome::Skipped { reason: SkipReason::QualityTooLow, vmaf },
                        ),
                        remove_temp: true,
                    }
                } else {
                    JobState::Swapping { output, vmaf }
                }
            },
            (JobState::Swapping { output, vmaf }, JobEvent::Swapped(Ok(result))) => {
                JobState::Finished {
                    result: complete(
                        &limits,
                        result.final_path,
                        result.retention_path,
                        output,
                        vmaf,
                    ),
                    remove_temp: false,
                }
            },
            (JobState::Swapping { .. }, JobEvent::Swapped(Err(e))) => JobState::Finished {
                result: Err(e),
                remove_temp: true,
            },
            (state, _) => state,
        };
        TranscodeJob {
            media_file_id: self.media_file_id,
            original_path: self.original_path,
            temp_path: self.temp_path,
            retention_dir: self.retention_dir,
            original_duration: self.original_duration,
            args: self.args,
            limits,
            state,
        }
    }
}

/// The rate factor that was decided for a file is the one that ffmpeg is given,
/// once what was stored of the decision is read back.
pub proof fn law_decided_crf_is_used(
    bpp: Binary64,
    compression_potential: Binary64,
    crf: u8,
    estimated_saving_ratio: Binary64,
    file: MediaFile,
    job: TranscodeJob,
    settings: TranscodeSettings,
    max_size: u64,
)
    requires
        file.transcode_spec matches Some(spec) && crate::record::reads_back(
            crate::store::script::spec_members(
                bpp,
                compression_potential,
                crf,
                estimated_saving_ratio,
            ),
            spec@,
        ),
        file.video_properties is Some,
    ensures
        stated_crf(file) == Some(crf as u64),
        is_job_for(job, settings, file, crf as u64, max_size) ==> crate::text::texts(job.args@)
            == ffmpeg_args(
            settings.encoder,
            crf,
            color_of(file.video_properties->0),
            file.path@,
            temp_path_of(settings.tmp_dir@, file.id),
        ),
{
    let written = crate::store::script::spec_members(
        bpp,
        compression_potential,
        crf,
        estimated_saving_ratio,
    );
    assert(written[0] == ("crf"@, crate::record::WrittenView::Count(crf as u64)));
}

/// What holds of a transcode at every point: a file that is measured is small
/// enough, and one that is swapped in is also good enough.
pub open spec fn job_inv(limits: JobLimits, stage: JobStage) -> bool {
    match stage {
        JobStage::Measuring(output) => output.size_bytes.bytes() <= limits.max_size,
        JobStage::Swapping { output, vmaf } => output.size_bytes.bytes() <= limits.max_size
            && !quality_too_low(limits.min_vmaf, vmaf),
        _ => true,
    }
}

/// No file is swapped in that is not small enough and good enough: the
/// property holds when a transcode begins and every event keeps it.
pub proof fn law_only_checked_files_are_swapped(
    limits: JobLimits,
    stage: JobStage,
    event: JobEvent,
)
    requires
        job_inv(limits, stage),
    ensures
        job_inv(limits, JobStage::Recovering),
        job_inv(limits, job_next(limits, stage, event)),
{
}

/// A file is swapped in only after it was measured, and measured only after it
/// was accepted.
pub proof fn law_swap_follows_measurement(limits: JobLimits, stage: JobStage, event: JobEvent)
    ensures
        job_next(limits, stage, event) is Swapping ==> stage is Swapping || stage is Measuring,
        job_next(limits, stage, event) is Measuring ==> stage is Measuring || (stage is Validating
            && event matches JobEvent::Validated(Ok(_))),
        job_next(limits, stage, event) is Validating ==> stage is Validating || (stage is Encoding
            && event is Encoded),
{
}

/// Where a transcode ends after its encode was begun, the temporary file is
/// removed, unless the swap took it away.
pub proof fn law_temp_is_removed(limits: JobLimits, stage: JobStage, event: JobEvent)
    requires
        stage is Encoding || stage is Validating || stage is Measuring || stage is Swapping,
    ensures
        job_next(limits, stage, event) matches JobStage::Finished { end, remove_temp } ==> (
        remove_temp <==> !(stage is Swapping && event matches JobEvent::Swapped(Ok(_)))),
{
}

/// How many steps a transcode still takes at most.
pub open spec fn job_steps_left(stage: JobStage) -> nat {
    match stage {
        JobStage::Recovering => 5,
        JobStage::Encoding => 4,
        JobStage::Validating => 3,
        JobStage::Measuring(_) => 2,
        JobStage::Swapping { .. } => 1,
        JobStage::Finished { .. } => 0,
    }
}

/// Every event that was asked for brings a transcode nearer to its end.
pub proof fn law_job_ends(limits: JobLimits, stage: JobStage, event: JobEvent)
    ensures
        job_next(limits, stage, event) == stage || job_steps_left(job_next(limits, stage, event))
            < job_steps_left(stage),
        match stage {
            JobStage::Recovering => event is Recovered,
            JobStage::Encoding => event is Encoded,
            JobStage::Validating => event is Validated,
            JobStage::Measuring(_) => event is Measured,
            JobStage::Swapping { .. } => event is Swapped,
            JobStage::Finished { .. } => false,
        } ==> job_steps_left(job_next(limits, stage, event)) < job_steps_left(stage),
{
}

/// A job whose swap went through is completed, and never refused for the path
/// of the new file, where the original's path is absolute and ends in a file
/// name. That the new path is then absolute is what `Swapper::new` states.
pub proof fn law_swapped_file_completes_the_job(
    limits: JobLimits,
    swapper: crate::transcode::swap::Swapper,
    original: Seq<char>,
    output: ValidatedOutput,
    vmaf: Option<Binary64>,
    result: crate::transcode::swap::SwapResult,
)
    requires
        crate::models::common::is_absolute(original),
        crate::path::file_name_of(original) is Some,
        crate::transcode::swap::stays_absolute(original, swapper.paths@.final_path),
        result.final_path@ == swapper.paths@.final_path,
        result.retention_path@ == swapper.paths@.retention,
    ensures
        job_next(limits, JobStage::Swapping { output, vmaf }, JobEvent::Swapped(Ok(result))) == (
        JobStage::Finished {
            end: Ok(
                crate::transcode::outcome::OutcomeView::Completed {
                    final_path: swapper.paths@.final_path,
                    original_size: limits.original_size.bytes(),
                    new_size: output.size_bytes.bytes(),
                    bitrate: output.bitrate,
                    retention_path: swapper.paths@.retention,
                    vmaf,
                },
            ),
            remove_temp: false,
        }),
{
}

/// How a transcode begins: it is refused exactly where the file's video was
/// not measured or its transcode spec states no rate factor. Otherwise an
/// interrupted swap is put in order first, and the transcode goes by the
/// file's own size and duration and by the limits that were given.
pub proof fn law_how_a_job_begins(
    settings: TranscodeSettings,
    file: MediaFile,
    spec: Vec<crate::record::ReadMember>,
    max_size: u64,
    r: Result<TranscodeJob, TranscodeError>,
    stated: Option<u64>,
)
    requires
        call_ensures(transcode_file, (&settings, &file, max_size), r),
        call_ensures(read_count, (&spec, "crf"), stated),
        file.transcode_spec == Some(spec),
    ensures
        file.video_properties is None <==> r == Err::<TranscodeJob, TranscodeError>(
            TranscodeError::MissingVideoProperties,
        ),
        file.video_properties is Some && stated is None <==> r == Err::<
            TranscodeJob,
            TranscodeError,
        >(TranscodeError::MissingSpec),
        r is Ok <==> file.video_properties is Some && stated is Some,
        r matches Ok(job) ==> {
            let vp = file.video_properties->0;
            &&& job.state is Recovering
            &&& job.media_file_id == file.id
            &&& job.original_path@ == file.path@
            &&& job.retention_dir@ == settings.retention_dir@
            &&& job.limits.original_size == vp.size_bytes
            &&& job.limits.max_size == max_size
            &&& job.limits.min_vmaf == settings.min_vmaf
            &&& job.original_duration is Some <==> vp.duration is Some
            &&& vp.duration matches Some(d) ==> job.original_duration == Some(d.secs())
        },
{
}

/// A file without a transcode spec is not transcoded.
pub proof fn law_no_spec_no_job(
    settings: TranscodeSettings,
    file: MediaFile,
    max_size: u64,
    r: Result<TranscodeJob, TranscodeError>,
)
    requires
        call_ensures(transcode_file, (&settings, &file, max_size), r),
        file.transcode_spec is None,
    ensures
        r is Err,
        file.video_properties is Some ==> r == Err::<TranscodeJob, TranscodeError>(
            TranscodeError::MissingSpec,
        ),
{
}

/// What ffmpeg is run with: the original is its input, then come the arguments
/// that the encoder builds for the rate factor of the transcode spec and the
/// file's colours, and last the temporary path, which lies in the temporary
/// directory and is named by the file's identifier.
pub proof fn law_arguments_of_a_job(
    settings: TranscodeSettings,
    file: MediaFile,
    spec: Vec<crate::record::ReadMember>,
    max_size: u64,
    job: TranscodeJob,
    crf: u64,
    color: Option<&crate::models::video::ColorMetadata>,
    built: Vec<String>,
    id: String,
    i: int,
)
    requires
        call_ensures(transcode_file, (&settings, &file, max_size), Ok(job)),
        file.transcode_spec == Some(spec),
        call_ensures(read_count, (&spec, "crf"), Some(crf)),
        crf < 256,
        file.video_properties is Some,
        color is Some <==> file.video_properties->0.color_metadata is Some,
        color matches Some(c) ==> file.video_properties->0.color_metadata == Some(*c),
        call_ensures(Encoder::build_args, (&settings.encoder, crf as u8, color), built),
        id@ == crate::ids::hyphenated(file.id.0),
        settings.tmp_dir@.len() > 0 && settings.tmp_dir@.last() != '/',
    ensures
        job.args@.len() == built@.len() + 5,
        job.args@[0]@ == "-i"@ && job.args@[1]@ == file.path@,
        job.args@[2]@ == "-y"@ && job.args@[3]@ == "-nostdin"@,
        0 <= i < built@.len() ==> job.args@[i + 4]@ == built@[i]@,
        job.args@.last()@ == job.temp_path@,
        job.temp_path@ == settings.tmp_dir@ + seq!['/'] + (id@ + ".mkv"@),
{
    let vp = file.video_properties->0;
    assert(color_of(vp) == crate::transcode::encoder::color_view(color));
    assert((crf % 256) as u8 == crf as u8);
    crate::text::lemma_texts(job.args@);
    crate::text::lemma_texts(built@);
    let head = seq!["-i"@, file.path@, "-y"@, "-nostdin"@];
    assert(head.len() == 4);
    let temp = temp_path_of(settings.tmp_dir@, file.id);
    let all = head + crate::text::texts(built@) + seq![temp];
    assert(crate::text::texts(job.args@) == all);
    assert(all.len() == built@.len() + 5);
    assert(all.last() == temp);
    assert(forall|k: int|
        0 <= k < built@.len() ==> #[trigger] all[k + 4] == crate::text::texts(built@)[k]);
    crate::ids::lemma_uuid_round_trip(file.id.0);
    reveal_strlit(".mkv");
    let name = id@ + ".mkv"@;
    assert(name.len() > 0);
    assert(crate::text::lacks(id@, '/'));
    assert(name[0] != '/');
}

/// What is asked for at each point of a transcode.
pub proof fn law_steps_of_a_job(job: TranscodeJob, r: JobStep)
    requires
        call_ensures(TranscodeJob::step, (&job,), r),
    ensures
        r is Recover <==> job.state is Recovering,
        r is Encode <==> job.state is Encoding,
        r is Validate <==> job.state is Validating,
        r is Measure <==> job.state is Measuring,
        r is Swap <==> job.state is Swapping,
        r is Finish <==> job.state is Finished,
{
}

/// After recovery a file is encoded where no swap was begun or the original
/// was moved back. Otherwise the transcode ends, and no temporary file is
/// removed.
pub proof fn law_after_recovery(
    job: TranscodeJob,
    result: Result<RecoveryAction, RecoveryError>,
    r: TranscodeJob,
)
    requires
        call_ensures(TranscodeJob::advance, (job, JobEvent::Recovered(result)), r),
        job.state is Recovering,
    ensures
        r.limits == job.limits,
        r.state is Encoding <==> (result matches Ok(RecoveryAction::ProceedNormally)) || (
        result matches Ok(RecoveryAction::RestoreAndRetry)),
        !(r.state is Encoding) ==> (r.state matches JobState::Finished { result: end, remove_temp }
            && !remove_temp && (match result {
            Err(e) => end matches Err(TranscodeError::RecoveryFailed(x)) && x == e,
            Ok(RecoveryAction::MarkFailed { reason }) => end matches Err(
                TranscodeError::Recovery(t),
            ) && t@ == reason@,
            Ok(RecoveryAction::CommitComplete { final_path, retention_path, output_vp }) => {
                let absolute = final_path@.len() > 0 && final_path@[0] == '/';
                &&& end is Ok <==> absolute
                &&& end is Err ==> (end matches Err(TranscodeError::InvalidPath(t)) && t@
                    == final_path@)
                &&& end matches Ok(outcome) ==> outcome matches TranscodeOutcome::Completed(c)
                    && c.final_path@ == final_path@ && c.retention_path@ == retention_path@
                    && c.original_size.bytes() == job.limits.original_size.bytes()
                    && c.new_size.bytes() == output_vp.size_bytes.bytes() && c.bitrate
                    == output_vp.bitrate && c.vmaf is None
            },
            _ => true,
        })),
{
}

/// After an encode the file is checked where ffmpeg succeeded. Otherwise the
/// transcode fails with what ffmpeg said, and the temporary file is removed.
pub proof fn law_after_an_encode(job: TranscodeJob, run: EncodeRun, r: TranscodeJob)
    requires
        call_ensures(TranscodeJob::advance, (job, JobEvent::Encoded(run)), r),
        job.state is Encoding,
    ensures
        r.limits == job.limits,
        r.state is Validating <==> (run matches EncodeRun::Exited { success: true, .. }),
        !(r.state is Validating) ==> (r.state matches JobState::Finished {
            result: Err(TranscodeError::FfmpegFailed { exit_code, stderr: told }),
            remove_temp: true,
        } && (match run {
            EncodeRun::NotStarted(e) => exit_code is None && told@ == "failed to spawn ffmpeg: "@
                + e@,
            EncodeRun::Exited { code, stderr, .. } => exit_code == code && told@ == stderr@,
        })),
{
}

/// After the checks a file is measured exactly where it was accepted and is no
/// larger than the limit. One that is larger is not swapped in, for too small
/// a reduction, and one that was refused makes the transcode fail with the
/// reason. In both cases the temporary file is removed.
pub proof fn law_after_the_checks(
    job: TranscodeJob,
    result: Result<ValidatedOutput, ValidationError>,
    r: TranscodeJob,
)
    requires
        call_ensures(TranscodeJob::advance, (job, JobEvent::Validated(result)), r),
        job.state is Validating,
    ensures
        r.limits == job.limits,
        r.state is Measuring <==> result is Ok && result->Ok_0.size_bytes.bytes()
            <= job.limits.max_size,
        r.state matches JobState::Measuring(o) ==> result == Ok::<ValidatedOutput, ValidationError>(
            o,
        ),
        result is Ok && result->Ok_0.size_bytes.bytes() > job.limits.max_size ==> r.state == (
        JobState::Finished {
            result: Ok(
                TranscodeOutcome::Skipped {
                    reason: SkipReason::InsufficientSizeReduction,
                    vmaf: None,
                },
            ),
            remove_temp: true,
        }),
        result matches Err(e) ==> (r.state matches JobState::Finished {
            result: Err(TranscodeError::Validation(x)),
            remove_temp: true,
        } && x@ == e@),
{
}

/// After the measurement a file is swapped in exactly where no least score
/// above 0 is set, the file has no score, or its score is not below the least.
/// One whose score is below a least score above 0 is not swapped in, for its
/// quality and with that score, and the temporary file is removed.
pub proof fn law_after_the_measurement(
    job: TranscodeJob,
    output: ValidatedOutput,
    vmaf: Option<Binary64>,
    r: TranscodeJob,
)
    requires
        call_ensures(TranscodeJob::advance, (job, JobEvent::Measured(vmaf)), r),
        job.state == JobState::Measuring(output),
    ensures
        r.limits == job.limits,
        ({
            let least = job.limits.min_vmaf;
            let above_zero = 0 < least.bits <= 0x7ff0_0000_0000_0000;
            let refused = above_zero && vmaf is Some && vmaf->0.below(least);
            &&& !refused ==> r.state == (JobState::Swapping { output, vmaf })
            &&& refused ==> r.state == (JobState::Finished {
                result: Ok(
                    TranscodeOutcome::Skipped { reason: SkipReason::QualityTooLow, vmaf },
                ),
                remove_temp: true,
            })
        }),
{
    let least = job.limits.min_vmaf;
    crate::rounding::lemma_zero();
    crate::binary::lemma_magnitude_zero(52);
    if least.unsigned_bits() > 0 {
        crate::binary::lemma_magnitude_order(0, least.unsigned_bits(), 52);
    }
}

/// After the swap the transcode is complete, with what the swap left and what
/// the checks and the measurement found, where the path of the new file is
/// absolute. Where the swap failed, the transcode fails with its error, and
/// the temporary file is removed.
pub proof fn law_after_the_swap(
    job: TranscodeJob,
    output: ValidatedOutput,
    vmaf: Option<Binary64>,
    result: Result<SwapResult, TranscodeError>,
    r: TranscodeJob,
)
    requires
        call_ensures(TranscodeJob::advance, (job, JobEvent::Swapped(result)), r),
        job.state == (JobState::Swapping { output, vmaf }),
    ensures
        r.state is Finished,
        r.state->remove_temp <==> result is Err,
        result matches Err(e) ==> (r.state->result matches Err(x) && x@ == e@),
        result matches Ok(s) ==> {
            let absolute = s.final_path@.len() > 0 && s.final_path@[0] == '/';
            &&& !absolute ==> (r.state->result matches Err(TranscodeError::InvalidPath(t)) && t@
                == s.final_path@)
            &&& absolute ==> (r.state->result matches Ok(TranscodeOutcome::Completed(c))
                && c.final_path@ == s.final_path@ && c.retention_path@ == s.retention_path@
                && c.original_size.bytes() == job.limits.original_size.bytes()
                && c.new_size.bytes() == output.size_bytes.bytes() && c.bitrate == output.bitrate
                && c.vmaf == vmaf)
        },
{
}

/// What was not asked for changes nothing, and no event changes whose
/// transcode it is.
pub proof fn law_unasked_events_change_nothing(job: TranscodeJob, event: JobEvent, r: TranscodeJob)
    requires
        call_ensures(TranscodeJob::advance, (job, event), r),
    ensures
        r.media_file_id == job.media_file_id && r.limits == job.limits && r.args == job.args,
        r.original_path == job.original_path && r.temp_path == job.temp_path && r.retention_dir
            == job.retention_dir && r.original_duration == job.original_duration,
        !(job.state is Recovering && event is Recovered) && !(job.state is Encoding
            && event is Encoded) && !(job.state is Validating && event is Validated) && !(
        job.state is Measuring && event is Measured) && !(job.state is Swapping
            && event is Swapped) ==> r.state@ == job.state@,
{
}

/// The temporary path of a transcode is the file's identifier as Matroska,
/// joined to the temporary directory, whatever that is.
pub proof fn law_temp_path_is_joined(
    settings: TranscodeSettings,
    file: MediaFile,
    max_size: u64,
    job: TranscodeJob,
    dir: &str,
    name: &str,
    path: String,
)
    requires
        call_ensures(transcode_file, (&settings, &file, max_size), Ok(job)),
        dir@ == settings.tmp_dir@,
        name@ == crate::ids::hyphenated(file.id.0) + ".mkv"@,
        call_ensures(join, (dir, name), path),
    ensures
        job.temp_path@ == path@,
{
}

} // verus!
