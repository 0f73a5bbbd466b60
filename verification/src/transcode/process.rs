//! What is stored of a transcode, and who is told of it.
use vstd::prelude::*;

use crate::binary::Binary64;
use crate::models::event::MediaEvent;
use crate::models::media_file::MediaFile;
use crate::models::workflow::WorkflowStateTag;
use crate::transcode::error::TranscodeError;
use crate::transcode::outcome::{CompletedTranscode, TranscodeOutcome};

verus! {

/// What is stored of a transcode.
#[derive(Debug)]
pub enum Commit {
    Complete(CompletedTranscode),
    /// The event is applied to a file that is being transcoded.
    Apply { from: WorkflowStateTag, event: MediaEvent },
    /// The file is left as it is, to be tried again if it still counts as
    /// being transcoded.
    Nothing,
}

/// Which media manager is told of a new file.
#[derive(Clone, Copy, Debug, PartialEq, Eq, Structural)]
pub enum Notify {
    Movie,
    Series,
    Nobody,
}

/// What is done once a transcode has ended, in this order. A score that
/// cannot be recorded changes nothing; where the commit fails nobody is told.
#[derive(Debug)]
pub struct ProcessPlan {
    pub record_vmaf: Option<Binary64>,
    pub commit: Commit,
    pub notify: Notify,
}

/// Who is told of a new file: it belongs to a movie or to an episode, and a
/// movie comes first.
pub open spec fn manager_of(file: MediaFile) -> Notify {
    if file.movie_id is Some {
        Notify::Movie
    } else if file.episode_id is Some {
        Notify::Series
    } else {
        Notify::Nobody
    }
}

/// What is done once the transcode of a file has ended. `inner` is the text of
/// the error that a failure wraps.
pub fn process_file(
    file: &MediaFile,
    outcome: Result<TranscodeOutcome, TranscodeError>,
    inner: &str,
) -> (r: ProcessPlan)
    ensures
        match outcome {
            Ok(TranscodeOutcome::Completed(c)) => r.record_vmaf == c.vmaf && r.commit
                == Commit::Complete(c) && r.notify == manager_of(*file),
            Ok(TranscodeOutcome::Skipped { reason, vmaf }) => r.record_vmaf == vmaf && r.commit
                == (Commit::Apply {
                from: WorkflowStateTag::Transcoding,
                event: MediaEvent::Skipped { reason, bpp: None, compression_potential: None },
            }) && r.notify is Nobody,
            Ok(TranscodeOutcome::AlreadyRecovered) => r.record_vmaf is None && r.commit is Nothing
                && r.notify is Nobody,
            Err(e) => r.record_vmaf is None && r.notify is Nobody && if e is RecoveryFailed {
                r.commit is Nothing
            } else {
                r.commit matches Commit::Apply { from, event } && from
                    == WorkflowStateTag::Transcoding && event@
                    == crate::models::event::EventView::TranscodeFailed { error: e.text(inner@) }
            },
        },
{
    match outcome {
        Ok(TranscodeOutcome::Completed(c)) => {
            let notify = if file.movie_id.is_some() {
                Notify::Movie
            } else if file.episode_id.is_some() {
                Notify::Series
            } else {
                Notify::Nobody
            };
            ProcessPlan { record_vmaf: c.vmaf, commit: Commit::Complete(c), notify }
        },
        Ok(TranscodeOutcome::Skipped { reason, vmaf }) => ProcessPlan {
            record_vmaf: vmaf,
            commit: Commit::Apply {
                from: WorkflowStateTag::Transcoding,
                event: MediaEvent::Skipped { reason, bpp: None, compression_potential: None },
            },
            notify: Notify::Nobody,
        },
        Ok(TranscodeOutcome::AlreadyRecovered) => ProcessPlan {
            record_vmaf: None,
            commit: Commit::Nothing,
            notify: Notify::Nobody,
        },
        Err(e) => {
            if e.is_terminal() {
                ProcessPlan {
                    record_vmaf: None,
                    commit: Commit::Apply {
                        from: WorkflowStateTag::Transcoding,
                        event: MediaEvent::TranscodeFailed { error: e.message(inner) },
                    },
                    notify: Notify::Nobody,
                }
            } else {
                ProcessPlan { record_vmaf: None, commit: Commit::Nothing, notify: Notify::Nobody }
            }
        },
    }
}

/// The identifier that a media manager is asked to rescan. Nothing is asked
/// where the manager is not configured, the identifier could not be looked up,
/// or the item has none.
pub fn item_to_refresh<E>(configured: bool, lookup: Result<Option<i32>, E>) -> (r: Option<i32>)
    ensures
        r == (match lookup {
            Ok(Some(id)) => if configured {
                Some(id)
            } else {
                None
            },
            _ => None,
        }),
{
    match lookup {
        Ok(Some(id)) => {
            if configured {
                Some(id)
            } else {
                None
            }
        },
        _ => None,
    }
}

/// What follows a transcode. A new file is stored as it was completed, and its
/// manager is told: that of movies where the file belongs to a movie, that of
/// series where it belongs to an episode only. A file that was not replaced is
/// stored as skipped with the same reason, and nobody is told. A score is
/// recorded in both cases where there is one.
pub proof fn law_what_follows_success(
    file: MediaFile,
    c: CompletedTranscode,
    reason: crate::models::transcode::SkipReason,
    vmaf: Option<Binary64>,
    inner: &str,
    completed: ProcessPlan,
    skipped: ProcessPlan,
    known: ProcessPlan,
)
    requires
        call_ensures(process_file, (&file, Ok(TranscodeOutcome::Completed(c)), inner), completed),
        call_ensures(
            process_file,
            (&file, Ok(TranscodeOutcome::Skipped { reason, vmaf }), inner),
            skipped,
        ),
        call_ensures(process_file, (&file, Ok(TranscodeOutcome::AlreadyRecovered), inner), known),
    ensures
        completed.commit == Commit::Complete(c),
        completed.record_vmaf == c.vmaf,
        completed.notify is Movie <==> file.movie_id is Some,
        completed.notify is Series <==> file.movie_id is None && file.episode_id is Some,
        skipped.commit == (Commit::Apply {
            from: WorkflowStateTag::Transcoding,
            event: MediaEvent::Skipped { reason, bpp: None, compression_potential: None },
        }),
        skipped.record_vmaf == vmaf,
        skipped.notify is Nobody,
        known.commit is Nothing && known.record_vmaf is None && known.notify is Nobody,
{
}

/// What follows a failure: the file is left as it is where an earlier swap
/// could not be put in order, and is otherwise stored as failed with the text
/// of the failure. Nobody is told.
pub proof fn law_what_follows_failure(
    file: MediaFile,
    e: TranscodeError,
    inner: &str,
    text: String,
    plan: ProcessPlan,
)
    requires
        call_ensures(process_file, (&file, Err(e), inner), plan),
        call_ensures(TranscodeError::message, (&e, inner), text),
    ensures
        plan.record_vmaf is None && plan.notify is Nobody,
        plan.commit is Nothing <==> (e matches TranscodeError::RecoveryFailed(_)),
        !(e is RecoveryFailed) ==> (plan.commit matches Commit::Apply { from, event } && from
            == WorkflowStateTag::Transcoding && (event matches MediaEvent::TranscodeFailed {
            error,
        } && error@ == text@)),
{
}

/// A manager is asked to rescan an item exactly where the manager is configured
/// and the item's identifier was found, and then that item.
pub proof fn law_refresh(configured: bool, lookup: Result<Option<i32>, String>, r: Option<i32>)
    requires
        call_ensures(item_to_refresh::<String>, (configured, lookup), r),
    ensures
        r is Some <==> configured && (lookup matches Ok(Some(_))),
        r matches Some(id) ==> lookup == Ok::<Option<i32>, String>(Some(id)),
{
}

} // verus!
