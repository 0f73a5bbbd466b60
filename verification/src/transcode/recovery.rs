//! Putting an interrupted swap in order.
use vstd::prelude::*;
use vstd::string::*;

use crate::models::library::MediaFileId;
use crate::transcode::error::RecoveryError;
use crate::transcode::swap::{swap_paths, SwapPaths};
use crate::transcode::validation::ValidatedOutput;

verus! {

/// How to go on with a file whose swap may have been interrupted.
#[derive(Debug)]
pub enum RecoveryAction {
    /// No swap was begun.
    ProceedNormally,
    /// The swap was completed; only the record of it was lost.
    CommitComplete { final_path: String, retention_path: String, output_vp: ValidatedOutput },
    /// The original was moved back.
    RestoreAndRetry,
    MarkFailed { reason: String },
}

/// How a recovery ended, with texts by their characters.
pub enum Verdict {
    ProceedNormally,
    CommitComplete {
        final_path: Seq<char>,
        retention_path: Seq<char>,
        output_vp: ValidatedOutput,
    },
    RestoreAndRetry,
    MarkFailed { reason: Seq<char> },
    /// The original could not be moved back.
    NotRestored { error: Seq<char> },
    /// Any other error.
    Broken(RecoveryError),
}

/// How a recovery ended.
pub open spec fn verdict_of(r: Result<RecoveryAction, RecoveryError>) -> Verdict {
    match r {
        Ok(RecoveryAction::ProceedNormally) => Verdict::ProceedNormally,
        Ok(RecoveryAction::CommitComplete { final_path, retention_path, output_vp }) =>
            Verdict::CommitComplete {
            final_path: final_path@,
            retention_path: retention_path@,
            output_vp,
        },
        Ok(RecoveryAction::RestoreAndRetry) => Verdict::RestoreAndRetry,
        Ok(RecoveryAction::MarkFailed { reason }) => Verdict::MarkFailed { reason: reason@ },
        Err(RecoveryError::Filesystem(error)) => Verdict::NotRestored { error: error@ },
        Err(e) => Verdict::Broken(e),
    }
}

/// How far a recovery has come.
#[derive(Debug)]
pub enum RecoveryState {
    /// Is the original in retention?
    CheckingRetention,
    /// Is there a file at the final path?
    CheckingFinal,
    /// Is that file what was asked for?
    Validating,
    /// The original is to be moved back.
    Restoring,
    Finished(Result<RecoveryAction, RecoveryError>),
}

/// How far a recovery has come.
pub enum Stage {
    CheckingRetention,
    CheckingFinal,
    Validating,
    Restoring,
    Finished(Verdict),
}

impl View for RecoveryState {
    type V = Stage;

    open spec fn view(&self) -> Stage {
        match *self {
            RecoveryState::CheckingRetention => Stage::CheckingRetention,
            RecoveryState::CheckingFinal => Stage::CheckingFinal,
            RecoveryState::Validating => Stage::Validating,
            RecoveryState::Restoring => Stage::Restoring,
            RecoveryState::Finished(r) => Stage::Finished(verdict_of(r)),
        }
    }
}

/// What is to be found out or done next.
#[derive(Debug)]
pub enum RecoveryStep {
    Exists(String),
    Validate(String),
    Rename { from: String, to: String },
    Finish,
}

/// What was found out or done.
#[derive(Debug)]
pub enum RecoveryEvent {
    Exists(bool),
    /// The file was accepted, or the text of the error for which it was not.
    Validated(Result<ValidatedOutput, String>),
    Renamed(Result<(), String>),
}

/// How a recovery goes on. What was not asked for changes nothing.
pub open spec fn recovery_next(
    p: crate::transcode::swap::SwapPathsView,
    stage: Stage,
    event: RecoveryEvent,
) -> Stage {
    match (stage, event) {
        (Stage::CheckingRetention, RecoveryEvent::Exists(found)) => if found {
            Stage::CheckingFinal
        } else {
            Stage::Finished(Verdict::ProceedNormally)
        },
        (Stage::CheckingFinal, RecoveryEvent::Exists(found)) => if found {
            Stage::Validating
        } else {
            Stage::Restoring
        },
        (Stage::Validating, RecoveryEvent::Validated(Ok(output_vp))) => Stage::Finished(
            Verdict::CommitComplete {
                final_path: p.final_path,
                retention_path: p.retention,
                output_vp,
            },
        ),
        (Stage::Validating, RecoveryEvent::Validated(Err(e))) => Stage::Finished(
            Verdict::MarkFailed { reason: "post-swap recovery validation failed: "@ + e@ },
        ),
        (Stage::Restoring, RecoveryEvent::Renamed(Ok(_))) => Stage::Finished(
            Verdict::RestoreAndRetry,
        ),
        (Stage::Restoring, RecoveryEvent::Renamed(Err(e))) => Stage::Finished(
            Verdict::NotRestored { error: e@ },
        ),
        _ => stage,
    }
}

/// A recovery under way.
#[derive(Debug)]
pub struct Recovery {
    pub paths: SwapPaths,
    pub state: RecoveryState,
}

/// Begins the recovery of a file. The paths are those that the file's swap
/// uses, so that what a swap left is found.
pub fn recover_stuck_transcode(
    original_path: &str,
    temp_path: &str,
    media_file_id: MediaFileId,
    retention_dir: &str,
) -> (r: Recovery)
    ensures
        r.paths@ == crate::transcode::swap::swap_paths_of(
            original_path@,
            temp_path@,
            retention_dir@,
            media_file_id,
        ),
        crate::transcode::swap::stays_absolute(original_path@, r.paths@.final_path),
        r.state@ == Stage::CheckingRetention,
{
    Recovery {
        paths: swap_paths(original_path, temp_path, retention_dir, media_file_id),
        state: RecoveryState::CheckingRetention,
    }
}

impl Recovery {
    /// What is to be found out or done next.
    pub fn step(&self) -> (r: RecoveryStep)
        ensures
            match self.state@ {
                Stage::CheckingRetention => r matches RecoveryStep::Exists(p) && p@
                    == self.paths@.retention,
                Stage::CheckingFinal => r matches RecoveryStep::Exists(p) && p@
                    == self.paths@.final_path,
                Stage::Validating => r matches RecoveryStep::Validate(p) && p@
                    == self.paths@.final_path,
                Stage::Restoring => r matches RecoveryStep::Rename { from, to } && from@
                    == self.paths@.retention && to@ == self.paths@.original,
                Stage::Finished(_) => r is Finish,
            },
    {
        match &self.state {
            RecoveryState::CheckingRetention => RecoveryStep::Exists(self.paths.retention.clone()),
            RecoveryState::CheckingFinal => RecoveryStep::Exists(self.paths.final_path.clone()),
            RecoveryState::Validating => RecoveryStep::Validate(self.paths.final_path.clone()),
            RecoveryState::Restoring => RecoveryStep::Rename {
                from: self.paths.retention.clone(),
                to: self.paths.original.clone(),
            },
            RecoveryState::Finished(_) => RecoveryStep::Finish,
        }
    }

    /// Takes what was found out or done.
    pub fn advance(self, event: RecoveryEvent) -> (r: Self)
        ensures
            r.paths == self.paths,
            r.state@ == recovery_next(self.paths@, self.state@, event),
    {
        let state = match (self.state, event) {
            (RecoveryState::CheckingRetention, RecoveryEvent::Exists(found)) => {
                if found {
                    RecoveryState::CheckingFinal
                } else {
                    RecoveryState::Finished(Ok(RecoveryAction::ProceedNormally))
                }
            },
            (RecoveryState::CheckingFinal, RecoveryEvent::Exists(found)) => {
                if found {
                    RecoveryState::Validating
                } else {
                    RecoveryState::Restoring
                }
            },
            (RecoveryState::Validating, RecoveryEvent::Validated(Ok(output_vp))) => {
                RecoveryState::Finished(
                    Ok(
                        RecoveryAction::CommitComplete {
                            final_path: self.paths.final_path.clone(),
                            retention_path: self.paths.retention.clone(),
                            output_vp,
                        },
                    ),
                )
            },
            (RecoveryState::Validating, RecoveryEvent::Validated(Err(e))) => {
                let reason = "post-swap recovery validation failed: ".to_owned().concat(
                    e.as_str(),
                );
                RecoveryState::Finished(Ok(RecoveryAction::MarkFailed { reason }))
            },
            (RecoveryState::Restoring, RecoveryEvent::Renamed(Ok(_))) => {
                RecoveryState::Finished(Ok(RecoveryAction::RestoreAndRetry))
            },
            (RecoveryState::Restoring, RecoveryEvent::Renamed(Err(e))) => {
                RecoveryState::Finished(Err(RecoveryError::Filesystem(e)))
            },
            (state, _) => state,
        };
        Recovery { paths: self.paths, state }
    }

    /// How the recovery ended, once it has.
    pub fn into_result(self) -> (r: Option<Result<RecoveryAction, RecoveryError>>)
        ensures
            match r {
                Some(x) => self.state == RecoveryState::Finished(x),
                None => !(self.state@ is Finished),
            },
    {
        match self.state {
            RecoveryState::Finished(r) => Some(r),
            _ => None,
        }
    }
}

/// The answer that a disk gives to what a recovery asks. Whether the file at
/// the final path is accepted is `accepted`; renames succeed.
pub open spec fn answer(
    p: crate::transcode::swap::SwapPathsView,
    stage: Stage,
    disk: crate::transcode::swap::Disk,
    accepted: Result<ValidatedOutput, String>,
) -> RecoveryEvent {
    match stage {
        Stage::CheckingRetention => RecoveryEvent::Exists(disk.contains_key(p.retention)),
        Stage::CheckingFinal => RecoveryEvent::Exists(disk.contains_key(p.final_path)),
        Stage::Validating => RecoveryEvent::Validated(accepted),
        _ => RecoveryEvent::Renamed(Ok(())),
    }
}

/// The disk after what a recovery asks for.
pub open spec fn disk_after_step(
    p: crate::transcode::swap::SwapPathsView,
    stage: Stage,
    disk: crate::transcode::swap::Disk,
) -> crate::transcode::swap::Disk {
    if stage is Restoring {
        crate::transcode::swap::renamed(disk, p.retention, p.original)
    } else {
        disk
    }
}

/// How many steps a recovery still takes at most.
pub open spec fn steps_left(stage: Stage) -> nat {
    match stage {
        Stage::CheckingRetention => 3,
        Stage::CheckingFinal => 2,
        Stage::Validating => 1,
        Stage::Restoring => 1,
        Stage::Finished(_) => 0,
    }
}

/// How a recovery ends on a disk, and what it leaves on it.
pub open spec fn recovered(
    p: crate::transcode::swap::SwapPathsView,
    stage: Stage,
    disk: crate::transcode::swap::Disk,
    accepted: Result<ValidatedOutput, String>,
) -> (Verdict, crate::transcode::swap::Disk)
    decreases steps_left(stage),
{
    match stage {
        Stage::Finished(v) => (v, disk),
        _ => recovered(
            p,
            recovery_next(p, stage, answer(p, stage, disk, accepted)),
            disk_after_step(p, stage, disk),
            accepted,
        ),
    }
}

/// A swap that was broken off at any point is put in order: where it had not
/// begun or was rolled back, the file is simply tried again; where the
/// original was moved and the encoded file not, the disk is as it was before;
/// and where both were moved, the swap counts as done if the file is accepted,
/// and as failed, with the original in retention, if it is not.
pub proof fn law_recovery_after_swap(
    state: crate::transcode::swap::SwapState,
    start: crate::transcode::swap::Disk,
    disk: crate::transcode::swap::Disk,
    p: crate::transcode::swap::SwapPathsView,
    accepted: Result<ValidatedOutput, String>,
)
    requires
        crate::transcode::swap::can_begin(start, p),
        crate::transcode::swap::disk_at(state, start, disk, p),
    ensures
        ({
            let (verdict, after) = recovered(p, Stage::CheckingRetention, disk, accepted);
            if state is Swapped {
                &&& after == disk
                &&& match accepted {
                    Ok(output_vp) => verdict == (Verdict::CommitComplete {
                        final_path: p.final_path,
                        retention_path: p.retention,
                        output_vp,
                    }),
                    Err(_) => verdict is MarkFailed,
                }
            } else {
                &&& after == start
                &&& disk == start ==> verdict == Verdict::ProceedNormally
                &&& disk != start ==> verdict == Verdict::RestoreAndRetry
            }
        }),
{
    reveal_with_fuel(recovered, 5);
    let kept = crate::transcode::swap::renamed(start, p.original, p.retention);
    assert(crate::transcode::swap::renamed(kept, p.retention, p.original) =~= start);
    assert(kept.contains_key(p.retention));
}

/// What a recovery asks: whether the original is in retention, whether there
/// is a file at the final path, whether that is accepted, and to move the
/// original back from retention to where it was.
pub proof fn law_what_recovery_asks(recovery: Recovery, r: RecoveryStep)
    requires
        call_ensures(Recovery::step, (&recovery,), r),
    ensures
        recovery.state is CheckingRetention ==> (r matches RecoveryStep::Exists(p) && p@
            == recovery.paths.retention@),
        recovery.state is CheckingFinal ==> (r matches RecoveryStep::Exists(p) && p@
            == recovery.paths.final_path@),
        recovery.state is Validating ==> (r matches RecoveryStep::Validate(p) && p@
            == recovery.paths.final_path@),
        recovery.state is Restoring ==> (r matches RecoveryStep::Rename { from, to } && from@
            == recovery.paths.retention@ && to@ == recovery.paths.original@),
        r is Finish <==> recovery.state is Finished,
{
}

/// How a recovery goes on: without an original in retention the file is tried
/// from the start; without a file at the final path the original is moved
/// back; a file that is accepted is committed with the paths of its swap, and
/// one that is not makes the transcode fail with the reason. What was not
/// asked for changes nothing.
pub proof fn law_how_recovery_goes_on(recovery: Recovery, event: RecoveryEvent, r: Recovery)
    requires
        call_ensures(Recovery::advance, (recovery, event), r),
    ensures
        r.paths == recovery.paths,
        recovery.state is CheckingRetention && event == RecoveryEvent::Exists(true)
            ==> r.state is CheckingFinal,
        recovery.state is CheckingRetention && event == RecoveryEvent::Exists(false) ==> (
        r.state matches RecoveryState::Finished(Ok(RecoveryAction::ProceedNormally))),
        recovery.state is CheckingFinal && event == RecoveryEvent::Exists(true)
            ==> r.state is Validating,
        recovery.state is CheckingFinal && event == RecoveryEvent::Exists(false)
            ==> r.state is Restoring,
        recovery.state is Validating && event is Validated && event->Validated_0 is Ok ==> (
        r.state matches RecoveryState::Finished(
            Ok(RecoveryAction::CommitComplete { final_path, retention_path, output_vp }),
        ) && final_path@ == recovery.paths.final_path@ && retention_path@
            == recovery.paths.retention@ && output_vp == event->Validated_0->Ok_0),
        recovery.state is Validating && event is Validated && event->Validated_0 is Err ==> (
        r.state matches RecoveryState::Finished(Ok(RecoveryAction::MarkFailed { reason }))
            && reason@ == "post-swap recovery validation failed: "@ + event->Validated_0->Err_0@),
        recovery.state is Restoring && event is Renamed && event->Renamed_0 is Ok ==> (
        r.state matches RecoveryState::Finished(Ok(RecoveryAction::RestoreAndRetry))),
        recovery.state is Restoring && event is Renamed && event->Renamed_0 is Err ==> (
        r.state matches RecoveryState::Finished(Err(RecoveryError::Filesystem(t))) && t@
            == event->Renamed_0->Err_0@),
        !(event is Exists && (recovery.state is CheckingRetention
            || recovery.state is CheckingFinal)) && !(event is Validated
            && recovery.state is Validating) && !(event is Renamed && recovery.state is Restoring)
            ==> r.state@ == recovery.state@,
{
}

/// A recovery looks where the swap of the same file puts its files, begins
/// with retention, and gives its result exactly once it has ended.
pub proof fn law_recovery_and_swap_share_paths(
    original: &str,
    temp: &str,
    retention_dir: &str,
    id: MediaFileId,
    recovery: Recovery,
    swapper: crate::transcode::swap::Swapper,
    other: Recovery,
    result: Option<Result<RecoveryAction, RecoveryError>>,
)
    requires
        call_ensures(recover_stuck_transcode, (original, temp, id, retention_dir), recovery),
        call_ensures(
            crate::transcode::swap::Swapper::new,
            (original, temp, retention_dir, id),
            swapper,
        ),
        call_ensures(Recovery::into_result, (other,), result),
    ensures
        recovery.state is CheckingRetention,
        recovery.paths.original@ == swapper.paths.original@,
        recovery.paths.temp@ == swapper.paths.temp@,
        recovery.paths.retention@ == swapper.paths.retention@,
        recovery.paths.final_path@ == swapper.paths.final_path@,
        result is Some <==> other.state is Finished,
        result matches Some(x) ==> other.state == RecoveryState::Finished(x),
{
}

} // verus!
