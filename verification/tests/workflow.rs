use rankoder::models::event::MediaEvent;
use rankoder::models::transcode::SkipReason;
use rankoder::models::workflow::WorkflowStateTag;

const ALL: [WorkflowStateTag; 8] = [
    WorkflowStateTag::Discovered,
    WorkflowStateTag::Probed,
    WorkflowStateTag::Analyzed,
    WorkflowStateTag::PendingApproval,
    WorkflowStateTag::Transcoding,
    WorkflowStateTag::Done,
    WorkflowStateTag::Skipped,
    WorkflowStateTag::Failed,
];

fn skipped() -> MediaEvent {
    MediaEvent::Skipped {
        reason: SkipReason::InsufficientSizeReduction,
        bpp: None,
        compression_potential: None,
    }
}

#[test]
fn transcoding_to_done_on_transcoded() {
    assert_eq!(
        WorkflowStateTag::Transcoding.next_on(&MediaEvent::Transcoded {
            original_size: 5000000,
            new_size: 2000000,
        }),
        Some(WorkflowStateTag::Done)
    );
}

#[test]
fn transcoding_to_failed_on_transcode_failed() {
    assert_eq!(
        WorkflowStateTag::Transcoding.next_on(&MediaEvent::TranscodeFailed {
            error: "boom".into(),
        }),
        Some(WorkflowStateTag::Failed)
    );
}

#[test]
fn transcoding_to_skipped_on_skipped() {
    assert_eq!(
        WorkflowStateTag::Transcoding.next_on(&skipped()),
        Some(WorkflowStateTag::Skipped)
    );
}

#[test]
fn the_whole_way_to_done() {
    let zero = rankoder::binary::Binary64 { bits: 0 };
    let mut state = WorkflowStateTag::Discovered;
    let events = [
        MediaEvent::Probed,
        MediaEvent::Analyzed { bpp: zero, compression_potential: zero, crf: 24 },
        MediaEvent::PendingApproval,
        MediaEvent::ApprovalGranted,
        MediaEvent::Transcoded { original_size: 2, new_size: 1 },
    ];
    for e in &events {
        state = state.next_on(e).unwrap();
    }
    assert_eq!(state, WorkflowStateTag::Done);
}

#[test]
fn final_states_take_no_event() {
    for state in [WorkflowStateTag::Done, WorkflowStateTag::Skipped, WorkflowStateTag::Failed] {
        assert_eq!(state.next_on(&MediaEvent::Probed), None);
        assert_eq!(state.next_on(&skipped()), None);
        assert_eq!(state.next_on(&MediaEvent::ApprovalGranted), None);
    }
}

#[test]
fn approval_is_needed_before_a_transcode() {
    for state in ALL {
        let next = state.next_on(&MediaEvent::ApprovalGranted);
        if state == WorkflowStateTag::PendingApproval {
            assert_eq!(next, Some(WorkflowStateTag::Transcoding));
        } else {
            assert_eq!(next, None);
        }
    }
}

#[test]
fn probe_failure_and_rejection() {
    assert_eq!(
        WorkflowStateTag::Discovered.next_on(&MediaEvent::ProbeFailed { error: "x".into() }),
        Some(WorkflowStateTag::Failed)
    );
    assert_eq!(
        WorkflowStateTag::PendingApproval.next_on(&MediaEvent::ApprovalRejected),
        Some(WorkflowStateTag::Skipped)
    );
    assert_eq!(
        WorkflowStateTag::Probed.next_on(&skipped()),
        Some(WorkflowStateTag::Skipped)
    );
}

#[test]
fn state_names_are_read_back() {
    for state in ALL {
        assert_eq!(WorkflowStateTag::from_name(state.as_str()), Some(state));
    }
    assert_eq!(WorkflowStateTag::PendingApproval.as_str(), "pending_approval");
    assert_eq!(WorkflowStateTag::from_name("Done"), None);
}
