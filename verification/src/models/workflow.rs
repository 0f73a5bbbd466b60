//! The states of a media file and the events that move it between them.
use vstd::prelude::*;
use vstd::string::*;

use crate::models::event::MediaEvent;
use crate::text::same_text;

verus! {

/// Where a media file stands.
#[derive(Clone, Copy, Debug, PartialEq, Eq, Structural)]
pub enum WorkflowStateTag {
    Discovered,
    Probed,
    Analyzed,
    PendingApproval,
    Transcoding,
    Done,
    Skipped,
    Failed,
}

impl WorkflowStateTag {
    /// The name under which a state is recorded.
    pub open spec fn name(self) -> Seq<char> {
        match self {
            WorkflowStateTag::Discovered => "discovered"@,
            WorkflowStateTag::Probed => "probed"@,
            WorkflowStateTag::Analyzed => "analyzed"@,
            WorkflowStateTag::PendingApproval => "pending_approval"@,
            WorkflowStateTag::Transcoding => "transcoding"@,
            WorkflowStateTag::Done => "done"@,
            WorkflowStateTag::Skipped => "skipped"@,
            WorkflowStateTag::Failed => "failed"@,
        }
    }

    /// The state that an event leads to, where the event may happen.
    pub open spec fn successor(self, event: crate::models::event::EventView) -> Option<WorkflowStateTag> {
        match self {
            WorkflowStateTag::Discovered => if event is Probed {
                Some(WorkflowStateTag::Probed)
            } else if event is ProbeFailed {
                Some(WorkflowStateTag::Failed)
            } else {
                None
            },
            WorkflowStateTag::Probed => if event is Analyzed {
                Some(WorkflowStateTag::Analyzed)
            } else if event is Skipped {
                Some(WorkflowStateTag::Skipped)
            } else {
                None
            },
            WorkflowStateTag::Analyzed => if event is PendingApproval {
                Some(WorkflowStateTag::PendingApproval)
            } else {
                None
            },
            WorkflowStateTag::PendingApproval => if event is ApprovalGranted {
                Some(WorkflowStateTag::Transcoding)
            } else if event is ApprovalRejected {
                Some(WorkflowStateTag::Skipped)
            } else {
                None
            },
            WorkflowStateTag::Transcoding => if event is Transcoded {
                Some(WorkflowStateTag::Done)
            } else if event is TranscodeFailed {
                Some(WorkflowStateTag::Failed)
            } else if event is Skipped {
                Some(WorkflowStateTag::Skipped)
            } else {
                None
            },
            WorkflowStateTag::Done => None,
            WorkflowStateTag::Skipped => None,
            WorkflowStateTag::Failed => None,
        }
    }

    pub fn next_on(self, event: &MediaEvent) -> (r: Option<WorkflowStateTag>)
        ensures
            r == self.successor(event@),
    {
        match (self, event) {
            (WorkflowStateTag::Discovered, MediaEvent::Probed) => Some(WorkflowStateTag::Probed),
            (WorkflowStateTag::Discovered, MediaEvent::ProbeFailed { .. }) => Some(
                WorkflowStateTag::Failed,
            ),
            (WorkflowStateTag::Probed, MediaEvent::Analyzed { .. }) => Some(
                WorkflowStateTag::Analyzed,
            ),
            (WorkflowStateTag::Probed, MediaEvent::Skipped { .. }) => Some(
                WorkflowStateTag::Skipped,
            ),
            (WorkflowStateTag::Analyzed, MediaEvent::PendingApproval) => Some(
                WorkflowStateTag::PendingApproval,
            ),
            (WorkflowStateTag::PendingApproval, MediaEvent::ApprovalGranted) => Some(
                WorkflowStateTag::Transcoding,
            ),
            (WorkflowStateTag::PendingApproval, MediaEvent::ApprovalRejected) => Some(
                WorkflowStateTag::Skipped,
            ),
            (WorkflowStateTag::Transcoding, MediaEvent::Transcoded { .. }) => Some(
                WorkflowStateTag::Done,
            ),
            (WorkflowStateTag::Transcoding, MediaEvent::TranscodeFailed { .. }) => Some(
                WorkflowStateTag::Failed,
            ),
            (WorkflowStateTag::Transcoding, MediaEvent::Skipped { .. }) => Some(
                WorkflowStateTag::Skipped,
            ),
            _ => None,
        }
    }

    pub fn as_str(&self) -> (r: &'static str)
        ensures
            r@ == self.name(),
    {
        match self {
            WorkflowStateTag::Discovered => "discovered",
            WorkflowStateTag::Probed => "probed",
            WorkflowStateTag::Analyzed => "analyzed",
            WorkflowStateTag::PendingApproval => "pending_approval",
            WorkflowStateTag::Transcoding => "transcoding",
            WorkflowStateTag::Done => "done",
            WorkflowStateTag::Skipped => "skipped",
            WorkflowStateTag::Failed => "failed",
        }
    }

    /// The state that a name stands for.
    pub fn from_name(s: &str) -> (r: Option<WorkflowStateTag>)
        ensures
            match r {
                Some(state) => s@ == state.name(),
                None => forall|state: WorkflowStateTag|
                    #![trigger state.name()]
                    s@ != state.name(),
            },
    {
        if same_text(s, "discovered") {
            Some(WorkflowStateTag::Discovered)
        } else if same_text(s, "probed") {
            Some(WorkflowStateTag::Probed)
        } else if same_text(s, "analyzed") {
            Some(WorkflowStateTag::Analyzed)
        } else if same_text(s, "pending_approval") {
            Some(WorkflowStateTag::PendingApproval)
        } else if same_text(s, "transcoding") {
            Some(WorkflowStateTag::Transcoding)
        } else if same_text(s, "done") {
            Some(WorkflowStateTag::Done)
        } else if same_text(s, "skipped") {
            Some(WorkflowStateTag::Skipped)
        } else if same_text(s, "failed") {
            Some(WorkflowStateTag::Failed)
        } else {
            None
        }
    }
}

/// No two states are recorded under one name.
pub proof fn law_state_names_differ(a: WorkflowStateTag, b: WorkflowStateTag)
    requires
        a.name() == b.name(),
    ensures
        a == b,
{
    reveal_strlit("discovered");
    reveal_strlit("probed");
    reveal_strlit("analyzed");
    reveal_strlit("pending_approval");
    reveal_strlit("transcoding");
    reveal_strlit("done");
    reveal_strlit("skipped");
    reveal_strlit("failed");
    assert("discovered"@.len() == 10);
    assert("probed"@.len() == 6);
    assert("analyzed"@.len() == 8);
    assert("pending_approval"@.len() == 16);
    assert("transcoding"@.len() == 11);
    assert("done"@.len() == 4);
    assert("skipped"@.len() == 7);
    assert("failed"@.len() == 6);
    assert("probed"@[0] == 'p' && "failed"@[0] == 'f');
}

/// The state after a sequence of events, where each of them may happen.
pub open spec fn after(
    state: WorkflowStateTag,
    events: Seq<crate::models::event::EventView>,
) -> Option<WorkflowStateTag>
    decreases events.len(),
{
    if events.len() == 0 {
        Some(state)
    } else {
        match state.successor(events[0]) {
            Some(next) => after(next, events.skip(1)),
            None => None,
        }
    }
}

/// How far a state is from the end of the workflow.
pub open spec fn steps_left(state: WorkflowStateTag) -> nat {
    match state {
        WorkflowStateTag::Discovered => 5,
        WorkflowStateTag::Probed => 4,
        WorkflowStateTag::Analyzed => 3,
        WorkflowStateTag::PendingApproval => 2,
        WorkflowStateTag::Transcoding => 1,
        _ => 0,
    }
}

/// Whether a state is an end of the workflow.
pub open spec fn is_final(state: WorkflowStateTag) -> bool {
    state is Done || state is Skipped || state is Failed
}

/// No event leads out of a file that is done, skipped or failed.
pub proof fn law_final_states_stay(
    state: WorkflowStateTag,
    event: crate::models::event::EventView,
)
    requires
        is_final(state),
    ensures
        state.successor(event) is None,
{
}

/// Every event brings a file nearer to the end: no state is met twice, and no
/// file goes through more than five events.
pub proof fn law_workflow_ends(
    state: WorkflowStateTag,
    events: Seq<crate::models::event::EventView>,
)
    requires
        after(state, events) is Some,
    ensures
        events.len() + steps_left(after(state, events)->0) <= steps_left(state),
    decreases events.len(),
{
    if events.len() > 0 {
        law_workflow_ends(state.successor(events[0])->0, events.skip(1));
    }
}

/// A file that was discovered is done only if it was probed, analysed, put up
/// for approval, approved and transcoded, in this order.
pub proof fn law_done_means_approved(events: Seq<crate::models::event::EventView>)
    requires
        after(WorkflowStateTag::Discovered, events) == Some(WorkflowStateTag::Done),
    ensures
        events.len() == 5,
        events[0] is Probed,
        events[1] is Analyzed,
        events[2] is PendingApproval,
        events[3] is ApprovalGranted,
        events[4] is Transcoded,
{
    reveal_with_fuel(after, 7);
    law_workflow_ends(WorkflowStateTag::Discovered, events);
}

/// The moves of a file: each state has its own events that lead on, ten moves
/// in all, and every other event is refused. A discovered file is probed or
/// fails; a probed one is analysed or skipped; an analysed one waits for
/// approval; one that waits is transcoded or skipped, as the answer is; and
/// one that is transcoded is done, fails or is skipped.
pub proof fn law_moves(state: WorkflowStateTag, event: MediaEvent, r: Option<WorkflowStateTag>)
    requires
        call_ensures(WorkflowStateTag::next_on, (state, &event), r),
    ensures
        r == Some(WorkflowStateTag::Probed) <==> state is Discovered && event is Probed,
        r == Some(WorkflowStateTag::Analyzed) <==> state is Probed && event is Analyzed,
        r == Some(WorkflowStateTag::PendingApproval) <==> state is Analyzed
            && event is PendingApproval,
        r == Some(WorkflowStateTag::Transcoding) <==> state is PendingApproval
            && event is ApprovalGranted,
        r == Some(WorkflowStateTag::Done) <==> state is Transcoding && event is Transcoded,
        r == Some(WorkflowStateTag::Failed) <==> (state is Discovered && event is ProbeFailed) || (
        state is Transcoding && event is TranscodeFailed),
        r == Some(WorkflowStateTag::Skipped) <==> (state is Probed && event is Skipped) || (
        state is PendingApproval && event is ApprovalRejected) || (state is Transcoding
            && event is Skipped),
        r != Some(WorkflowStateTag::Discovered),
{
}

/// The names under which the states are recorded, and that each is read back
/// from its own.
pub proof fn law_state_names(
    state: WorkflowStateTag,
    s: &'static str,
    read: Option<WorkflowStateTag>,
)
    requires
        call_ensures(WorkflowStateTag::as_str, (&state,), s),
        call_ensures(WorkflowStateTag::from_name, (s,), read),
    ensures
        read == Some(state),
        state is Discovered ==> s@ == "discovered"@,
        state is Probed ==> s@ == "probed"@,
        state is Analyzed ==> s@ == "analyzed"@,
        state is PendingApproval ==> s@ == "pending_approval"@,
        state is Transcoding ==> s@ == "transcoding"@,
        state is Done ==> s@ == "done"@,
        state is Skipped ==> s@ == "skipped"@,
        state is Failed ==> s@ == "failed"@,
{
    if let Some(x) = read {
        law_state_names_differ(x, state);
    } else {
        assert(s@ == state.name());
    }
}

/// No text but a state's own name stands for it.
pub proof fn law_only_names_stand_for_states(
    text: &str,
    read: Option<WorkflowStateTag>,
    state: WorkflowStateTag,
    name: &'static str,
)
    requires
        call_ensures(WorkflowStateTag::from_name, (text,), read),
        call_ensures(WorkflowStateTag::as_str, (&state,), name),
    ensures
        read == Some(state) <==> text@ == name@,
{
    if text@ == name@ {
        if let Some(x) = read {
            law_state_names_differ(x, state);
        } else {
            assert(text@ == state.name());
        }
    }
}

} // verus!
