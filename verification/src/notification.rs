//! What the operator is told.
use vstd::prelude::*;
use vstd::string::*;

use crate::binary::Binary64;
use crate::ids::uuid_text;
use crate::models::workflow::WorkflowStateTag;
use crate::store::failure::FailureRecord;
use crate::store::mapping::copy_text;

verus! {

/// One failure, as it is told at once.
#[derive(Debug)]
pub struct FailureAlert {
    pub media_file_id: String,
    pub kind: String,
    pub title: Option<String>,
    pub reason: String,
}

/// Whether an alert is that of a failure.
pub open spec fn is_alert_of(a: FailureAlert, f: FailureRecord) -> bool {
    &&& a.media_file_id@ == crate::ids::hyphenated(f.media_file_id.0)
    &&& a.kind == f.kind
    &&& a.title == f.title
    &&& a.reason == f.error
}

/// The alert of a failure.
pub fn to_alert(failure: &FailureRecord) -> (r: FailureAlert)
    ensures
        is_alert_of(r, *failure),
{
    FailureAlert {
        media_file_id: uuid_text(failure.media_file_id.as_uuid()),
        kind: failure.kind.clone(),
        title: copy_text(&failure.title),
        reason: failure.error.clone(),
    }
}

/// The greatest of a number and the failures' event numbers.
pub open spec fn high_water(after_id: i64, failures: Seq<FailureRecord>) -> i64
    decreases failures.len(),
{
    if failures.len() == 0 {
        after_id
    } else {
        let before = high_water(after_id, failures.drop_last());
        if failures.last().event_id > before {
            failures.last().event_id
        } else {
            before
        }
    }
}

/// The alerts for the failures since an event, one for each and in order, and
/// the event up to which failures have now been told. Where the failures could
/// not be read nothing is told and the event stays.
pub fn push_new_failures(after_id: i64, failures: Option<Vec<FailureRecord>>) -> (r: (
    Vec<FailureAlert>,
    i64,
))
    ensures
        match failures {
            Some(f) => r.0@.len() == f@.len() && (forall|i: int|
                0 <= i < f@.len() ==> is_alert_of(#[trigger] r.0@[i], f@[i])) && r.1 == high_water(
                after_id,
                f@,
            ),
            None => r.0@.len() == 0 && r.1 == after_id,
        },
{
    let mut alerts: Vec<FailureAlert> = Vec::new();
    let failures = match failures {
        Some(f) => f,
        None => {
            return (alerts, after_id);
        },
    };
    let mut high: i64 = after_id;
    let mut i: usize = 0;
    assert(failures@.take(0) =~= Seq::<FailureRecord>::empty());
    while i < failures.len()
        invariant
            i <= failures@.len(),
            alerts@.len() == i,
            forall|j: int| 0 <= j < i ==> is_alert_of(#[trigger] alerts@[j], failures@[j]),
            high == high_water(after_id, failures@.take(i as int)),
        decreases failures@.len() - i,
    {
        proof {
            assert(failures@.take(i + 1).drop_last() =~= failures@.take(i as int));
            assert(failures@.take(i + 1).last() == failures@[i as int]);
        }
        if failures[i].event_id > high {
            high = failures[i].event_id;
        }
        alerts.push(to_alert(&failures[i]));
        i = i + 1;
    }
    assert(failures@.take(failures@.len() as int) =~= failures@);
    (alerts, high)
}

/// No failure is told twice: after a round every failure that was told lies at
/// or before the event from which the next round goes on, and that event never
/// goes back.
pub proof fn law_failures_are_told_once(after_id: i64, failures: Seq<FailureRecord>, i: int)
    ensures
        after_id <= high_water(after_id, failures),
        0 <= i < failures.len() ==> failures[i].event_id <= high_water(after_id, failures),
    decreases failures.len(),
{
    if failures.len() > 0 {
        law_failures_are_told_once(after_id, failures.drop_last(), i);
        if 0 <= i < failures.len() - 1 {
            assert(failures.drop_last()[i] == failures[i]);
        }
    }
}

/// The state of the pipeline.
#[derive(Debug)]
pub struct StatusSnapshot {
    /// The version that is running.
    pub version: String,
    pub discovered: i64,
    pub probed: i64,
    pub analyzed: i64,
    pub pending_approval: i64,
    pub transcoding: i64,
    pub done: i64,
    pub skipped: i64,
    pub failed: i64,
    pub space_saved_gb: Binary64,
    pub last_failure: Option<FailureAlert>,
}

/// The number of files in a state: the last that is stated for it, and none
/// where none is stated.
pub open spec fn count_in(counts: Seq<(WorkflowStateTag, i64)>, state: WorkflowStateTag) -> i64
    decreases counts.len(),
{
    if counts.len() == 0 {
        0
    } else if counts.last().0 == state {
        counts.last().1
    } else {
        count_in(counts.drop_last(), state)
    }
}

/// The number of files in a state.
fn count_for(counts: &Vec<(WorkflowStateTag, i64)>, state: WorkflowStateTag) -> (r: i64)
    ensures
        r == count_in(counts@, state),
{
    let mut i: usize = counts.len();
    assert(counts@.take(counts@.len() as int) =~= counts@);
    while i > 0
        invariant
            i <= counts@.len(),
            count_in(counts@, state) == count_in(counts@.take(i as int), state),
        decreases i,
    {
        proof {
            assert(counts@.take(i as int).drop_last() =~= counts@.take(i - 1));
            assert(counts@.take(i as int).last() == counts@[i - 1]);
        }
        if counts[i - 1].0 == state {
            return counts[i - 1].1;
        }
        i = i - 1;
    }
    0
}

/// The state of the pipeline, from the number of files in each state.
pub fn status_snapshot(
    version: String,
    counts: &Vec<(WorkflowStateTag, i64)>,
    space_saved_gb: Binary64,
    last_failure: Option<FailureRecord>,
) -> (r: StatusSnapshot)
    ensures
        r.version == version,
        r.discovered == count_in(counts@, WorkflowStateTag::Discovered),
        r.probed == count_in(counts@, WorkflowStateTag::Probed),
        r.analyzed == count_in(counts@, WorkflowStateTag::Analyzed),
        r.pending_approval == count_in(counts@, WorkflowStateTag::PendingApproval),
        r.transcoding == count_in(counts@, WorkflowStateTag::Transcoding),
        r.done == count_in(counts@, WorkflowStateTag::Done),
        r.skipped == count_in(counts@, WorkflowStateTag::Skipped),
        r.failed == count_in(counts@, WorkflowStateTag::Failed),
        r.space_saved_gb == space_saved_gb,
        match (last_failure, r.last_failure) {
            (Some(f), Some(a)) => is_alert_of(a, f),
            (None, None) => true,
            _ => false,
        },
{
    let last_failure = match last_failure {
        Some(f) => Some(to_alert(&f)),
        None => None,
    };
    StatusSnapshot {
        version,
        discovered: count_for(counts, WorkflowStateTag::Discovered),
        probed: count_for(counts, WorkflowStateTag::Probed),
        analyzed: count_for(counts, WorkflowStateTag::Analyzed),
        pending_approval: count_for(counts, WorkflowStateTag::PendingApproval),
        transcoding: count_for(counts, WorkflowStateTag::Transcoding),
        done: count_for(counts, WorkflowStateTag::Done),
        skipped: count_for(counts, WorkflowStateTag::Skipped),
        failed: count_for(counts, WorkflowStateTag::Failed),
        space_saved_gb,
        last_failure,
    }
}

/// The number that is stated last for a state.
proof fn lemma_count_in(counts: Seq<(WorkflowStateTag, i64)>, state: WorkflowStateTag, i: int)
    ensures
        is_last_of(counts, state, i) ==> count_in(counts, state) == counts[i].1,
        (forall|j: int| 0 <= j < counts.len() ==> (#[trigger] counts[j]).0 != state) ==> count_in(
            counts,
            state,
        ) == 0,
    decreases counts.len(),
{
    if counts.len() > 0 {
        let before = counts.drop_last();
        assert(forall|j: int| 0 <= j < before.len() ==> before[j] == #[trigger] counts[j]);
        assert(counts[counts.len() - 1] == counts.last());
        lemma_count_in(before, state, i);
        if is_last_of(counts, state, i) && i < counts.len() - 1 {
            assert(is_last_of(before, state, i));
        }
    }
}

/// Whether the last number that is stated for a state stands at a position.
pub open spec fn is_last_of(
    counts: Seq<(WorkflowStateTag, i64)>,
    state: WorkflowStateTag,
    i: int,
) -> bool {
    &&& 0 <= i < counts.len()
    &&& counts[i].0 == state
    &&& forall|j: int| i < j < counts.len() ==> (#[trigger] counts[j]).0 != state
}

/// Whether no number is stated for a state.
pub open spec fn is_never_stated(
    counts: Seq<(WorkflowStateTag, i64)>,
    state: WorkflowStateTag,
) -> bool {
    forall|j: int| 0 <= j < counts.len() ==> (#[trigger] counts[j]).0 != state
}

/// The state of the pipeline shows for each state the number that was stated
/// for it last, at whatever position it stands, and 0 where none was.
pub proof fn law_status(
    version: String,
    counts: Vec<(WorkflowStateTag, i64)>,
    saved: Binary64,
    last_failure: Option<FailureRecord>,
    r: StatusSnapshot,
    i: int,
)
    requires
        call_ensures(status_snapshot, (version, &counts, saved, last_failure), r),
    ensures
        r.version == version && r.space_saved_gb == saved,
        r.last_failure is Some <==> last_failure is Some,
        last_failure matches Some(f) ==> (r.last_failure matches Some(a) && a.kind == f.kind
            && a.reason == f.error && a.title == f.title && a.media_file_id@
            == crate::ids::hyphenated(f.media_file_id.0)),
        is_last_of(counts@, WorkflowStateTag::Discovered, i) ==> r.discovered == counts@[i].1,
        is_last_of(counts@, WorkflowStateTag::Probed, i) ==> r.probed == counts@[i].1,
        is_last_of(counts@, WorkflowStateTag::Analyzed, i) ==> r.analyzed == counts@[i].1,
        is_last_of(counts@, WorkflowStateTag::PendingApproval, i) ==> r.pending_approval
            == counts@[i].1,
        is_last_of(counts@, WorkflowStateTag::Transcoding, i) ==> r.transcoding == counts@[i].1,
        is_last_of(counts@, WorkflowStateTag::Done, i) ==> r.done == counts@[i].1,
        is_last_of(counts@, WorkflowStateTag::Skipped, i) ==> r.skipped == counts@[i].1,
        is_last_of(counts@, WorkflowStateTag::Failed, i) ==> r.failed == counts@[i].1,
        is_never_stated(counts@, WorkflowStateTag::Discovered) ==> r.discovered == 0,
        is_never_stated(counts@, WorkflowStateTag::Probed) ==> r.probed == 0,
        is_never_stated(counts@, WorkflowStateTag::Analyzed) ==> r.analyzed == 0,
        is_never_stated(counts@, WorkflowStateTag::PendingApproval) ==> r.pending_approval == 0,
        is_never_stated(counts@, WorkflowStateTag::Transcoding) ==> r.transcoding == 0,
        is_never_stated(counts@, WorkflowStateTag::Done) ==> r.done == 0,
        is_never_stated(counts@, WorkflowStateTag::Skipped) ==> r.skipped == 0,
        is_never_stated(counts@, WorkflowStateTag::Failed) ==> r.failed == 0,
{
    lemma_count_in(counts@, WorkflowStateTag::Discovered, i);
    lemma_count_in(counts@, WorkflowStateTag::Probed, i);
    lemma_count_in(counts@, WorkflowStateTag::Analyzed, i);
    lemma_count_in(counts@, WorkflowStateTag::PendingApproval, i);
    lemma_count_in(counts@, WorkflowStateTag::Transcoding, i);
    lemma_count_in(counts@, WorkflowStateTag::Done, i);
    lemma_count_in(counts@, WorkflowStateTag::Skipped, i);
    lemma_count_in(counts@, WorkflowStateTag::Failed, i);
}

/// Every failure is told, in order and with its own file, kind, title and
/// reason. The next round goes on from an event that is not before any of
/// them nor before the last round's, and is one of these.
pub proof fn law_every_failure_is_told(
    after_id: i64,
    failures: Vec<FailureRecord>,
    r: (Vec<FailureAlert>, i64),
    none: (Vec<FailureAlert>, i64),
    i: int,
)
    requires
        call_ensures(push_new_failures, (after_id, Some(failures)), r),
        call_ensures(push_new_failures, (after_id, None), none),
    ensures
        none.0@.len() == 0 && none.1 == after_id,
        r.0@.len() == failures@.len(),
        0 <= i < failures@.len() ==> {
            &&& r.0@[i].media_file_id@ == crate::ids::hyphenated(failures@[i].media_file_id.0)
            &&& r.0@[i].kind == failures@[i].kind
            &&& r.0@[i].title == failures@[i].title
            &&& r.0@[i].reason == failures@[i].error
            &&& failures@[i].event_id <= r.1
        },
        after_id <= r.1,
        r.1 == after_id || is_event_of(r.1, failures@),
{
    law_failures_are_told_once(after_id, failures@, i);
    lemma_high_water(after_id, failures@);
    if 0 <= i < failures@.len() {
        assert(is_alert_of(r.0@[i], failures@[i]));
    }
}

/// Whether an event is that of one of the failures.
pub open spec fn is_event_of(id: i64, failures: Seq<FailureRecord>) -> bool {
    exists|i: int| 0 <= i < failures.len() && (#[trigger] failures[i]).event_id == id
}

/// The event up to which failures were told is the old one or one of theirs.
proof fn lemma_high_water(after_id: i64, failures: Seq<FailureRecord>)
    ensures
        high_water(after_id, failures) == after_id || is_event_of(
            high_water(after_id, failures),
            failures,
        ),
    decreases failures.len(),
{
    if failures.len() > 0 {
        let before = failures.drop_last();
        lemma_high_water(after_id, before);
        assert(failures[failures.len() - 1] == failures.last());
        let h = high_water(after_id, before);
        if is_event_of(h, before) {
            let k = choose|k: int| 0 <= k < before.len() && (#[trigger] before[k]).event_id == h;
            assert(failures[k].event_id == h);
        }
    }
}

/// An alert names the file, the kind, the title and the reason of its failure.
pub proof fn law_alerts(f: FailureRecord, a: FailureAlert)
    requires
        call_ensures(to_alert, (&f,), a),
    ensures
        a.media_file_id@ == crate::ids::hyphenated(f.media_file_id.0),
        a.kind == f.kind && a.title == f.title && a.reason == f.error,
{
}

} // verus!
