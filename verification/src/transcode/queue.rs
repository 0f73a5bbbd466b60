//! Which files wait for their transcode and which are being transcoded.
use std::collections::{HashSet, VecDeque};
use vstd::prelude::*;

use crate::models::library::MediaFileId;

verus! {

/// The identifiers in a queue, in order.
pub open spec fn queued(pending: Seq<MediaFileId>) -> Seq<u128> {
    pending.map_values(|id: MediaFileId| id.0)
}

/// A queue after an attempt to add an identifier: it is added at the end
/// unless it waits already or is being transcoded.
pub open spec fn with_unique(pending: Seq<u128>, inflight: Set<u128>, id: u128) -> Seq<u128> {
    if inflight.contains(id) || pending.contains(id) {
        pending
    } else {
        pending.push(id)
    }
}

/// A queue after an attempt to add identifiers one after the other.
pub open spec fn with_all_unique(
    pending: Seq<u128>,
    inflight: Set<u128>,
    ids: Seq<u128>,
) -> Seq<u128>
    decreases ids.len(),
{
    if ids.len() == 0 {
        pending
    } else {
        with_unique(with_all_unique(pending, inflight, ids.drop_last()), inflight, ids.last())
    }
}

/// Whether an identifier is in a queue.
fn waits(pending: &VecDeque<MediaFileId>, id: MediaFileId) -> (r: bool)
    ensures
        r == queued(pending@).contains(id.0),
{
    let mut i: usize = 0;
    while i < pending.len()
        invariant
            i <= pending@.len(),
            forall|j: int| 0 <= j < i ==> queued(pending@)[j] != id.0,
        decreases pending@.len() - i,
    {
        if pending[i].as_uuid() == id.as_uuid() {
            assert(queued(pending@)[i as int] == id.0);
            return true;
        }
        i = i + 1;
    }
    false
}

/// Adds `id` to `pending` unless it waits already or is being transcoded, and
/// says whether it was added.
pub fn enqueue_unique(
    pending: &mut VecDeque<MediaFileId>,
    inflight: &HashSet<u128>,
    id: MediaFileId,
) -> (r: bool)
    ensures
        queued(final(pending)@) == with_unique(queued(old(pending)@), inflight@, id.0),
        r == !(inflight@.contains(id.0) || queued(old(pending)@).contains(id.0)),
{
    broadcast use vstd::std_specs::hash::group_hash_axioms;

    if inflight.contains(&id.0) || waits(pending, id) {
        return false;
    }
    pending.push_back(id);
    assert(queued(pending@) =~= queued(old(pending)@).push(id.0));
    true
}

/// The files that wait, the files that are being transcoded, and the one that
/// holds the permit to.
#[derive(Debug)]
pub struct TranscodeQueue {
    pending: VecDeque<MediaFileId>,
    inflight: HashSet<u128>,
    current: Option<MediaFileId>,
    draining: bool,
}

/// What a queue holds.
#[verifier::ext_equal]
pub struct QueueView {
    /// The files that wait, in order.
    pub waiting: Seq<u128>,
    /// The files that are marked as being transcoded.
    pub running: Set<u128>,
    /// The file whose transcode has not come to its end.
    pub current: Option<u128>,
    /// Whether no more files are taken.
    pub draining: bool,
}

impl View for TranscodeQueue {
    type V = QueueView;

    closed spec fn view(&self) -> QueueView {
        QueueView {
            waiting: queued(self.pending@),
            running: self.inflight@,
            current: match self.current {
                Some(id) => Some(id.0),
                None => None,
            },
            draining: self.draining,
        }
    }
}

impl QueueView {
    /// No file waits twice, none waits that is being transcoded, and the file
    /// whose transcode has not come to its end is marked.
    pub open spec fn wf(self) -> bool {
        &&& self.waiting.no_duplicates()
        &&& forall|i: int|
            0 <= i < self.waiting.len() ==> !self.running.contains(#[trigger] self.waiting[i])
        &&& self.current matches Some(id) ==> self.running.contains(id)
    }

    /// Nothing waits and nothing is being transcoded.
    pub open spec fn fresh() -> QueueView {
        QueueView {
            waiting: Seq::empty(),
            running: Set::empty(),
            current: None,
            draining: false,
        }
    }

    /// Whether a file may be started: one waits, none is being transcoded, and
    /// the queue was not cancelled.
    pub open spec fn startable(self) -> bool {
        self.waiting.len() > 0 && self.current is None && !self.draining
    }
}

/// What happens around the queue.
#[derive(Debug)]
pub enum QueueEvent {
    Cancelled,
    /// A file was announced for transcoding.
    Received(MediaFileId),
    /// It is time to look for files that were left in the state of being
    /// transcoded.
    Ticked,
    /// Files were found in that state.
    Stalled(Vec<MediaFileId>),
    /// The store could not be asked for them.
    ScanFailed,
    /// The one permit to transcode is free.
    Permit,
    /// The transcode of a file came to its end.
    Joined(MediaFileId),
    /// The transcode was broken off by a panic. Its file stays marked, and is
    /// not taken again.
    Panicked,
}

/// What is to be done next.
#[derive(Clone, Copy, Debug, PartialEq, Eq, Structural)]
pub enum QueueAction {
    Continue,
    /// Files in the state of being transcoded are to be looked for.
    Scan,
    /// So many stalled files were taken up again.
    Requeued(usize),
    /// This file is to be transcoded.
    Start(MediaFileId),
    /// No more files are taken; the one that is being transcoded is waited
    /// for.
    Drain,
    /// All is done.
    Stop,
}

/// A queue after something happened. Once it was cancelled it takes no more
/// files and starts none.
pub open spec fn queue_next(v: QueueView, event: QueueEvent) -> QueueView {
    match event {
        QueueEvent::Cancelled => QueueView { draining: true, ..v },
        QueueEvent::Received(id) => if v.draining {
            v
        } else {
            QueueView { waiting: with_unique(v.waiting, v.running, id.0), ..v }
        },
        QueueEvent::Stalled(ids) => if v.draining {
            v
        } else {
            QueueView { waiting: with_all_unique(v.waiting, v.running, queued(ids@)), ..v }
        },
        QueueEvent::Permit => if v.startable() {
            QueueView {
                waiting: v.waiting.skip(1),
                running: v.running.insert(v.waiting[0]),
                current: Some(v.waiting[0]),
                ..v
            }
        } else {
            v
        },
        QueueEvent::Joined(id) => QueueView {
            running: v.running.remove(id.0),
            current: if v.current == Some(id.0) {
                None
            } else {
                v.current
            },
            ..v
        },
        QueueEvent::Panicked => QueueView { current: None, ..v },
        QueueEvent::Ticked => v,
        QueueEvent::ScanFailed => v,
    }
}

/// What a queue asks for when something happened. One that was cancelled waits
/// for the file that is being transcoded, and stops once there is none.
pub open spec fn queue_action(v: QueueView, event: QueueEvent) -> QueueAction {
    let next = queue_next(v, event);
    if next.draining {
        if next.current is None {
            QueueAction::Stop
        } else {
            QueueAction::Drain
        }
    } else {
        match event {
            QueueEvent::Ticked => QueueAction::Scan,
            QueueEvent::Stalled(_) => QueueAction::Requeued(
                (next.waiting.len() - v.waiting.len()) as usize,
            ),
            QueueEvent::Permit => if v.startable() {
                QueueAction::Start(MediaFileId(v.waiting[0]))
            } else {
                QueueAction::Continue
            },
            _ => QueueAction::Continue,
        }
    }
}

/// How many seconds lie between two searches for stalled files.
pub const STALE_REQUEUE_SECS: u64 = 300;

/// How many seconds a search for stalled files is waited with: the first is
/// made at once, and each of the others some time after the one before it.
pub fn scan_delay(first: bool) -> (r: u64)
    ensures
        r == (if first {
            0
        } else {
            STALE_REQUEUE_SECS
        }),
{
    if first {
        0
    } else {
        STALE_REQUEUE_SECS
    }
}

impl TranscodeQueue {
    /// Nothing waits and nothing is being transcoded.
    pub fn new() -> (r: Self)
        ensures
            r@.wf(),
            r@ == QueueView::fresh(),
    {
        broadcast use vstd::std_specs::hash::group_hash_axioms;

        let r = TranscodeQueue {
            pending: VecDeque::new(),
            inflight: HashSet::new(),
            current: None,
            draining: false,
        };
        assert(r@ =~= QueueView::fresh());
        r
    }

    /// Whether a file may be started.
    pub fn can_start(&self) -> (r: bool)
        ensures
            r == self@.startable(),
    {
        self.pending.len() > 0 && self.current.is_none() && !self.draining
    }

    /// Adds a file unless it waits already or is being transcoded, and says
    /// whether it was added.
    fn receive(&mut self, id: MediaFileId) -> (r: bool)
        requires
            old(self)@.wf(),
        ensures
            final(self)@.wf(),
            final(self)@ == (QueueView {
                waiting: with_unique(old(self)@.waiting, old(self)@.running, id.0),
                ..old(self)@
            }),
            r == (final(self)@.waiting.len() == old(self)@.waiting.len() + 1),
            !r ==> final(self)@.waiting == old(self)@.waiting,
    {
        enqueue_unique(&mut self.pending, &self.inflight, id)
    }

    /// Adds those of the files that neither wait nor are being transcoded, and
    /// says how many they are.
    fn requeue_stalled(&mut self, ids: &Vec<MediaFileId>) -> (r: usize)
        requires
            old(self)@.wf(),
        ensures
            final(self)@.wf(),
            final(self)@ == (QueueView {
                waiting: with_all_unique(
                    old(self)@.waiting,
                    old(self)@.running,
                    queued(ids@),
                ),
                ..old(self)@
            }),
            r == final(self)@.waiting.len() - old(self)@.waiting.len(),
    {
        let mut count: usize = 0;
        let mut i: usize = 0;
        assert(queued(ids@).take(0) =~= Seq::<u128>::empty());
        while i < ids.len()
            invariant
                i <= ids.len(),
                count <= i,
                self@.wf(),
                self@ == (QueueView {
                    waiting: with_all_unique(
                        old(self)@.waiting,
                        old(self)@.running,
                        queued(ids@).take(i as int),
                    ),
                    ..old(self)@
                }),
                count == self@.waiting.len() - old(self)@.waiting.len(),
            decreases ids.len() - i,
        {
            proof {
                assert(queued(ids@).take(i + 1).drop_last() =~= queued(ids@).take(i as int));
                assert(queued(ids@).take(i + 1).last() == ids@[i as int].0);
            }
            if self.receive(ids[i]) {
                count = count + 1;
            }
            i = i + 1;
        }
        assert(queued(ids@).take(ids@.len() as int) =~= queued(ids@));
        count
    }

    /// Starts the file that waits longest, where one may be started.
    fn start_next(&mut self) -> (r: Option<MediaFileId>)
        requires
            old(self)@.wf(),
        ensures
            final(self)@.wf(),
            final(self)@ == queue_next(old(self)@, QueueEvent::Permit),
            r == (if old(self)@.startable() {
                Some(MediaFileId(old(self)@.waiting[0]))
            } else {
                None
            }),
    {
        broadcast use vstd::std_specs::hash::group_hash_axioms;

        if !self.can_start() {
            return None;
        }
        match self.pending.pop_front() {
            Some(id) => {
                self.inflight.insert(id.0);
                self.current = Some(id);
                proof {
                    let was = old(self)@.waiting;
                    assert(self@.waiting =~= was.skip(1));
                    assert(was[0] == id.0);
                    assert forall|i: int| 0 <= i < self@.waiting.len() implies !self@.running.contains(
                    #[trigger] self@.waiting[i]) by {
                        assert(self@.waiting[i] == was[i + 1]);
                        assert(was[i + 1] != was[0]);
                    }
                }
                Some(id)
            },
            None => None,
        }
    }

    /// The transcode of a file came to its end.
    fn finish(&mut self, id: MediaFileId)
        requires
            old(self)@.wf(),
        ensures
            final(self)@.wf(),
            final(self)@ == queue_next(old(self)@, QueueEvent::Joined(id)),
    {
        broadcast use vstd::std_specs::hash::group_hash_axioms;

        self.inflight.remove(&id.0);
        if let Some(current) = self.current {
            if current.as_uuid() == id.as_uuid() {
                self.current = None;
            }
        }
    }

    /// Takes what happened and says what is to be done.
    pub fn handle(&mut self, event: QueueEvent) -> (r: QueueAction)
        requires
            old(self)@.wf(),
        ensures
            final(self)@.wf(),
            final(self)@ == queue_next(old(self)@, event),
            r == queue_action(old(self)@, event),
    {
        let action = match event {
            QueueEvent::Cancelled => {
                self.draining = true;
                QueueAction::Drain
            },
            QueueEvent::Received(id) => {
                if !self.draining {
                    self.receive(id);
                }
                QueueAction::Continue
            },
            QueueEvent::Ticked => QueueAction::Scan,
            QueueEvent::Stalled(ids) => {
                let requeued: usize = if self.draining {
                    0
                } else {
                    self.requeue_stalled(&ids)
                };
                QueueAction::Requeued(requeued)
            },
            QueueEvent::ScanFailed => QueueAction::Continue,
            QueueEvent::Permit => match self.start_next() {
                Some(id) => QueueAction::Start(id),
                None => QueueAction::Continue,
            },
            QueueEvent::Joined(id) => {
                self.finish(id);
                QueueAction::Continue
            },
            QueueEvent::Panicked => {
                self.current = None;
                QueueAction::Continue
            },
        };
        if !self.draining {
            action
        } else if self.current.is_none() {
            QueueAction::Stop
        } else {
            QueueAction::Drain
        }
    }
}

/// Adding a file twice is adding it once.
pub proof fn law_enqueue_is_idempotent(pending: Seq<u128>, inflight: Set<u128>, id: u128)
    ensures
        with_unique(with_unique(pending, inflight, id), inflight, id) == with_unique(
            pending,
            inflight,
            id,
        ),
{
    if !inflight.contains(id) && !pending.contains(id) {
        assert(pending.push(id)[pending.len() as int] == id);
    }
}

/// Adding files keeps those that wait, in their order, in front.
pub proof fn law_enqueue_keeps_order(pending: Seq<u128>, inflight: Set<u128>, ids: Seq<u128>)
    ensures
        pending.len() <= with_all_unique(pending, inflight, ids).len(),
        with_all_unique(pending, inflight, ids).take(pending.len() as int) == pending,
    decreases ids.len(),
{
    if ids.len() == 0 {
        assert(pending.take(pending.len() as int) =~= pending);
    } else {
        law_enqueue_keeps_order(pending, inflight, ids.drop_last());
        let w = with_all_unique(pending, inflight, ids.drop_last());
        assert(w.push(ids.last()).take(pending.len() as int) =~= w.take(pending.len() as int));
    }
}

/// A queue after things happened one after the other.
pub open spec fn queue_after(v: QueueView, events: Seq<QueueEvent>) -> QueueView
    decreases events.len(),
{
    if events.len() == 0 {
        v
    } else {
        queue_next(queue_after(v, events.drop_last()), events.last())
    }
}

/// What a queue asks for when the `i`th thing happened.
pub open spec fn action_at(v: QueueView, events: Seq<QueueEvent>, i: int) -> QueueAction {
    queue_action(queue_after(v, events.take(i)), events[i])
}

/// Whether the transcode of a file came to its end, or was broken off.
pub open spec fn ends(event: QueueEvent, id: u128) -> bool {
    event is Panicked || (event matches QueueEvent::Joined(other) && other.0 == id)
}

/// What happens one step further.
proof fn lemma_queue_step(v: QueueView, events: Seq<QueueEvent>, i: int)
    requires
        0 <= i < events.len(),
    ensures
        queue_after(v, events.take(i + 1)) == queue_next(
            queue_after(v, events.take(i)),
            events[i],
        ),
{
    assert(events.take(i + 1).drop_last() =~= events.take(i));
    assert(events.take(i + 1).last() == events[i]);
}

/// A file that was started is not done before its transcode ends.
proof fn lemma_current_stays(v: QueueView, events: Seq<QueueEvent>, i: int, m: int, id: u128)
    requires
        0 <= i <= m <= events.len(),
        queue_after(v, events.take(i)).current == Some(id),
        forall|k: int| i <= k < m ==> !ends(#[trigger] events[k], id),
    ensures
        queue_after(v, events.take(m)).current == Some(id),
    decreases m - i,
{
    if i < m {
        lemma_current_stays(v, events, i, m - 1, id);
        lemma_queue_step(v, events, m - 1);
        assert(!ends(events[m - 1], id));
    }
}

/// At most one file is transcoded at a time: between the start of a file and
/// the next start, whatever happens and however often the permit is free, the
/// transcode of the first came to its end or was broken off.
pub proof fn law_one_file_at_a_time(v: QueueView, events: Seq<QueueEvent>, i: int, j: int)
    requires
        0 <= i < j < events.len(),
        action_at(v, events, i) is Start,
        action_at(v, events, j) is Start,
    ensures
        exists|k: int|
            i < k < j && ends(#[trigger] events[k], action_at(v, events, i)->Start_0.0),
{
    let id = action_at(v, events, i)->Start_0.0;
    lemma_queue_step(v, events, i);
    if forall|k: int| i + 1 <= k < j ==> !ends(#[trigger] events[k], id) {
        lemma_current_stays(v, events, i + 1, j, id);
    }
}

/// As long as no transcode is broken off by a panic, no more than one file is
/// marked as being transcoded, and it is the one that holds the permit.
pub proof fn law_one_file_is_marked(events: Seq<QueueEvent>)
    requires
        forall|k: int| 0 <= k < events.len() ==> !(#[trigger] events[k] is Panicked),
    ensures
        queue_after(QueueView::fresh(), events).running == (match queue_after(
            QueueView::fresh(),
            events,
        ).current {
            Some(id) => set![id],
            None => Set::empty(),
        }),
    decreases events.len(),
{
    if events.len() > 0 {
        let before = events.drop_last();
        assert forall|k: int| 0 <= k < before.len() implies !(#[trigger] before[k] is Panicked) by {
            assert(before[k] == events[k]);
        }
        law_one_file_is_marked(before);
        assert(!(events[events.len() - 1] is Panicked));
        let was = queue_after(QueueView::fresh(), before);
        let now = queue_after(QueueView::fresh(), events);
        match events.last() {
            QueueEvent::Permit => {
                if was.startable() {
                    assert(now.running =~= set![was.waiting[0]]);
                }
            },
            QueueEvent::Joined(id) => {
                if was.current == Some(id.0) {
                    assert(now.running =~= Set::empty());
                } else {
                    assert(now.running =~= was.running);
                }
            },
            _ => {},
        }
    }
}

/// Once a queue was cancelled it starts no file.
pub proof fn law_nothing_starts_after_cancel(
    v: QueueView,
    events: Seq<QueueEvent>,
    i: int,
    j: int,
)
    requires
        0 <= i < j < events.len(),
        events[i] is Cancelled,
    ensures
        queue_after(v, events.take(j)).draining,
        !(action_at(v, events, j) is Start),
    decreases j - i,
{
    lemma_queue_step(v, events, j - 1);
    if i < j - 1 {
        law_nothing_starts_after_cancel(v, events, i, j - 1);
    }
}

/// Once a file was started, a queue stops only when the transcode of that file
/// came to its end or was broken off: it is waited for.
pub proof fn law_running_file_is_awaited(v: QueueView, events: Seq<QueueEvent>, i: int, j: int)
    requires
        0 <= i < j < events.len(),
        action_at(v, events, i) is Start,
        action_at(v, events, j) is Stop,
    ensures
        exists|k: int|
            i < k <= j && ends(#[trigger] events[k], action_at(v, events, i)->Start_0.0),
{
    let id = action_at(v, events, i)->Start_0.0;
    lemma_queue_step(v, events, i);
    lemma_queue_step(v, events, j);
    if forall|k: int| i + 1 <= k < j + 1 ==> !ends(#[trigger] events[k], id) {
        lemma_current_stays(v, events, i + 1, j + 1, id);
    }
}

/// Nothing but a cancellation ends a queue's work: neither a file that fails
/// or whose transcode panics, nor a store that cannot be asked.
pub proof fn law_only_cancel_ends_the_work(v: QueueView, events: Seq<QueueEvent>, j: int)
    requires
        0 <= j < events.len(),
        !v.draining,
        forall|k: int| 0 <= k <= j ==> !(#[trigger] events[k] is Cancelled),
    ensures
        !queue_after(v, events.take(j + 1)).draining,
        !(action_at(v, events, j) is Drain),
        !(action_at(v, events, j) is Stop),
    decreases j,
{
    lemma_queue_step(v, events, j);
    assert(!(events[j] is Cancelled));
    if j > 0 {
        law_only_cancel_ends_the_work(v, events, j - 1);
    } else {
        assert(events.take(0) =~= Seq::empty());
    }
}

/// When the `n`th search for stalled files is made, in seconds from the start.
pub open spec fn scan_second(n: nat) -> nat
    decreases n,
{
    if n == 0 {
        0
    } else {
        scan_second((n - 1) as nat) + STALE_REQUEUE_SECS as nat
    }
}

/// Stalled files are looked for at once and then every 300 seconds, and what
/// is found is added, unless it waits or is being transcoded; this goes on
/// until the queue is cancelled.
pub proof fn law_stalled_files_are_taken_up(v: QueueView, n: nat, ids: Vec<MediaFileId>)
    requires
        !v.draining,
    ensures
        scan_second(n) == n * 300,
        queue_action(v, QueueEvent::Ticked) is Scan,
        forall|i: int|
            0 <= i < ids@.len() ==> queue_next(v, QueueEvent::Stalled(ids)).waiting.contains(
                #[trigger] ids@[i].0,
            ) || v.running.contains(ids@[i].0),
    decreases n,
{
    if n > 0 {
        law_stalled_files_are_taken_up(v, (n - 1) as nat, ids);
    }
    let q = queued(ids@);
    assert forall|i: int| 0 <= i < ids@.len() implies queue_next(
        v,
        QueueEvent::Stalled(ids),
    ).waiting.contains(#[trigger] ids@[i].0) || v.running.contains(ids@[i].0) by {
        lemma_all_are_added(v.waiting, v.running, q, i);
        assert(q[i] == ids@[i].0);
    }
}

/// Every file that was to be added waits, or is being transcoded.
proof fn lemma_all_are_added(pending: Seq<u128>, inflight: Set<u128>, ids: Seq<u128>, i: int)
    requires
        0 <= i < ids.len(),
    ensures
        with_all_unique(pending, inflight, ids).contains(ids[i]) || inflight.contains(ids[i]),
    decreases ids.len(),
{
    let w = with_all_unique(pending, inflight, ids.drop_last());
    let last = ids.last();
    if i < ids.len() - 1 {
        lemma_all_are_added(pending, inflight, ids.drop_last(), i);
        if w.contains(ids[i]) {
            let k = w.index_of(ids[i]);
            assert(w.push(last)[k] == ids[i]);
        }
    } else {
        assert(w.push(last)[w.len() as int] == last);
    }
}

/// The files that were started, in order.
pub open spec fn started(v: QueueView, events: Seq<QueueEvent>) -> Seq<u128>
    decreases events.len(),
{
    if events.len() == 0 {
        Seq::empty()
    } else {
        let before = started(v, events.drop_last());
        match queue_action(queue_after(v, events.drop_last()), events.last()) {
            QueueAction::Start(id) => before.push(id.0),
            _ => before,
        }
    }
}

/// The files that an event adds to a queue, in order.
pub open spec fn added(v: QueueView, event: QueueEvent) -> Seq<u128> {
    if event is Permit {
        Seq::empty()
    } else {
        queue_next(v, event).waiting.skip(v.waiting.len() as int)
    }
}

/// The files that were added, in order.
pub open spec fn arrived(v: QueueView, events: Seq<QueueEvent>) -> Seq<u128>
    decreases events.len(),
{
    if events.len() == 0 {
        Seq::empty()
    } else {
        arrived(v, events.drop_last()) + added(queue_after(v, events.drop_last()), events.last())
    }
}

/// Files are started in the order in which they were added: those that were
/// started, and behind them those that still wait, are those that waited at
/// first, and behind them those that were added.
pub proof fn law_files_start_in_order(v: QueueView, events: Seq<QueueEvent>)
    ensures
        started(v, events) + queue_after(v, events).waiting == v.waiting + arrived(v, events),
    decreases events.len(),
{
    if events.len() == 0 {
        assert(started(v, events) + v.waiting =~= v.waiting + arrived(v, events));
    } else {
        let before = events.drop_last();
        law_files_start_in_order(v, before);
        let was = queue_after(v, before);
        let now = queue_after(v, events);
        let (s, a) = (started(v, before), arrived(v, before));
        match events.last() {
            QueueEvent::Permit => {
                if was.startable() {
                    assert(s.push(was.waiting[0]) + was.waiting.skip(1) =~= s + was.waiting);
                }
                assert(a + added(was, events.last()) =~= a);
            },
            e => {
                if let QueueEvent::Stalled(ids) = e {
                    law_enqueue_keeps_order(was.waiting, was.running, queued(ids@));
                }
                let w = was.waiting;
                assert(now.waiting.take(w.len() as int) =~= w);
                assert(now.waiting =~= w + added(was, e));
                assert(s + (w + added(was, e)) =~= (s + w) + added(was, e));
                assert((v.waiting + a) + added(was, e) =~= v.waiting + (a + added(was, e)));
            },
        }
    }
}

/// A file is added at the end, and only where it neither waits nor is being
/// transcoded; what waited stays in its order, and what is answered is whether
/// the file was added.
pub proof fn law_adding(
    pending: &mut VecDeque<MediaFileId>,
    inflight: HashSet<u128>,
    id: MediaFileId,
    r: bool,
)
    requires
        call_ensures(enqueue_unique, (pending, &inflight, id), r),
    ensures
        r <==> !inflight@.contains(id.0) && (forall|i: int|
            0 <= i < old(pending)@.len() ==> (#[trigger] old(pending)@[i]).0 != id.0),
        final(pending)@.len() == (if r {
            old(pending)@.len() + 1
        } else {
            old(pending)@.len()
        }),
        forall|i: int|
            0 <= i < old(pending)@.len() ==> (#[trigger] final(pending)@[i]).0 == old(pending)@[i].0,
        r ==> final(pending)@.last().0 == id.0,
{
    let (was, now) = (queued(old(pending)@), queued(final(pending)@));
    assert(was.len() == old(pending)@.len() && now.len() == final(pending)@.len());
    assert(forall|i: int| 0 <= i < was.len() ==> was[i] == (#[trigger] old(pending)@[i]).0);
    assert(forall|i: int| 0 <= i < now.len() ==> now[i] == (#[trigger] final(pending)@[i]).0);
    if was.contains(id.0) {
        let k = was.index_of(id.0);
        assert(old(pending)@[k].0 == id.0);
    }
}

/// A file that is announced waits afterwards or is being transcoded, unless
/// the queue was cancelled: then it is not taken. Nothing else is added, and
/// nothing is started.
pub proof fn law_announced_files_wait(queue: &mut TranscodeQueue, id: MediaFileId, r: QueueAction)
    requires
        call_ensures(TranscodeQueue::handle, (queue, QueueEvent::Received(id)), r),
    ensures
        final(queue)@.running == old(queue)@.running && final(queue)@.current == old(queue)@.current && final(queue)@.draining == old(queue)@.draining,
        old(queue)@.draining ==> final(queue)@.waiting == old(queue)@.waiting,
        !old(queue)@.draining ==> {
            &&& r is Continue
            &&& old(queue)@.running.contains(id.0) || old(queue)@.waiting.contains(id.0)
                ==> final(queue)@.waiting == old(queue)@.waiting
            &&& !old(queue)@.running.contains(id.0) && !old(queue)@.waiting.contains(id.0)
                ==> final(queue)@.waiting == old(queue)@.waiting + seq![id.0]
        },
{
    let w = old(queue)@.waiting;
    assert(w.push(id.0) =~= w + seq![id.0]);
}

/// A free permit starts the file that waits longest, exactly where one waits,
/// none is being transcoded and the queue was not cancelled. That file no
/// longer waits, and is marked until its transcode ends.
pub proof fn law_a_permit_starts_a_file(queue: &mut TranscodeQueue, r: QueueAction)
    requires
        call_ensures(TranscodeQueue::handle, (queue, QueueEvent::Permit), r),
    ensures
        r is Start <==> old(queue)@.waiting.len() > 0 && old(queue)@.current is None && !old(queue)@.draining,
        r matches QueueAction::Start(id) ==> {
            &&& old(queue)@.waiting == seq![id.0] + final(queue)@.waiting
            &&& final(queue)@.current == Some(id.0)
            &&& final(queue)@.running == old(queue)@.running.insert(id.0)
        },
        !(r is Start) ==> final(queue)@ == old(queue)@,
        !(r is Start) && !old(queue)@.draining ==> r is Continue,
        final(queue)@.draining == old(queue)@.draining,
{
    if let QueueAction::Start(id) = r {
        let w = old(queue)@.waiting;
        assert(w =~= seq![w[0]] + w.skip(1));
    }
}

/// The end of a transcode takes the mark from its file and, where it is the
/// one that was started, makes room for the next. One that was broken off
/// makes room too, but leaves the mark.
pub proof fn law_an_end_makes_room(
    queue: &mut TranscodeQueue,
    id: MediaFileId,
    r: QueueAction,
    other: &mut TranscodeQueue,
    s: QueueAction,
)
    requires
        call_ensures(TranscodeQueue::handle, (queue, QueueEvent::Joined(id)), r),
        call_ensures(TranscodeQueue::handle, (other, QueueEvent::Panicked), s),
    ensures
        final(queue)@.waiting == old(queue)@.waiting && final(queue)@.draining == old(queue)@.draining,
        !final(queue)@.running.contains(id.0),
        forall|k: u128|
            k != id.0 ==> (final(queue)@.running.contains(k) <==> #[trigger] old(queue)@.running.contains(k)),
        old(queue)@.current == Some(id.0) ==> final(queue)@.current is None,
        old(queue)@.current != Some(id.0) ==> final(queue)@.current == old(queue)@.current,
        final(other)@ == (QueueView { current: None, ..old(other)@ }),
{
}

/// What a queue asks for: the search for stalled files when it is time, and
/// once it was cancelled to wait for the file that is being transcoded, or to
/// stop where there is none. A cancellation, a tick and a search that failed
/// change nothing else.
pub proof fn law_what_a_queue_asks_for(queue: &mut TranscodeQueue, event: QueueEvent, r: QueueAction)
    requires
        call_ensures(TranscodeQueue::handle, (queue, event), r),
    ensures
        final(queue)@.draining <==> old(queue)@.draining || event is Cancelled,
        r is Stop <==> final(queue)@.draining && final(queue)@.current is None,
        r is Drain <==> final(queue)@.draining && final(queue)@.current is Some,
        r is Scan <==> event is Ticked && !old(queue)@.draining,
        r is Requeued <==> event is Stalled && !old(queue)@.draining,
        r is Start ==> event is Permit,
        event is Cancelled || event is Ticked || event is ScanFailed ==> final(queue)@.waiting
            == old(queue)@.waiting && final(queue)@.running == old(queue)@.running && final(queue)@.current == old(queue)@.current,
{
}

/// Stalled files that neither wait nor are being transcoded are added behind
/// those that wait, and only such files are; what is told is how many were.
pub proof fn law_stalled_files(
    queue: &mut TranscodeQueue,
    ids: Vec<MediaFileId>,
    r: QueueAction,
    i: int,
    k: int,
)
    requires
        call_ensures(TranscodeQueue::handle, (queue, QueueEvent::Stalled(ids)), r),
        old(queue)@.wf(),
    ensures
        final(queue)@.running == old(queue)@.running && final(queue)@.current == old(queue)@.current,
        old(queue)@.draining ==> final(queue)@.waiting == old(queue)@.waiting,
        final(queue)@.waiting.len() >= old(queue)@.waiting.len(),
        0 <= i < old(queue)@.waiting.len() ==> final(queue)@.waiting[i] == old(queue)@.waiting[i],
        !old(queue)@.draining && 0 <= i < ids@.len() ==> old(queue)@.running.contains(ids@[i].0)
            || final(queue)@.waiting.contains(ids@[i].0),
        old(queue)@.waiting.len() <= k < final(queue)@.waiting.len() ==> stands_among(
            final(queue)@.waiting[k],
            ids@,
        ) && !old(queue)@.running.contains(final(queue)@.waiting[k]) && !old(queue)@.waiting.contains(final(queue)@.waiting[k]),
        final(queue)@.waiting.no_duplicates(),
        r matches QueueAction::Requeued(n) ==> final(queue)@.waiting.len()
            - old(queue)@.waiting.len() <= usize::MAX ==> n == final(queue)@.waiting.len() - old(queue)@.waiting.len(),
{
    let (w, run, q) = (old(queue)@.waiting, old(queue)@.running, queued(ids@));
    law_enqueue_keeps_order(w, run, q);
    let all = with_all_unique(w, run, q);
    if 0 <= i < w.len() {
        assert(all.take(w.len() as int)[i] == all[i]);
    }
    if 0 <= i < ids@.len() {
        lemma_all_are_added(w, run, q, i);
        assert(q[i] == ids@[i].0);
    }
    if !old(queue)@.draining && w.len() <= k < all.len() {
        lemma_only_those_are_added(w, run, q, k);
        let j = choose|j: int| 0 <= j < q.len() && q[j] == all[k];
        assert(ids@[j].0 == all[k]);
    }
}

/// Whether an identifier is one of those.
pub open spec fn stands_among(id: u128, ids: Seq<MediaFileId>) -> bool {
    exists|j: int| 0 <= j < ids.len() && (#[trigger] ids[j]).0 == id
}

/// What stands behind the files that waited was to be added, is not being
/// transcoded, and did not wait.
proof fn lemma_only_those_are_added(pending: Seq<u128>, inflight: Set<u128>, ids: Seq<u128>, k: int)
    requires
        pending.len() <= k < with_all_unique(pending, inflight, ids).len(),
    ensures
        exists|j: int|
            0 <= j < ids.len() && #[trigger] ids[j] == with_all_unique(pending, inflight, ids)[k],
        !inflight.contains(with_all_unique(pending, inflight, ids)[k]),
        !pending.contains(with_all_unique(pending, inflight, ids)[k]),
    decreases ids.len(),
{
    if ids.len() > 0 {
        let w = with_all_unique(pending, inflight, ids.drop_last());
        law_enqueue_keeps_order(pending, inflight, ids.drop_last());
        if k < w.len() {
            lemma_only_those_are_added(pending, inflight, ids.drop_last(), k);
            let j = choose|j: int|
                0 <= j < ids.drop_last().len() && #[trigger] ids.drop_last()[j] == w[k];
            assert(ids[j] == w[k]);
        } else {
            assert(ids[ids.len() - 1] == ids.last());
            if pending.contains(ids.last()) {
                let m = pending.index_of(ids.last());
                assert(w.take(pending.len() as int)[m] == w[m]);
                assert(w.contains(ids.last()));
            }
        }
    }
}

/// The first search for stalled files is made at once, and each of the others
/// five minutes after the one before it; nothing waits in a new queue.
pub proof fn law_searches_and_beginnings(first: u64, later: u64, queue: TranscodeQueue, any: TranscodeQueue, can: bool)
    requires
        call_ensures(scan_delay, (true,), first),
        call_ensures(scan_delay, (false,), later),
        call_ensures(TranscodeQueue::new, (), queue),
        call_ensures(TranscodeQueue::can_start, (&any,), can),
    ensures
        first == 0,
        later == 5 * 60,
        queue@.waiting.len() == 0 && queue@.running.is_empty() && queue@.current is None
            && !queue@.draining,
        can <==> any@.waiting.len() > 0 && any@.current is None && !any@.draining,
{
}

} // verus!
