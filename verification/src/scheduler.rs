//! When the library is synced: at the start, periodically and on demand.
use vstd::prelude::*;

verus! {

/// What the scheduler is at.
#[derive(Clone, Copy, Debug, PartialEq, Eq, Structural)]
pub enum SchedulerState {
    /// Waiting for something to happen.
    Idle,
    /// A sync was asked for; further demands are waited for.
    Debouncing,
    /// A sync is running.
    Syncing,
    Stopped,
}

/// What happens around the scheduler.
#[derive(Clone, Copy, Debug, PartialEq, Eq, Structural)]
pub enum SchedulerEvent {
    /// The next periodic sync is due.
    Ticked,
    /// A sync is asked for.
    Triggered,
    /// The time for further demands is over.
    Slept,
    /// The running sync came to its end, well or not.
    Synced,
    Cancelled,
}

/// What is to be done.
#[derive(Clone, Copy, Debug, PartialEq, Eq, Structural)]
pub enum SchedulerAction {
    Wait,
    /// Wait for further demands.
    Sleep,
    Sync,
    Stop,
}

/// Decides when to sync. While a sync runs or demands are waited for, what
/// happens is only remembered, and of each kind only that it happened. A
/// demand that comes while demands are waited for is part of the burst, which
/// one sync answers, and is not remembered.
#[derive(Clone, Copy, Debug, PartialEq, Eq, Structural)]
pub struct SyncScheduler {
    pub state: SchedulerState,
    pub tick_due: bool,
    pub triggered: bool,
    pub cancelled: bool,
}

/// Whether periodic syncs are made at all.
pub fn has_ticker(interval_secs: u64) -> (r: bool)
    ensures
        r == (interval_secs != 0),
{
    interval_secs != 0
}

/// Where an idle scheduler goes with what it remembers: a cancellation comes
/// first, then a periodic sync, then one on demand.
pub open spec fn resumed(s: SyncScheduler) -> (SyncScheduler, SchedulerAction) {
    if s.cancelled {
        (SyncScheduler { state: SchedulerState::Stopped, ..s }, SchedulerAction::Stop)
    } else if s.tick_due {
        (
            SyncScheduler { state: SchedulerState::Syncing, tick_due: false, ..s },
            SchedulerAction::Sync,
        )
    } else if s.triggered {
        (
            SyncScheduler { state: SchedulerState::Debouncing, triggered: false, ..s },
            SchedulerAction::Sleep,
        )
    } else {
        (SyncScheduler { state: SchedulerState::Idle, ..s }, SchedulerAction::Wait)
    }
}

/// What a scheduler remembers after an event.
pub open spec fn remembered(s: SyncScheduler, event: SchedulerEvent) -> SyncScheduler {
    match event {
        SchedulerEvent::Ticked => SyncScheduler { tick_due: true, ..s },
        SchedulerEvent::Triggered => if s.state is Debouncing {
            s
        } else {
            SyncScheduler { triggered: true, ..s }
        },
        SchedulerEvent::Cancelled => SyncScheduler { cancelled: true, ..s },
        _ => s,
    }
}

/// How a scheduler goes on after an event.
pub open spec fn scheduled(s: SyncScheduler, event: SchedulerEvent) -> (
    SyncScheduler,
    SchedulerAction,
) {
    let m = remembered(s, event);
    match s.state {
        SchedulerState::Idle => resumed(m),
        SchedulerState::Debouncing => if event is Slept {
            (SyncScheduler { state: SchedulerState::Syncing, ..m }, SchedulerAction::Sync)
        } else {
            (m, SchedulerAction::Wait)
        },
        SchedulerState::Syncing => if event is Synced {
            resumed(m)
        } else {
            (m, SchedulerAction::Wait)
        },
        SchedulerState::Stopped => (s, SchedulerAction::Stop),
    }
}

impl SyncScheduler {
    /// The scheduler at the start, when a sync is to be made at once.
    pub fn start() -> (r: (Self, SchedulerAction))
        ensures
            r.0 == (SyncScheduler {
                state: SchedulerState::Syncing,
                tick_due: false,
                triggered: false,
                cancelled: false,
            }),
            r.1 is Sync,
    {
        (
            SyncScheduler {
                state: SchedulerState::Syncing,
                tick_due: false,
                triggered: false,
                cancelled: false,
            },
            SchedulerAction::Sync,
        )
    }

    fn resume(&mut self) -> (r: SchedulerAction)
        ensures
            (*final(self), r) == resumed(*old(self)),
    {
        if self.cancelled {
            self.state = SchedulerState::Stopped;
            SchedulerAction::Stop
        } else if self.tick_due {
            self.tick_due = false;
            self.state = SchedulerState::Syncing;
            SchedulerAction::Sync
        } else if self.triggered {
            self.triggered = false;
            self.state = SchedulerState::Debouncing;
            SchedulerAction::Sleep
        } else {
            self.state = SchedulerState::Idle;
            SchedulerAction::Wait
        }
    }

    /// Takes what happened and says what is to be done.
    pub fn handle(&mut self, event: SchedulerEvent) -> (r: SchedulerAction)
        ensures
            (*final(self), r) == scheduled(*old(self), event),
    {
        match self.state {
            SchedulerState::Stopped => {
                return SchedulerAction::Stop;
            },
            _ => {},
        }
        match event {
            SchedulerEvent::Ticked => {
                self.tick_due = true;
            },
            SchedulerEvent::Triggered => {
                if self.state != SchedulerState::Debouncing {
                    self.triggered = true;
                }
            },
            SchedulerEvent::Cancelled => {
                self.cancelled = true;
            },
            _ => {},
        }
        match (self.state, event) {
            (SchedulerState::Idle, _) => self.resume(),
            (SchedulerState::Debouncing, SchedulerEvent::Slept) => {
                self.state = SchedulerState::Syncing;
                SchedulerAction::Sync
            },
            (SchedulerState::Syncing, SchedulerEvent::Synced) => self.resume(),
            _ => SchedulerAction::Wait,
        }
    }
}

/// The scheduler after events.
pub open spec fn after_all(s: SyncScheduler, events: Seq<SchedulerEvent>) -> SyncScheduler
    decreases events.len(),
{
    if events.len() == 0 {
        s
    } else {
        scheduled(after_all(s, events.drop_last()), events.last()).0
    }
}

/// Two syncs never overlap: while one runs, nothing but its end leads to
/// another.
pub proof fn law_single_flight(s: SyncScheduler, event: SchedulerEvent)
    requires
        s.state is Syncing,
        !(event is Synced),
    ensures
        scheduled(s, event).0.state is Syncing,
        scheduled(s, event).1 is Wait,
{
}

/// Any number of demands that come while a sync runs lead to one more sync:
/// they leave the scheduler as one demand does. Those that come while demands
/// are waited for lead to none beyond the one that is waited with: they leave
/// the scheduler as it was.
pub proof fn law_demands_coalesce(s: SyncScheduler, events: Seq<SchedulerEvent>)
    requires
        s.state is Syncing || s.state is Debouncing,
        events.len() > 0,
        forall|i: int| 0 <= i < events.len() ==> #[trigger] events[i] is Triggered,
    ensures
        after_all(s, events) == scheduled(s, SchedulerEvent::Triggered).0,
        s.state is Debouncing ==> scheduled(s, SchedulerEvent::Triggered) == (
            s,
            SchedulerAction::Wait,
        ),
    decreases events.len(),
{
    assert(events[events.len() - 1] is Triggered);
    if events.len() > 1 {
        assert forall|i: int| 0 <= i < events.drop_last().len() implies #[trigger] events.drop_last()[i]
            is Triggered by {
            assert(events[i] is Triggered);
        }
        law_demands_coalesce(s, events.drop_last());
    } else {
        reveal_with_fuel(after_all, 2);
    }
}

/// A burst of demands becomes one sync: after a first demand an idle scheduler
/// waits, whatever number of demands follows while it does, it makes one sync
/// when the wait is over, and then is as it was.
pub proof fn law_burst_is_one_sync(s: SyncScheduler, burst: Seq<SchedulerEvent>)
    requires
        s.state is Idle,
        !s.tick_due && !s.triggered && !s.cancelled,
        forall|i: int| 0 <= i < burst.len() ==> #[trigger] burst[i] is Triggered,
    ensures
        ({
            let first = scheduled(s, SchedulerEvent::Triggered);
            let waited = after_all(first.0, burst);
            let synced = scheduled(waited, SchedulerEvent::Slept);
            &&& first.1 is Sleep
            &&& waited == first.0
            &&& synced.1 is Sync
            &&& scheduled(synced.0, SchedulerEvent::Synced) == (s, SchedulerAction::Wait)
        }),
{
    let first = scheduled(s, SchedulerEvent::Triggered);
    if burst.len() > 0 {
        law_demands_coalesce(first.0, burst);
    }
}

/// No demand is lost: one that comes while a sync runs leads to another once
/// that sync has ended, unless a cancellation came, and one that comes while
/// demands are waited for is answered by the sync that follows.
pub proof fn law_demand_is_not_lost(s: SyncScheduler)
    ensures
        s.state is Syncing && s.triggered && !s.cancelled ==> scheduled(
            s,
            SchedulerEvent::Synced,
        ).1 is Sleep || (scheduled(s, SchedulerEvent::Synced).1 is Sync && scheduled(
            s,
            SchedulerEvent::Synced,
        ).0.triggered),
        s.state is Debouncing ==> scheduled(
            scheduled(s, SchedulerEvent::Triggered).0,
            SchedulerEvent::Slept,
        ).1 is Sync,
{
}

/// What an idle scheduler does: it syncs when a periodic sync is due, waits
/// for further demands when one comes, and stops when it is cancelled. Nothing
/// else moves it.
pub proof fn law_idle(s: &mut SyncScheduler, event: SchedulerEvent, r: SchedulerAction)
    requires
        call_ensures(SyncScheduler::handle, (s, event), r),
        old(s).state is Idle,
        !old(s).tick_due && !old(s).triggered && !old(s).cancelled,
    ensures
        event is Ticked ==> r is Sync && final(s).state is Syncing && !final(s).tick_due,
        event is Triggered ==> r is Sleep && final(s).state is Debouncing && !final(s).triggered,
        event is Cancelled ==> r is Stop && final(s).state is Stopped,
        event is Slept || event is Synced ==> r is Wait && *final(s) == *old(s),
{
}

/// What a scheduler does while it waits for further demands: it syncs once the
/// wait is over, whatever else came in between, and of that it remembers a
/// periodic sync and a cancellation.
pub proof fn law_debouncing(s: &mut SyncScheduler, event: SchedulerEvent, r: SchedulerAction)
    requires
        call_ensures(SyncScheduler::handle, (s, event), r),
        old(s).state is Debouncing,
    ensures
        event is Slept ==> r is Sync && final(s).state is Syncing,
        !(event is Slept) ==> r is Wait && final(s).state is Debouncing,
        final(s).tick_due <==> old(s).tick_due || event is Ticked,
        final(s).cancelled <==> old(s).cancelled || event is Cancelled,
        final(s).triggered == old(s).triggered,
{
}

/// What a scheduler does while a sync runs: it remembers what happens, and
/// when the sync has ended it stops where it was cancelled, syncs again where
/// a periodic sync came due, and waits for further demands where one came, in
/// this order.
pub proof fn law_syncing(s: &mut SyncScheduler, event: SchedulerEvent, r: SchedulerAction)
    requires
        call_ensures(SyncScheduler::handle, (s, event), r),
        old(s).state is Syncing,
    ensures
        !(event is Synced) ==> {
            &&& r is Wait && final(s).state is Syncing
            &&& final(s).tick_due <==> old(s).tick_due || event is Ticked
            &&& final(s).triggered <==> old(s).triggered || event is Triggered
            &&& final(s).cancelled <==> old(s).cancelled || event is Cancelled
        },
        event is Synced ==> {
            &&& r is Stop <==> old(s).cancelled
            &&& r is Sync <==> !old(s).cancelled && old(s).tick_due
            &&& r is Sleep <==> !old(s).cancelled && !old(s).tick_due && old(s).triggered
            &&& r is Wait <==> !old(s).cancelled && !old(s).tick_due && !old(s).triggered
            &&& r is Stop ==> final(s).state is Stopped
            &&& r is Sync ==> final(s).state is Syncing && !final(s).tick_due && final(
                s).triggered == old(s).triggered
            &&& r is Sleep ==> final(s).state is Debouncing && !final(s).triggered
            &&& r is Wait ==> final(s).state is Idle
        },
{
}

/// A scheduler begins with a sync, and one that stopped stays so. Periodic
/// syncs are made where an interval other than zero is set.
pub proof fn law_first_and_last(
    first: (SyncScheduler, SchedulerAction),
    s: &mut SyncScheduler,
    event: SchedulerEvent,
    r: SchedulerAction,
    secs: u64,
    ticks: bool,
)
    requires
        call_ensures(SyncScheduler::start, (), first),
        call_ensures(SyncScheduler::handle, (s, event), r),
        old(s).state is Stopped,
        call_ensures(has_ticker, (secs,), ticks),
    ensures
        first.1 is Sync && first.0.state is Syncing,
        !first.0.tick_due && !first.0.triggered && !first.0.cancelled,
        r is Stop && *final(s) == *old(s),
        ticks <==> secs > 0,
{
}

} // verus!
