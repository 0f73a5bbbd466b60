//! Asking for approval of batches, and what is made of the answers.
use vstd::prelude::*;
use vstd::string::*;

use crate::binary::{Binary32, Binary64};
use crate::models::batch::{BatchKey, BatchKeyError};
use crate::models::event::MediaEvent;
use crate::models::workflow::WorkflowStateTag;
use crate::store::batches::BatchApprovalInfo;
use crate::store::mapping::size_column;

verus! {

/// A request for the approval of a batch.
#[derive(Debug)]
pub struct ApprovalRequest {
    pub batch_id: String,
    pub title: String,
    pub file_count: u32,
    pub total_size_gb: Binary64,
    pub total_space_saved_gb: Binary64,
    pub tmdb_rating: Option<Binary32>,
}

/// The answer to a request.
#[derive(Debug)]
pub struct ApprovalResponse {
    pub batch_id: String,
    pub approved: bool,
}

/// The low 32 bits of a number.
pub open spec fn low_32_bits(n: int) -> int {
    n % 0x1_0000_0000
}

/// The low 32 bits of a number.
fn truncate_to_u32(n: i64) -> (r: u32)
    ensures
        r == low_32_bits(n as int),
{
    let m: i128 = if n < 0 {
        n as i128 + 0x1_0000_0000_0000_0000
    } else {
        n as i128
    };
    (m % 0x1_0000_0000) as u32
}

/// The request for a batch, with its sizes in GB.
pub fn build_request(
    key: &BatchKey,
    info: &BatchApprovalInfo,
    total_size_gb: Binary64,
    total_space_saved_gb: Binary64,
) -> (r: ApprovalRequest)
    ensures
        r.batch_id@ == key.text(),
        r.title == info.title,
        r.file_count == low_32_bits(info.file_count as int),
        r.total_size_gb == total_size_gb,
        r.total_space_saved_gb == total_space_saved_gb,
        r.tmdb_rating == info.tmdb_rating,
{
    ApprovalRequest {
        batch_id: key.encode(),
        title: info.title.clone(),
        file_count: truncate_to_u32(info.file_count),
        total_size_gb,
        total_space_saved_gb,
        tmdb_rating: info.tmdb_rating,
    }
}

/// A batch to be moved from one state to another, for a reason.
#[derive(Debug)]
pub struct BatchMove {
    pub key: BatchKey,
    pub from: WorkflowStateTag,
    pub to: WorkflowStateTag,
    pub event: MediaEvent,
}

impl BatchMove {
    /// Whether the reason leads from the one state to the other.
    pub open spec fn follows_workflow(self) -> bool {
        self.from.successor(self.event@) == Some(self.to)
    }
}

/// What an answer leads to: an approved batch is transcoded and a rejected one
/// is skipped. The answer to a request is applied to the batch that the
/// request was made for.
pub fn handle_response(response: &ApprovalResponse) -> (r: Result<BatchMove, BatchKeyError>)
    ensures
        match crate::models::batch::decoded(response.batch_id@) {
            crate::models::batch::DecodedKey::Key(key) => r matches Ok(m) && m.key == key && m.from
                == WorkflowStateTag::PendingApproval && (if response.approved {
                m.to == WorkflowStateTag::Transcoding && m.event is ApprovalGranted
            } else {
                m.to == WorkflowStateTag::Skipped && m.event is ApprovalRejected
            }) && m.follows_workflow(),
            crate::models::batch::DecodedKey::BadFormat => r matches Err(
                BatchKeyError::InvalidFormat(t),
            ) && t@ == response.batch_id@,
            crate::models::batch::DecodedKey::BadUuid => r matches Err(
                BatchKeyError::InvalidUuid(_),
            ),
            crate::models::batch::DecodedKey::BadSeason(fault) => r matches Err(
                BatchKeyError::InvalidSeason(f),
            ) && f == fault,
        },
        forall|key: BatchKey|
            #![trigger key.text()]
            response.batch_id@ == key.text() ==> (r matches Ok(m) && m.key == key),
{
    let key = match BatchKey::decode(response.batch_id.as_str()) {
        Ok(key) => key,
        Err(e) => {
            return Err(e);
        },
    };
    let (to, event) = if response.approved {
        (WorkflowStateTag::Transcoding, MediaEvent::ApprovalGranted)
    } else {
        (WorkflowStateTag::Skipped, MediaEvent::ApprovalRejected)
    };
    Ok(BatchMove { key, from: WorkflowStateTag::PendingApproval, to, event })
}

/// The move of a batch that is put up for approval.
pub fn put_up(key: BatchKey) -> (r: BatchMove)
    ensures
        r.key == key,
        r.from == WorkflowStateTag::Analyzed,
        r.to == WorkflowStateTag::PendingApproval,
        r.event is PendingApproval,
        r.follows_workflow(),
{
    BatchMove {
        key,
        from: WorkflowStateTag::Analyzed,
        to: WorkflowStateTag::PendingApproval,
        event: MediaEvent::PendingApproval,
    }
}

/// How far a round of requests has come.
#[derive(Clone, Copy, Debug, PartialEq, Eq, Structural)]
pub enum RoundState {
    /// How many batches are under way?
    Counting,
    /// Which batches are ready? Only so many are asked for.
    Fetching(i64),
    /// The current batch is to be put up for approval.
    Moving,
    /// What is there to be told of the current batch?
    Informing,
    /// The request for the current batch is to be sent.
    Publishing,
    Done,
}

/// What was found out or done. `None` stands for a failure.
#[derive(Debug)]
pub enum RoundEvent {
    Counted(Option<u64>),
    Fetched(Option<Vec<BatchKey>>),
    /// So many files of the batch were moved.
    Moved(Option<usize>),
    Informed(bool),
    Published(bool),
}

/// What was found out or done, by what it holds.
pub enum RoundNews {
    Counted(Option<u64>),
    Fetched(Option<Seq<BatchKey>>),
    Moved(Option<usize>),
    Informed(bool),
    Published(bool),
}

impl View for RoundEvent {
    type V = RoundNews;

    open spec fn view(&self) -> RoundNews {
        match *self {
            RoundEvent::Counted(n) => RoundNews::Counted(n),
            RoundEvent::Fetched(keys) => RoundNews::Fetched(
                match keys {
                    Some(k) => Some(k@),
                    None => None,
                },
            ),
            RoundEvent::Moved(n) => RoundNews::Moved(n),
            RoundEvent::Informed(ok) => RoundNews::Informed(ok),
            RoundEvent::Published(ok) => RoundNews::Published(ok),
        }
    }
}

/// A round of requests.
#[derive(Debug)]
pub struct RequestRound {
    /// How many batches may be under way.
    pub capacity: usize,
    /// Whether the batches are still to be put up for approval.
    pub moves: bool,
    pub keys: Vec<BatchKey>,
    pub next: usize,
    pub state: RoundState,
}

/// A round of requests, by what it holds.
#[verifier::ext_equal]
pub struct RoundView {
    pub capacity: usize,
    pub moves: bool,
    pub keys: Seq<BatchKey>,
    pub next: int,
    pub state: RoundState,
}

impl View for RequestRound {
    type V = RoundView;

    open spec fn view(&self) -> RoundView {
        RoundView {
            capacity: self.capacity,
            moves: self.moves,
            keys: self.keys@,
            next: self.next as int,
            state: self.state,
        }
    }
}

/// How many more batches may be under way. A capacity of 2 to the 63rd or more
/// counts as negative.
pub open spec fn free_slots(capacity: usize, under_way: u64) -> int {
    crate::store::mapping::signed_64(capacity as u64) - under_way
}

/// Where a round is at the batch of an index: at its first step, or at the end
/// where there is no such batch.
pub open spec fn batch_begins(moves: bool, count: nat, index: int) -> RoundState {
    if index >= count {
        RoundState::Done
    } else if moves {
        RoundState::Moving
    } else {
        RoundState::Informing
    }
}

/// A round that goes on to its next batch.
pub open spec fn passed_on(r: RoundView) -> RoundView {
    RoundView { next: r.next + 1, state: batch_begins(r.moves, r.keys.len(), r.next + 1), ..r }
}

/// How a round goes on. A batch that cannot be moved, of which no file was
/// moved, or of which nothing can be told, is passed over, and so is a request
/// that cannot be sent. What was not asked for changes nothing.
pub open spec fn round_next(r: RoundView, news: RoundNews) -> RoundView {
    match (r.state, news) {
        (RoundState::Counting, RoundNews::Counted(Some(under_way))) => RoundView {
            state: if free_slots(r.capacity, under_way) > 0 {
                RoundState::Fetching(free_slots(r.capacity, under_way) as i64)
            } else {
                RoundState::Done
            },
            ..r
        },
        (RoundState::Counting, RoundNews::Counted(None)) => RoundView {
            state: RoundState::Done,
            ..r
        },
        (RoundState::Fetching(_), RoundNews::Fetched(Some(keys))) => RoundView {
            keys,
            next: 0,
            state: batch_begins(r.moves, keys.len(), 0),
            ..r
        },
        (RoundState::Fetching(_), RoundNews::Fetched(None)) => RoundView {
            state: RoundState::Done,
            ..r
        },
        (RoundState::Moving, RoundNews::Moved(n)) => if is_put_up(r, news) {
            RoundView { state: RoundState::Informing, ..r }
        } else {
            passed_on(r)
        },
        (RoundState::Informing, RoundNews::Informed(true)) => RoundView {
            state: RoundState::Publishing,
            ..r
        },
        (RoundState::Informing, RoundNews::Informed(false)) => passed_on(r),
        (RoundState::Publishing, RoundNews::Published(_)) => passed_on(r),
        _ => r,
    }
}

/// Whether the current batch was put up for approval.
pub open spec fn is_put_up(r: RoundView, news: RoundNews) -> bool {
    r.state is Moving && (news matches RoundNews::Moved(Some(n)) && n > 0)
}

/// Begins to fill up the requests: as many batches as may be under way and are
/// not.
pub fn top_up(capacity: usize) -> (r: RequestRound)
    ensures
        r.capacity == capacity,
        r.moves,
        r.keys@ == Seq::<BatchKey>::empty(),
        r.next == 0,
        r.state is Counting,
{
    RequestRound {
        capacity,
        moves: true,
        keys: Vec::new(),
        next: 0,
        state: RoundState::Counting,
    }
}

/// Begins to repeat the requests for batches that were put up and got no
/// answer.
pub fn repeat_requests(keys: Vec<BatchKey>) -> (r: RequestRound)
    ensures
        !r.moves,
        r.keys == keys,
        r.next == 0,
        r.state == batch_begins(false, keys@.len(), 0),
{
    let state = if keys.len() == 0 {
        RoundState::Done
    } else {
        RoundState::Informing
    };
    RequestRound { capacity: 0, moves: false, keys, next: 0, state }
}

impl RequestRound {
    /// Whether the batch of the current step is one of the round's.
    pub open spec fn wf(self) -> bool {
        (self.state is Moving || self.state is Informing || self.state is Publishing) ==> self.next
            < self.keys@.len()
    }

    /// The batch of the current step.
    pub fn current(&self) -> (r: Option<BatchKey>)
        ensures
            r == (if self.next < self.keys@.len() {
                Some(self.keys@[self.next as int])
            } else {
                None
            }),
    {
        if self.next < self.keys.len() {
            Some(self.keys[self.next])
        } else {
            None
        }
    }

    /// Goes on to the next batch.
    fn skip(&mut self)
        requires
            old(self).next < old(self).keys@.len(),
        ensures
            final(self).wf(),
            final(self)@ == passed_on(old(self)@),
    {
        let n: usize = self.keys.len();
        self.next = self.next + 1;
        self.state = if self.next >= n {
            RoundState::Done
        } else if self.moves {
            RoundState::Moving
        } else {
            RoundState::Informing
        };
    }

    /// Takes what was found out or done.
    pub fn advance(&mut self, event: RoundEvent)
        requires
            old(self).wf(),
        ensures
            final(self).wf(),
            final(self)@ == round_next(old(self)@, event@),
    {
        match (self.state, event) {
            (RoundState::Counting, RoundEvent::Counted(n)) => {
                self.state = match n {
                    Some(under_way) => {
                        let slots: i128 = size_column(self.capacity as u64) as i128
                            - under_way as i128;
                        if slots > 0 {
                            RoundState::Fetching(slots as i64)
                        } else {
                            RoundState::Done
                        }
                    },
                    None => RoundState::Done,
                };
            },
            (RoundState::Fetching(_), RoundEvent::Fetched(Some(keys))) => {
                self.next = 0;
                self.state = if keys.len() == 0 {
                    RoundState::Done
                } else if self.moves {
                    RoundState::Moving
                } else {
                    RoundState::Informing
                };
                self.keys = keys;
            },
            (RoundState::Fetching(_), RoundEvent::Fetched(None)) => {
                self.state = RoundState::Done;
            },
            (RoundState::Moving, RoundEvent::Moved(n)) => {
                let moved = match n {
                    Some(count) => count > 0,
                    None => false,
                };
                if moved {
                    self.state = RoundState::Informing;
                } else {
                    self.skip();
                }
            },
            (RoundState::Informing, RoundEvent::Informed(ok)) => {
                if ok {
                    self.state = RoundState::Publishing;
                } else {
                    self.skip();
                }
            },
            (RoundState::Publishing, RoundEvent::Published(_)) => {
                self.skip();
            },
            _ => {},
        }
    }
}

/// A round after news.
pub open spec fn round_after(r: RoundView, news: Seq<RoundNews>) -> RoundView
    decreases news.len(),
{
    if news.len() == 0 {
        r
    } else {
        round_next(round_after(r, news.drop_last()), news.last())
    }
}

/// How many batches a round put up for approval.
pub open spec fn put_up_in(r: RoundView, news: Seq<RoundNews>) -> int
    decreases news.len(),
{
    if news.len() == 0 {
        0
    } else {
        put_up_in(r, news.drop_last()) + if is_put_up(
            round_after(r, news.drop_last()),
            news.last(),
        ) {
            1int
        } else {
            0
        }
    }
}

/// How many batches were found to be under way.
pub open spec fn under_way_in(r: RoundView, news: Seq<RoundNews>) -> int
    decreases news.len(),
{
    if news.len() == 0 {
        0
    } else {
        match (round_after(r, news.drop_last()).state, news.last()) {
            (RoundState::Counting, RoundNews::Counted(Some(n))) => n as int,
            _ => under_way_in(r, news.drop_last()),
        }
    }
}

/// Whether a round was never given more batches than it asked for.
pub open spec fn within_limit(r: RoundView, news: Seq<RoundNews>) -> bool
    decreases news.len(),
{
    news.len() > 0 ==> {
        &&& within_limit(r, news.drop_last())
        &&& match (round_after(r, news.drop_last()).state, news.last()) {
            (RoundState::Fetching(limit), RoundNews::Fetched(Some(keys))) => keys.len() <= limit,
            _ => true,
        }
    }
}

/// A round never puts up more batches than there is room for: those that were
/// under way and those that it puts up do not exceed the capacity.
pub proof fn law_capacity_is_kept(r: RequestRound, news: Seq<RoundNews>)
    requires
        r.moves,
        r.state is Counting,
        within_limit(r@, news),
    ensures
        put_up_in(r@, news) > 0 ==> under_way_in(r@, news) + put_up_in(r@, news) <= r.capacity,
{
    lemma_round(r@, news);
}

/// What holds of a round at each of its steps.
proof fn lemma_round(r: RoundView, news: Seq<RoundNews>)
    requires
        r.moves,
        r.state is Counting,
        within_limit(r, news),
    ensures
        ({
            let now = round_after(r, news);
            let put_up = put_up_in(r, news);
            let room = crate::store::mapping::signed_64(r.capacity as u64) - under_way_in(r, news);
            &&& now.capacity == r.capacity
            &&& now.moves
            &&& put_up >= 0
            &&& match now.state {
                RoundState::Counting => put_up == 0,
                RoundState::Fetching(limit) => put_up == 0 && limit == room,
                RoundState::Moving => put_up <= now.next < now.keys.len() <= room,
                RoundState::Informing => put_up <= now.next + 1 <= now.keys.len() <= room,
                RoundState::Publishing => put_up <= now.next + 1 <= now.keys.len() <= room,
                RoundState::Done => put_up == 0 || put_up <= room,
            }
        }),
    decreases news.len(),
{
    if news.len() > 0 {
        lemma_round(r, news.drop_last());
    }
}

/// What a request tells: the text of its batch's key, the title, the sizes and
/// the rating as they are given, and the number of files up to a multiple of 2
/// to the 32nd.
pub proof fn law_what_a_request_tells(
    key: BatchKey,
    info: BatchApprovalInfo,
    size: Binary64,
    saved: Binary64,
    r: ApprovalRequest,
    text: String,
)
    requires
        call_ensures(build_request, (&key, &info, size, saved), r),
        call_ensures(BatchKey::encode, (&key,), text),
    ensures
        r.batch_id@ == text@,
        r.title == info.title,
        r.total_size_gb == size,
        r.total_space_saved_gb == saved,
        r.tmdb_rating == info.tmdb_rating,
        (info.file_count - r.file_count) % 0x1_0000_0000 == 0,
        0 <= info.file_count < 0x1_0000_0000 ==> r.file_count == info.file_count,
{
    let n = info.file_count as int;
    assert((n - n % 0x1_0000_0000) % 0x1_0000_0000 == 0) by (nonlinear_arith);
}

/// An answer moves the batch whose key it carries, out of waiting for
/// approval: to be transcoded where it was approved, and to be skipped where
/// it was not. Where it carries no key, what is wrong with the key is told.
pub proof fn law_answers_are_followed(
    batch_id: String,
    key: Result<BatchKey, BatchKeyError>,
    text: &str,
    yes: Result<BatchMove, BatchKeyError>,
    no: Result<BatchMove, BatchKeyError>,
)
    requires
        text@ == batch_id@,
        call_ensures(BatchKey::decode, (text,), key),
        call_ensures(handle_response, (&ApprovalResponse { batch_id, approved: true },), yes),
        call_ensures(handle_response, (&ApprovalResponse { batch_id, approved: false },), no),
    ensures
        yes is Ok <==> key is Ok,
        no is Ok <==> key is Ok,
        yes matches Ok(m) ==> m.key == key->Ok_0 && m.from is PendingApproval && m.to is Transcoding
            && m.event is ApprovalGranted,
        no matches Ok(m) ==> m.key == key->Ok_0 && m.from is PendingApproval && m.to is Skipped
            && m.event is ApprovalRejected,
        yes matches Err(e) ==> ((e is InvalidFormat <==> key->Err_0 is InvalidFormat) && (e is InvalidUuid
            <==> key->Err_0 is InvalidUuid) && (e is InvalidSeason
            <==> key->Err_0 is InvalidSeason)),
        no matches Err(e) ==> ((e is InvalidFormat <==> key->Err_0 is InvalidFormat) && (e is InvalidUuid
            <==> key->Err_0 is InvalidUuid) && (e is InvalidSeason
            <==> key->Err_0 is InvalidSeason)),
{
}

/// A batch that is put up for approval is one that was analysed.
pub proof fn law_put_up(key: BatchKey, r: BatchMove)
    requires
        call_ensures(put_up, (key,), r),
    ensures
        r.key == key && r.from is Analyzed && r.to is PendingApproval && r.event is PendingApproval,
{
}

/// How rounds begin: one that fills up counts what is under way first, and one
/// that repeats requests goes through the batches that it is given, without
/// moving them.
pub proof fn law_how_rounds_begin(
    capacity: usize,
    keys: Vec<BatchKey>,
    fill: RequestRound,
    again: RequestRound,
    any: RequestRound,
    current: Option<BatchKey>,
)
    requires
        call_ensures(top_up, (capacity,), fill),
        call_ensures(repeat_requests, (keys,), again),
        call_ensures(RequestRound::current, (&any,), current),
    ensures
        fill.state is Counting && fill.moves && fill.capacity == capacity && fill.keys@.len() == 0
            && fill.next == 0,
        !again.moves && again.keys == keys && again.next == 0,
        again.state is Done <==> keys@.len() == 0,
        again.state is Informing <==> keys@.len() > 0,
        current is Some <==> any.next < any.keys@.len(),
        current matches Some(k) ==> k == any.keys@[any.next as int],
{
}

/// So many batches are asked for as may be under way and are not. Nothing is
/// asked for where there is no room, or where it could not be counted.
pub proof fn law_room_is_asked_for(round: &mut RequestRound, under_way: Option<u64>, done: ())
    requires
        call_ensures(RequestRound::advance, (round, RoundEvent::Counted(under_way)), done),
        old(round).state is Counting,
        old(round).capacity < 0x8000_0000_0000_0000,
    ensures
        final(round).capacity == old(round).capacity && final(round).moves == old(round).moves,
        under_way is None ==> final(round).state is Done,
        under_way matches Some(n) ==> {
            &&& n >= old(round).capacity ==> final(round).state is Done
            &&& n < old(round).capacity ==> (final(round).state matches RoundState::Fetching(limit)
                && limit + n == old(round).capacity)
        },
{
    let r = old(round)@;
    let news = RoundEvent::Counted(under_way)@;
    assert(final(round)@ == round_next(r, news));
    assert(final(round)@.state == final(round).state);
    assert(final(round)@.capacity == final(round).capacity && final(round)@.moves == final(
        round).moves);
    assert(crate::store::mapping::signed_64(r.capacity as u64) == r.capacity);
}

/// A round goes through the batches that it fetched, in order and from the
/// first. One that is to be put up goes on only where some of its files were
/// moved, and a request is sent only where something could be told; otherwise
/// the batch is passed over, and after the last the round is done.
pub proof fn law_rounds_go_through_their_batches(round: &mut RequestRound, event: RoundEvent, done: ())
    requires
        call_ensures(RequestRound::advance, (round, event), done),
        old(round).wf(),
    ensures
        final(round).moves == old(round).moves,
        old(round).state is Fetching ==> match event {
            RoundEvent::Fetched(Some(keys)) => final(round).keys@ == keys@ && final(round).next == 0
                && final(round).state == (if keys@.len() == 0 {
                RoundState::Done
            } else if old(round).moves {
                RoundState::Moving
            } else {
                RoundState::Informing
            }),
            RoundEvent::Fetched(None) => final(round).state is Done,
            _ => final(round).state == old(round).state,
        },
        !(old(round).state is Fetching) ==> final(round).keys@ == old(round).keys@,
        ({
            let goes_on = match (old(round).state, event) {
                (RoundState::Moving, RoundEvent::Moved(Some(n))) => n > 0,
                (RoundState::Informing, RoundEvent::Informed(ok)) => ok,
                _ => false,
            };
            let passed = match (old(round).state, event) {
                (RoundState::Moving, RoundEvent::Moved(_)) => !goes_on,
                (RoundState::Informing, RoundEvent::Informed(_)) => !goes_on,
                (RoundState::Publishing, RoundEvent::Published(_)) => true,
                _ => false,
            };
            &&& goes_on ==> final(round).next == old(round).next && (old(round).state is Moving
                ==> final(round).state is Informing) && (old(round).state is Informing ==> final(
                round).state is Publishing)
            &&& passed ==> final(round).next == old(round).next + 1 && final(round).state == (if old(
                round).next + 1 >= old(round).keys@.len() {
                RoundState::Done
            } else if old(round).moves {
                RoundState::Moving
            } else {
                RoundState::Informing
            })
            &&& !goes_on && !passed && !(old(round).state is Fetching) && !(
            old(round).state is Counting) ==> final(round)@ == old(round)@
        }),
{
    let (r, n) = (old(round)@, final(round)@);
    assert(n == round_next(r, event@));
    assert(n.state == final(round).state && n.moves == final(round).moves && n.keys == final(
        round).keys@ && n.next == final(round).next);
}

} // verus!
