//! What happens to a media file, and how it is recorded.
use vstd::prelude::*;
use vstd::string::*;

use crate::binary::Binary64;
use crate::models::transcode::SkipReason;
use crate::record::{member, push_member, read_count, Member, ReadMember, Reading, Written};
use crate::text::same_text;

verus! {

/// Something that happened to a media file.
#[allow(inconsistent_fields)]
#[derive(Debug, Clone, PartialEq)]
pub enum MediaEvent {
    Discovered { source: String },
    Probed,
    ProbeFailed { error: String },
    Analyzed { bpp: Binary64, compression_potential: Binary64, crf: u8 },
    Skipped {
        reason: SkipReason,
        bpp: Option<Binary64>,
        compression_potential: Option<Binary64>,
    },
    PendingApproval,
    ApprovalGranted,
    ApprovalRejected,
    Transcoded { original_size: u64, new_size: u64 },
    TranscodeFailed { error: String },
}

/// Something that happened to a media file, with its texts by their
/// characters.
#[allow(inconsistent_fields)]
pub enum EventView {
    Discovered { source: Seq<char> },
    Probed,
    ProbeFailed { error: Seq<char> },
    Analyzed { bpp: Binary64, compression_potential: Binary64, crf: u8 },
    Skipped {
        reason: SkipReason,
        bpp: Option<Binary64>,
        compression_potential: Option<Binary64>,
    },
    PendingApproval,
    ApprovalGranted,
    ApprovalRejected,
    Transcoded { original_size: u64, new_size: u64 },
    TranscodeFailed { error: Seq<char> },
}

impl View for MediaEvent {
    type V = EventView;

    open spec fn view(&self) -> EventView {
        match *self {
            MediaEvent::Discovered { source } => EventView::Discovered { source: source@ },
            MediaEvent::Probed => EventView::Probed,
            MediaEvent::ProbeFailed { error } => EventView::ProbeFailed { error: error@ },
            MediaEvent::Analyzed { bpp, compression_potential, crf } => EventView::Analyzed {
                bpp,
                compression_potential,
                crf,
            },
            MediaEvent::Skipped { reason, bpp, compression_potential } => EventView::Skipped {
                reason,
                bpp,
                compression_potential,
            },
            MediaEvent::PendingApproval => EventView::PendingApproval,
            MediaEvent::ApprovalGranted => EventView::ApprovalGranted,
            MediaEvent::ApprovalRejected => EventView::ApprovalRejected,
            MediaEvent::Transcoded { original_size, new_size } => EventView::Transcoded {
                original_size,
                new_size,
            },
            MediaEvent::TranscodeFailed { error } => EventView::TranscodeFailed { error: error@ },
        }
    }
}

/// The name of an event's kind.
pub open spec fn kind_of(e: EventView) -> Seq<char> {
    match e {
        EventView::Discovered { .. } => "discovered"@,
        EventView::Probed => "probed"@,
        EventView::ProbeFailed { .. } => "probe_failed"@,
        EventView::Analyzed { .. } => "analyzed"@,
        EventView::Skipped { .. } => "skipped"@,
        EventView::PendingApproval => "pending_approval"@,
        EventView::ApprovalGranted => "approval_granted"@,
        EventView::ApprovalRejected => "approval_rejected"@,
        EventView::Transcoded { .. } => "transcoded"@,
        EventView::TranscodeFailed { .. } => "transcode_failed"@,
    }
}

/// What is written for a number that may be missing.
pub open spec fn written_number(x: Option<Binary64>) -> crate::record::WrittenView {
    match x {
        Some(v) => crate::record::WrittenView::Number(v),
        None => crate::record::WrittenView::Null,
    }
}

/// The members that an event is recorded with: its kind under `type`, then
/// its fields.
pub open spec fn event_members(e: EventView) -> Seq<(Seq<char>, crate::record::WrittenView)> {
    let kind = seq![("type"@, crate::record::WrittenView::Text(kind_of(e)))];
    match e {
        EventView::Discovered { source } => kind.push(
            ("source"@, crate::record::WrittenView::Text(source)),
        ),
        EventView::ProbeFailed { error } => kind.push(
            ("error"@, crate::record::WrittenView::Text(error)),
        ),
        EventView::Analyzed { bpp, compression_potential, crf } => kind.push(
            ("bpp"@, crate::record::WrittenView::Number(bpp)),
        ).push(
            ("compression_potential"@, crate::record::WrittenView::Number(compression_potential)),
        ).push(("crf"@, crate::record::WrittenView::Count(crf as u64))),
        EventView::Skipped { reason, bpp, compression_potential } => kind.push(
            ("reason"@, crate::record::WrittenView::Text(reason.name())),
        ).push(("bpp"@, written_number(bpp))).push(
            ("compression_potential"@, written_number(compression_potential)),
        ),
        EventView::Transcoded { original_size, new_size } => kind.push(
            ("original_size"@, crate::record::WrittenView::Count(original_size)),
        ).push(("new_size"@, crate::record::WrittenView::Count(new_size))),
        EventView::TranscodeFailed { error } => kind.push(
            ("error"@, crate::record::WrittenView::Text(error)),
        ),
        _ => kind,
    }
}

/// The text that was read under a name.
pub open spec fn text_member(r: Seq<ReadMember>, name: Seq<char>) -> Option<Seq<char>> {
    match crate::record::find(r, name) {
        Some(Reading::Text(s)) => Some(s@),
        _ => None,
    }
}

/// The number that was read under a name.
pub open spec fn number_member(r: Seq<ReadMember>, name: Seq<char>) -> Option<Binary64> {
    match crate::record::find(r, name) {
        Some(Reading::Number { number, .. }) => Some(number),
        _ => None,
    }
}

/// The number that was read under a name, where a missing or a null member
/// stands for none. The outer `None` is for a member of another kind.
pub open spec fn optional_number_member(
    r: Seq<ReadMember>,
    name: Seq<char>,
) -> Option<Option<Binary64>> {
    match crate::record::find(r, name) {
        Some(Reading::Number { number, .. }) => Some(Some(number)),
        Some(Reading::Null) => Some(None),
        None => Some(None),
        _ => None,
    }
}

/// The reason of that name.
pub open spec fn reason_named(s: Seq<char>) -> Option<SkipReason> {
    if exists|reason: SkipReason| s == #[trigger] reason.name() {
        Some(choose|reason: SkipReason| s == #[trigger] reason.name())
    } else {
        None
    }
}

/// The event that a record stands for.
pub open spec fn event_read(r: Seq<ReadMember>) -> Option<EventView> {
    match text_member(r, "type"@) {
        None => None,
        Some(kind) => if kind == "discovered"@ {
            match text_member(r, "source"@) {
                Some(source) => Some(EventView::Discovered { source }),
                None => None,
            }
        } else if kind == "probed"@ {
            Some(EventView::Probed)
        } else if kind == "probe_failed"@ {
            match text_member(r, "error"@) {
                Some(error) => Some(EventView::ProbeFailed { error }),
                None => None,
            }
        } else if kind == "analyzed"@ {
            match (
                number_member(r, "bpp"@),
                number_member(r, "compression_potential"@),
                crate::record::count_member(r, "crf"@),
            ) {
                (Some(bpp), Some(compression_potential), Some(crf)) => if crf <= u8::MAX {
                    Some(EventView::Analyzed { bpp, compression_potential, crf: crf as u8 })
                } else {
                    None
                },
                _ => None,
            }
        } else if kind == "skipped"@ {
            match (
                text_member(r, "reason"@),
                optional_number_member(r, "bpp"@),
                optional_number_member(r, "compression_potential"@),
            ) {
                (Some(name), Some(bpp), Some(compression_potential)) => match reason_named(name) {
                    Some(reason) => Some(
                        EventView::Skipped { reason, bpp, compression_potential },
                    ),
                    None => None,
                },
                _ => None,
            }
        } else if kind == "pending_approval"@ {
            Some(EventView::PendingApproval)
        } else if kind == "approval_granted"@ {
            Some(EventView::ApprovalGranted)
        } else if kind == "approval_rejected"@ {
            Some(EventView::ApprovalRejected)
        } else if kind == "transcoded"@ {
            match (crate::record::count_member(r, "original_size"@), crate::record::count_member(r, "new_size"@)) {
                (Some(original_size), Some(new_size)) => Some(
                    EventView::Transcoded { original_size, new_size },
                ),
                _ => None,
            }
        } else if kind == "transcode_failed"@ {
            match text_member(r, "error"@) {
                Some(error) => Some(EventView::TranscodeFailed { error }),
                None => None,
            }
        } else {
            None
        },
    }
}

/// The text that was read under a name.
fn read_text(r: &Vec<ReadMember>, name: &str) -> (t: Option<String>)
    ensures
        crate::text::text_of(t) == text_member(r@, name@),
{
    match member(r, name) {
        Some(Reading::Text(s)) => Some(s.clone()),
        _ => None,
    }
}

/// The number that was read under a name.
fn read_number(r: &Vec<ReadMember>, name: &str) -> (x: Option<Binary64>)
    ensures
        x == number_member(r@, name@),
{
    match member(r, name) {
        Some(Reading::Number { number, .. }) => Some(*number),
        _ => None,
    }
}

/// The number that was read under a name, if any.
fn read_optional_number(r: &Vec<ReadMember>, name: &str) -> (x: Option<Option<Binary64>>)
    ensures
        x == optional_number_member(r@, name@),
{
    match member(r, name) {
        Some(Reading::Number { number, .. }) => Some(Some(*number)),
        Some(Reading::Null) => Some(None),
        None => Some(None),
        _ => None,
    }
}

/// The value to be written for a number that may be missing.
fn number_or_null(x: Option<Binary64>) -> (w: Written)
    ensures
        w@ == written_number(x),
{
    match x {
        Some(v) => Written::Number(v),
        None => Written::Null,
    }
}

impl MediaEvent {
    /// The name of the event's kind.
    pub fn kind(&self) -> (r: &'static str)
        ensures
            r@ == kind_of(self@),
    {
        match self {
            MediaEvent::Discovered { .. } => "discovered",
            MediaEvent::Probed => "probed",
            MediaEvent::ProbeFailed { .. } => "probe_failed",
            MediaEvent::Analyzed { .. } => "analyzed",
            MediaEvent::Skipped { .. } => "skipped",
            MediaEvent::PendingApproval => "pending_approval",
            MediaEvent::ApprovalGranted => "approval_granted",
            MediaEvent::ApprovalRejected => "approval_rejected",
            MediaEvent::Transcoded { .. } => "transcoded",
            MediaEvent::TranscodeFailed { .. } => "transcode_failed",
        }
    }

    /// The record of an event.
    pub fn to_record(&self) -> (r: Vec<Member>)
        ensures
            crate::record::members(r@) == event_members(self@),
    {
        let mut r: Vec<Member> = Vec::new();
        assert(crate::record::members(r@) =~= Seq::empty());
        push_member(&mut r, "type", Written::Text(self.kind().to_owned()));
        match self {
            MediaEvent::Discovered { source } => {
                push_member(&mut r, "source", Written::Text(source.clone()));
            },
            MediaEvent::ProbeFailed { error } => {
                push_member(&mut r, "error", Written::Text(error.clone()));
            },
            MediaEvent::Analyzed { bpp, compression_potential, crf } => {
                push_member(&mut r, "bpp", Written::Number(*bpp));
                push_member(
                    &mut r,
                    "compression_potential",
                    Written::Number(*compression_potential),
                );
                push_member(&mut r, "crf", Written::Count(*crf as u64));
            },
            MediaEvent::Skipped { reason, bpp, compression_potential } => {
                push_member(&mut r, "reason", Written::Text(reason.as_str().to_owned()));
                push_member(&mut r, "bpp", number_or_null(*bpp));
                push_member(
                    &mut r,
                    "compression_potential",
                    number_or_null(*compression_potential),
                );
            },
            MediaEvent::Transcoded { original_size, new_size } => {
                push_member(&mut r, "original_size", Written::Count(*original_size));
                push_member(&mut r, "new_size", Written::Count(*new_size));
            },
            MediaEvent::TranscodeFailed { error } => {
                push_member(&mut r, "error", Written::Text(error.clone()));
            },
            _ => {},
        }
        assert(crate::record::members(r@) =~= event_members(self@));
        r
    }

    /// The event that a record stands for.
    pub fn from_record(r: &Vec<ReadMember>) -> (e: Option<MediaEvent>)
        ensures
            match e {
                Some(event) => event_read(r@) == Some(event@),
                None => event_read(r@) is None,
            },
    {
        let kind = match read_text(r, "type") {
            Some(k) => k,
            None => {
                return None;
            },
        };
        let kind = kind.as_str();
        if same_text(kind, "discovered") {
            match read_text(r, "source") {
                Some(source) => Some(MediaEvent::Discovered { source }),
                None => None,
            }
        } else if same_text(kind, "probed") {
            Some(MediaEvent::Probed)
        } else if same_text(kind, "probe_failed") {
            match read_text(r, "error") {
                Some(error) => Some(MediaEvent::ProbeFailed { error }),
                None => None,
            }
        } else if same_text(kind, "analyzed") {
            match (
                read_number(r, "bpp"),
                read_number(r, "compression_potential"),
                read_count(r, "crf"),
            ) {
                (Some(bpp), Some(compression_potential), Some(crf)) => {
                    if crf <= 255 {
                        Some(MediaEvent::Analyzed { bpp, compression_potential, crf: crf as u8 })
                    } else {
                        None
                    }
                },
                _ => None,
            }
        } else if same_text(kind, "skipped") {
            match (
                read_text(r, "reason"),
                read_optional_number(r, "bpp"),
                read_optional_number(r, "compression_potential"),
            ) {
                (Some(name), Some(bpp), Some(compression_potential)) => {
                    match SkipReason::from_name(name.as_str()) {
                        Some(reason) => {
                            proof {
                                lemma_reason_named(reason);
                            }
                            Some(MediaEvent::Skipped { reason, bpp, compression_potential })
                        },
                        None => None,
                    }
                },
                _ => None,
            }
        } else if same_text(kind, "pending_approval") {
            Some(MediaEvent::PendingApproval)
        } else if same_text(kind, "approval_granted") {
            Some(MediaEvent::ApprovalGranted)
        } else if same_text(kind, "approval_rejected") {
            Some(MediaEvent::ApprovalRejected)
        } else if same_text(kind, "transcoded") {
            match (read_count(r, "original_size"), read_count(r, "new_size")) {
                (Some(original_size), Some(new_size)) => Some(
                    MediaEvent::Transcoded { original_size, new_size },
                ),
                _ => None,
            }
        } else if same_text(kind, "transcode_failed") {
            match read_text(r, "error") {
                Some(error) => Some(MediaEvent::TranscodeFailed { error }),
                None => None,
            }
        } else {
            None
        }
    }
}

/// A reason's name stands for that reason.
proof fn lemma_reason_named(reason: SkipReason)
    ensures
        reason_named(reason.name()) == Some(reason),
{
    let s = reason.name();
    assert(s == reason.name());
    let c = choose|x: SkipReason| s == #[trigger] x.name();
    crate::models::transcode::law_skip_reason_names_differ(c, reason);
}

/// No two kinds of event are recorded under one name.
proof fn lemma_kinds_differ()
    ensures
        "discovered"@ != "probed"@,
        "discovered"@ != "probe_failed"@,
        "discovered"@ != "analyzed"@,
        "discovered"@ != "skipped"@,
        "discovered"@ != "pending_approval"@,
        "discovered"@ != "approval_granted"@,
        "discovered"@ != "approval_rejected"@,
        "discovered"@ != "transcoded"@,
        "discovered"@ != "transcode_failed"@,
        "probed"@ != "probe_failed"@,
        "probed"@ != "analyzed"@,
        "probed"@ != "skipped"@,
        "probed"@ != "pending_approval"@,
        "probed"@ != "approval_granted"@,
        "probed"@ != "approval_rejected"@,
        "probed"@ != "transcoded"@,
        "probed"@ != "transcode_failed"@,
        "probe_failed"@ != "analyzed"@,
        "probe_failed"@ != "skipped"@,
        "probe_failed"@ != "pending_approval"@,
        "probe_failed"@ != "approval_granted"@,
        "probe_failed"@ != "approval_rejected"@,
        "probe_failed"@ != "transcoded"@,
        "probe_failed"@ != "transcode_failed"@,
        "analyzed"@ != "skipped"@,
        "analyzed"@ != "pending_approval"@,
        "analyzed"@ != "approval_granted"@,
        "analyzed"@ != "approval_rejected"@,
        "analyzed"@ != "transcoded"@,
        "analyzed"@ != "transcode_failed"@,
        "skipped"@ != "pending_approval"@,
        "skipped"@ != "approval_granted"@,
        "skipped"@ != "approval_rejected"@,
        "skipped"@ != "transcoded"@,
        "skipped"@ != "transcode_failed"@,
        "pending_approval"@ != "approval_granted"@,
        "pending_approval"@ != "approval_rejected"@,
        "pending_approval"@ != "transcoded"@,
        "pending_approval"@ != "transcode_failed"@,
        "approval_granted"@ != "approval_rejected"@,
        "approval_granted"@ != "transcoded"@,
        "approval_granted"@ != "transcode_failed"@,
        "approval_rejected"@ != "transcoded"@,
        "approval_rejected"@ != "transcode_failed"@,
        "transcoded"@ != "transcode_failed"@,
{
    reveal_strlit("discovered");
    reveal_strlit("probed");
    reveal_strlit("probe_failed");
    reveal_strlit("analyzed");
    reveal_strlit("skipped");
    reveal_strlit("pending_approval");
    reveal_strlit("approval_granted");
    reveal_strlit("approval_rejected");
    reveal_strlit("transcoded");
    reveal_strlit("transcode_failed");
    assert("discovered"@.len() == 10 && "probed"@.len() == 6 && "probe_failed"@.len() == 12);
    assert("analyzed"@.len() == 8 && "skipped"@.len() == 7 && "pending_approval"@.len() == 16);
    assert("approval_granted"@.len() == 16 && "approval_rejected"@.len() == 17);
    assert("transcoded"@.len() == 10 && "transcode_failed"@.len() == 16);
    assert("discovered"@[0] == 'd' && "transcoded"@[0] == 't');
    assert("pending_approval"@[0] == 'p' && "approval_granted"@[0] == 'a'
        && "transcode_failed"@[0] == 't');
}

/// An event that is written down is read back as it was.
pub proof fn law_event_round_trip(e: EventView, r: Seq<ReadMember>)
    requires
        crate::record::reads_back(event_members(e), r),
    ensures
        event_read(r) == Some(e),
{
    lemma_kinds_differ();
    let w = event_members(e);
    assert(w[0] == ("type"@, crate::record::WrittenView::Text(kind_of(e))));
    assert(text_member(r, "type"@) == Some(kind_of(e)));
    match e {
        EventView::Discovered { .. } | EventView::ProbeFailed { .. } | EventView::TranscodeFailed {
            ..
        } => {
            assert(w[1] == w[1]);
        },
        EventView::Analyzed { .. } => {
            assert(w[1] == w[1] && w[2] == w[2] && w[3] == w[3]);
        },
        EventView::Skipped { reason, .. } => {
            assert(w[1] == w[1] && w[2] == w[2] && w[3] == w[3]);
            lemma_reason_named(reason);
        },
        EventView::Transcoded { .. } => {
            assert(w[1] == w[1] && w[2] == w[2]);
        },
        _ => {},
    }
}

/// The members of a record stand at their own places.
proof fn lemma_members(r: Seq<Member>)
    ensures
        crate::record::members(r).len() == r.len(),
        forall|i: int|
            0 <= i < r.len() ==> crate::record::members(r)[i] == (
                (#[trigger] r[i]).name@,
                r[i].value@,
            ),
{
}

/// The names of the kinds of events.
pub proof fn law_kinds_of_events(e: MediaEvent, r: &'static str)
    requires
        call_ensures(MediaEvent::kind, (&e,), r),
    ensures
        e is Discovered ==> r@ == "discovered"@,
        e is Probed ==> r@ == "probed"@,
        e is ProbeFailed ==> r@ == "probe_failed"@,
        e is Analyzed ==> r@ == "analyzed"@,
        e is Skipped ==> r@ == "skipped"@,
        e is PendingApproval ==> r@ == "pending_approval"@,
        e is ApprovalGranted ==> r@ == "approval_granted"@,
        e is ApprovalRejected ==> r@ == "approval_rejected"@,
        e is Transcoded ==> r@ == "transcoded"@,
        e is TranscodeFailed ==> r@ == "transcode_failed"@,
{
}

/// Whether a record has a text of a name at a place.
pub open spec fn has_text(r: Seq<Member>, i: int, name: Seq<char>, text: Seq<char>) -> bool {
    0 <= i < r.len() && r[i].name@ == name && (r[i].value matches Written::Text(t) && t@ == text)
}

/// Whether a record has a count of a name at a place.
pub open spec fn has_count(r: Seq<Member>, i: int, name: Seq<char>, n: int) -> bool {
    0 <= i < r.len() && r[i].name@ == name && (r[i].value matches Written::Count(c) && c == n)
}

/// Whether a record has a number of a name at a place, or null for none.
pub open spec fn has_number(r: Seq<Member>, i: int, name: Seq<char>, x: Option<Binary64>) -> bool {
    0 <= i < r.len() && r[i].name@ == name && match x {
        Some(v) => r[i].value matches Written::Number(y) && y == v,
        None => r[i].value is Null,
    }
}

/// How events are recorded: the kind under `type`, and then each field under
/// its own name, and nothing else.
pub proof fn law_records_of_events(
    e: MediaEvent,
    r: Vec<Member>,
    kind: &'static str,
    why: &'static str,
)
    requires
        call_ensures(MediaEvent::to_record, (&e,), r),
        call_ensures(MediaEvent::kind, (&e,), kind),
        e matches MediaEvent::Skipped { reason, .. } ==> call_ensures(
            SkipReason::as_str,
            (&reason,),
            why,
        ),
    ensures
        has_text(r@, 0, "type"@, kind@),
        match e {
            MediaEvent::Discovered { source } => r@.len() == 2 && has_text(
                r@,
                1,
                "source"@,
                source@,
            ),
            MediaEvent::ProbeFailed { error } => r@.len() == 2 && has_text(r@, 1, "error"@, error@),
            MediaEvent::TranscodeFailed { error } => r@.len() == 2 && has_text(
                r@,
                1,
                "error"@,
                error@,
            ),
            MediaEvent::Analyzed { bpp, compression_potential, crf } => r@.len() == 4 && has_number(
                r@,
                1,
                "bpp"@,
                Some(bpp),
            ) && has_number(r@, 2, "compression_potential"@, Some(compression_potential))
                && has_count(r@, 3, "crf"@, crf as int),
            MediaEvent::Skipped { reason, bpp, compression_potential } => r@.len() == 4 && has_text(
                r@,
                1,
                "reason"@,
                why@,
            ) && has_number(r@, 2, "bpp"@, bpp) && has_number(
                r@,
                3,
                "compression_potential"@,
                compression_potential,
            ),
            MediaEvent::Transcoded { original_size, new_size } => r@.len() == 3 && has_count(
                r@,
                1,
                "original_size"@,
                original_size as int,
            ) && has_count(r@, 2, "new_size"@, new_size as int),
            _ => r@.len() == 1,
        },
{
    lemma_members(r@);
    let m = event_members(e@);
    assert(crate::record::members(r@) == m);
    assert(m.len() == r@.len());
    assert(m[0] == (r@[0].name@, r@[0].value@));
    if m.len() > 1 {
        assert(m[1] == (r@[1].name@, r@[1].value@));
    }
    if m.len() > 2 {
        assert(m[2] == (r@[2].name@, r@[2].value@));
    }
    if m.len() > 3 {
        assert(m[3] == (r@[3].name@, r@[3].value@));
    }
}

/// What was recorded of an event is read as that event, in whatever order the
/// members are read.
pub proof fn law_recorded_events_are_read(
    e: MediaEvent,
    w: Vec<Member>,
    r: Vec<ReadMember>,
    got: Option<MediaEvent>,
)
    requires
        call_ensures(MediaEvent::to_record, (&e,), w),
        crate::record::reads_back(crate::record::members(w@), r@),
        call_ensures(MediaEvent::from_record, (&r,), got),
    ensures
        got is Some && got->0@ == e@,
{
    law_event_round_trip(e@, r@);
}

/// Whether a text was read under a name.
pub open spec fn reads_text(r: Seq<ReadMember>, name: Seq<char>, text: Seq<char>) -> bool {
    crate::record::find(r, name) matches Some(Reading::Text(t)) && t@ == text
}

/// What is read as an event: a record whose kind is that of the event, and
/// whose members of the event's fields are there and of their kind. The fields
/// are those members; of a skipped file the two numbers may be missing or null.
/// Nothing else is an event.
pub proof fn law_what_is_read_as_an_event(
    r: Vec<ReadMember>,
    got: Option<MediaEvent>,
    name: &str,
    reason: Option<SkipReason>,
)
    requires
        call_ensures(MediaEvent::from_record, (&r,), got),
        call_ensures(SkipReason::from_name, (name,), reason),
        crate::record::find(r@, "reason"@) matches Some(Reading::Text(t)) ==> t@ == name@,
    ensures
        got is Some ==> got->0 is Discovered || got->0 is Probed || got->0 is ProbeFailed
            || got->0 is Analyzed || got->0 is Skipped || got->0 is PendingApproval
            || got->0 is ApprovalGranted || got->0 is ApprovalRejected || got->0 is Transcoded
            || got->0 is TranscodeFailed,
        got is Some && got->0 is Probed <==> reads_text(r@, "type"@, "probed"@),
        got is Some && got->0 is PendingApproval <==> reads_text(
            r@,
            "type"@,
            "pending_approval"@,
        ),
        got is Some && got->0 is ApprovalGranted <==> reads_text(
            r@,
            "type"@,
            "approval_granted"@,
        ),
        got is Some && got->0 is ApprovalRejected <==> reads_text(
            r@,
            "type"@,
            "approval_rejected"@,
        ),
        got is Some && got->0 is Discovered <==> reads_text(r@, "type"@, "discovered"@) && (
        crate::record::find(r@, "source"@) matches Some(Reading::Text(_))),
        got matches Some(MediaEvent::Discovered { source }) ==> reads_text(
            r@,
            "source"@,
            source@,
        ),
        got is Some && got->0 is ProbeFailed <==> reads_text(r@, "type"@, "probe_failed"@) && (
        crate::record::find(r@, "error"@) matches Some(Reading::Text(_))),
        got matches Some(MediaEvent::ProbeFailed { error }) ==> reads_text(r@, "error"@, error@),
        got is Some && got->0 is TranscodeFailed <==> reads_text(r@, "type"@, "transcode_failed"@)
            && (crate::record::find(r@, "error"@) matches Some(Reading::Text(_))),
        got matches Some(MediaEvent::TranscodeFailed { error }) ==> reads_text(
            r@,
            "error"@,
            error@,
        ),
        got is Some && got->0 is Transcoded <==> reads_text(r@, "type"@, "transcoded"@) && (
        crate::record::find(r@, "original_size"@) matches Some(
            Reading::Number { count: Some(_), .. },
        )) && (crate::record::find(r@, "new_size"@) matches Some(
            Reading::Number { count: Some(_), .. },
        )),
        got matches Some(MediaEvent::Transcoded { original_size, new_size }) ==> (
        crate::record::find(r@, "original_size"@) matches Some(Reading::Number { count, .. })
            && count == Some(original_size)) && (crate::record::find(
            r@,
            "new_size"@,
        ) matches Some(Reading::Number { count, .. }) && count == Some(new_size)),
        got is Some && got->0 is Analyzed <==> reads_text(r@, "type"@, "analyzed"@) && (
        crate::record::find(r@, "bpp"@) matches Some(Reading::Number { .. })) && (
        crate::record::find(r@, "compression_potential"@) matches Some(Reading::Number { .. })) && (
        crate::record::find(r@, "crf"@) matches Some(Reading::Number { count: Some(n), .. }) && n
            < 256),
        got matches Some(MediaEvent::Analyzed { bpp, compression_potential, crf }) ==> (
        crate::record::find(r@, "bpp"@) matches Some(Reading::Number { number, .. }) && number
            == bpp) && (crate::record::find(r@, "compression_potential"@) matches Some(
            Reading::Number { number, .. },
        ) && number == compression_potential) && (crate::record::find(r@, "crf"@) matches Some(
            Reading::Number { count: Some(n), .. },
        ) && n == crf),
        got is Some && got->0 is Skipped ==> reads_text(r@, "type"@, "skipped"@),
        got matches Some(MediaEvent::Skipped { reason: why, bpp, compression_potential }) ==> (
        crate::record::find(r@, "reason"@) is Some) && reason == Some(why) && reads_optional(
            r@,
            "bpp"@,
            bpp,
        ) && reads_optional(r@, "compression_potential"@, compression_potential),
        reads_text(r@, "type"@, "skipped"@) && (crate::record::find(r@, "reason"@) matches Some(
            Reading::Text(_),
        )) && reason is Some && may_be_number(r@, "bpp"@) && may_be_number(
            r@,
            "compression_potential"@,
        ) ==> got is Some && got->0 is Skipped,
{
    lemma_kinds_differ();
    if let Some(why) = reason {
        lemma_reason_named(why);
    }
}

/// Whether a member is a number, null or missing.
pub open spec fn may_be_number(r: Seq<ReadMember>, name: Seq<char>) -> bool {
    match crate::record::find(r, name) {
        Some(v) => v is Number || v is Null,
        None => true,
    }
}

/// Whether a number was read under a name, or none where the member is null or
/// missing.
pub open spec fn reads_optional(r: Seq<ReadMember>, name: Seq<char>, x: Option<Binary64>) -> bool {
    match crate::record::find(r, name) {
        Some(v) => match x {
            Some(y) => v is Number && v->number == y,
            None => v is Null,
        },
        None => x is None,
    }
}

} // verus!
