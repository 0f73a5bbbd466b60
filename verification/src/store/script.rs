//! What the store does to a file in one transaction: an update guarded by the
//! file's state, and what follows it.
use vstd::prelude::*;
use vstd::string::*;

use crate::binary::Binary64;
use crate::models::common::AbsoluteFilePath;
use crate::models::event::MediaEvent;
use crate::models::library::MediaFileId;
use crate::models::media_file::SizeBytes;
use crate::models::transcode::TranscodeDecision;
use crate::models::video::{Bitrate, VideoProperties};
use crate::models::workflow::WorkflowStateTag;
use crate::record::{push_member, Member, Written};
use crate::store::error::StoreError;
use crate::store::mapping::{copy_text, int_column, size_column, ColorMetadataRow};

verus! {

/// What a probe writes to a media file's row.
#[derive(Debug)]
pub struct ProbeColumns {
    pub size_bytes: i64,
    pub video_codec: String,
    pub height: i32,
    pub width: i32,
    pub bitrate_kbps: Option<i32>,
    pub framerate: Option<String>,
    pub duration_seconds: Option<Binary64>,
    pub dv_profile: Option<i16>,
}

/// What a completed transcode writes to a media file's row.
#[derive(Debug)]
pub struct CompletionColumns {
    pub file_path: String,
    pub size_bytes: i64,
    pub video_codec: String,
    pub bitrate_kbps: Option<i32>,
}

/// The columns that are written beside the state.
#[derive(Debug)]
pub enum Columns {
    StateOnly,
    Probe(ProbeColumns),
    /// The transcode spec, as the members of a JSON object.
    Spec(Vec<Member>),
    Completion(CompletionColumns),
}

/// What follows the update.
#[derive(Debug)]
pub enum Statement {
    UpsertColor(ColorMetadataRow),
    InsertEvent(MediaEvent),
    InsertRetention { retained_path: String, original_size_bytes: i64 },
}

/// One transaction on a file. The update applies only to a file in the state
/// `from`; where it applies to none the transaction is given up.
#[derive(Debug)]
pub struct Script {
    pub media_file_id: MediaFileId,
    pub from: WorkflowStateTag,
    pub to: WorkflowStateTag,
    pub columns: Columns,
    pub then_run: Vec<Statement>,
}

/// The events that statements record, in order.
pub open spec fn events_in(s: Seq<Statement>) -> Seq<crate::models::event::EventView>
    decreases s.len(),
{
    if s.len() == 0 {
        Seq::empty()
    } else {
        match s.last() {
            Statement::InsertEvent(e) => events_in(s.drop_last()).push(e@),
            _ => events_in(s.drop_last()),
        }
    }
}

impl Script {
    /// The events that a script records.
    pub open spec fn events(self) -> Seq<crate::models::event::EventView> {
        events_in(self.then_run@)
    }

    /// Whether a script records one event, and that event leads from the one
    /// state to the other.
    pub open spec fn follows_workflow(self) -> bool {
        self.events().len() == 1 && self.from.successor(self.events()[0]) == Some(self.to)
    }

    /// Whether the update applied. `rows` is the number of rows that it
    /// changed.
    pub fn check_guard(&self, rows: u64) -> (r: Result<(), StoreError>)
        ensures
            r == (if rows == 0 {
                Err(StoreError::StaleState { expected: self.from })
            } else {
                Ok(())
            }),
    {
        if rows == 0 {
            return Err(StoreError::StaleState { expected: self.from });
        }
        Ok(())
    }
}

/// The script that moves a file from one state to another and records why.
pub fn transition(
    media_file_id: MediaFileId,
    from: WorkflowStateTag,
    to: WorkflowStateTag,
    event: MediaEvent,
) -> (r: Script)
    ensures
        r.media_file_id == media_file_id,
        r.from == from,
        r.to == to,
        r.columns is StateOnly,
        r.then_run@ == seq![Statement::InsertEvent(event)],
        r.events() == seq![event@],
{
    let mut then_run: Vec<Statement> = Vec::new();
    then_run.push(Statement::InsertEvent(event));
    let r = Script { media_file_id, from, to, columns: Columns::StateOnly, then_run };
    proof {
        assert(r.then_run@ =~= seq![Statement::InsertEvent(event)]);
        lemma_one_event(event);
    }
    r
}

/// The events of a single statement.
proof fn lemma_one_event(event: MediaEvent)
    ensures
        events_in(seq![Statement::InsertEvent(event)]) == seq![event@],
{
    reveal_with_fuel(events_in, 2);
    let s = seq![Statement::InsertEvent(event)];
    assert(s.drop_last() =~= Seq::<Statement>::empty());
    assert(events_in(s) =~= seq![event@]);
}

/// The script that applies an event to a file in the state `from`, with the
/// state that the workflow prescribes. Refused where the event may not happen
/// in that state.
pub fn apply_event(media_file_id: MediaFileId, from: WorkflowStateTag, event: MediaEvent) -> (r:
    Result<Script, StoreError>)
    ensures
        match r {
            Ok(s) => from.successor(event@) == Some(s.to) && s.media_file_id == media_file_id
                && s.from == from && s.columns is StateOnly && s.then_run@ == seq![
                Statement::InsertEvent(event),
            ] && s.follows_workflow(),
            Err(e) => from.successor(event@) is None && e == (StoreError::InvalidTransition {
                from,
            }),
        },
{
    match from.next_on(&event) {
        Some(to) => Ok(transition(media_file_id, from, to, event)),
        None => Err(StoreError::InvalidTransition { from }),
    }
}

/// The members of the transcode spec of a file that is to be encoded.
pub open spec fn spec_members(
    bpp: Binary64,
    compression_potential: Binary64,
    crf: u8,
    estimated_saving_ratio: Binary64,
) -> Seq<(Seq<char>, crate::record::WrittenView)> {
    seq![
        ("crf"@, crate::record::WrittenView::Count(crf as u64)),
        ("bpp"@, crate::record::WrittenView::Number(bpp)),
        ("compression_potential"@, crate::record::WrittenView::Number(compression_potential)),
        ("estimated_saving_ratio"@, crate::record::WrittenView::Number(estimated_saving_ratio)),
    ]
}

/// The script that stores what was decided of a probed file: the rate factor
/// and what it was computed from where the file is to be encoded, and the
/// reason where it is skipped.
pub fn save_analysis_result(media_file_id: MediaFileId, decision: &TranscodeDecision) -> (r: Script)
    ensures
        r.media_file_id == media_file_id,
        r.from == WorkflowStateTag::Probed,
        r.follows_workflow(),
        match *decision {
            TranscodeDecision::Encode { bpp, compression_potential, crf, estimated_saving_ratio } =>
                {
                &&& r.to == WorkflowStateTag::Analyzed
                &&& r.columns is Spec
                &&& crate::record::members(r.columns->Spec_0@) == spec_members(
                    bpp,
                    compression_potential,
                    crf,
                    estimated_saving_ratio,
                )
                &&& r.then_run@ == seq![
                    Statement::InsertEvent(
                        MediaEvent::Analyzed { bpp, compression_potential, crf },
                    ),
                ]
            },
            TranscodeDecision::Skip(reason) => {
                &&& r.to == WorkflowStateTag::Skipped
                &&& r.columns is StateOnly
                &&& r.then_run@ == seq![
                    Statement::InsertEvent(
                        MediaEvent::Skipped { reason, bpp: None, compression_potential: None },
                    ),
                ]
            },
            TranscodeDecision::SkipWithAnalysis { reason, bpp, compression_potential } => {
                &&& r.to == WorkflowStateTag::Skipped
                &&& r.columns is StateOnly
                &&& r.then_run@ == seq![
                    Statement::InsertEvent(
                        MediaEvent::Skipped {
                            reason,
                            bpp: Some(bpp),
                            compression_potential: Some(compression_potential),
                        },
                    ),
                ]
            },
        },
{
    match decision {
        TranscodeDecision::Encode { bpp, compression_potential, crf, estimated_saving_ratio } => {
            let mut spec: Vec<Member> = Vec::new();
            assert(crate::record::members(spec@) =~= Seq::empty());
            push_member(&mut spec, "crf", Written::Count(*crf as u64));
            push_member(&mut spec, "bpp", Written::Number(*bpp));
            push_member(
                &mut spec,
                "compression_potential",
                Written::Number(*compression_potential),
            );
            push_member(
                &mut spec,
                "estimated_saving_ratio",
                Written::Number(*estimated_saving_ratio),
            );
            assert(crate::record::members(spec@) =~= spec_members(
                *bpp,
                *compression_potential,
                *crf,
                *estimated_saving_ratio,
            ));
            let event = MediaEvent::Analyzed {
                bpp: *bpp,
                compression_potential: *compression_potential,
                crf: *crf,
            };
            proof {
                lemma_one_event(event);
            }
            let mut then_run: Vec<Statement> = Vec::new();
            then_run.push(Statement::InsertEvent(event));
            assert(then_run@ =~= seq![Statement::InsertEvent(event)]);
            Script {
                media_file_id,
                from: WorkflowStateTag::Probed,
                to: WorkflowStateTag::Analyzed,
                columns: Columns::Spec(spec),
                then_run,
            }
        },
        TranscodeDecision::Skip(reason) => transition(
            media_file_id,
            WorkflowStateTag::Probed,
            WorkflowStateTag::Skipped,
            MediaEvent::Skipped { reason: *reason, bpp: None, compression_potential: None },
        ),
        TranscodeDecision::SkipWithAnalysis { reason, bpp, compression_potential } => transition(
            media_file_id,
            WorkflowStateTag::Probed,
            WorkflowStateTag::Skipped,
            MediaEvent::Skipped {
                reason: *reason,
                bpp: Some(*bpp),
                compression_potential: Some(*compression_potential),
            },
        ),
    }
}

/// Whether columns hold what was probed.
pub open spec fn holds_probe(c: ProbeColumns, vp: VideoProperties) -> bool {
    &&& c.size_bytes == crate::store::mapping::signed_64(vp.size_bytes.bytes())
    &&& c.video_codec@ == crate::models::video::codec_name(vp.video_codec@)
    &&& c.height == crate::store::mapping::signed_32(vp.resolution.rows() as int)
    &&& c.width == crate::store::mapping::signed_32(vp.resolution.columns() as int)
    &&& match (vp.bitrate, c.bitrate_kbps) {
        (Some(b), Some(n)) => n == crate::store::mapping::signed_32(b.bps() as int),
        (None, None) => true,
        _ => false,
    }
    &&& match (vp.framerate, c.framerate) {
        (Some(f), Some(s)) => s@ == f.text(),
        (None, None) => true,
        _ => false,
    }
    &&& c.duration_seconds == (match vp.duration {
        Some(d) => Some(d.secs()),
        None => None,
    })
    &&& match (vp.dv_profile, c.dv_profile) {
        (Some(p), Some(n)) => n == p,
        (None, None) => true,
        _ => false,
    }
}

/// Whether a row of colour metadata holds what was probed.
pub open spec fn holds_color(row: ColorMetadataRow, c: crate::models::video::ColorMetadata) -> bool {
    &&& row.color_primaries == Some(c.color_primaries)
    &&& row.color_trc == Some(c.color_trc)
    &&& row.colorspace == Some(c.colorspace)
    &&& row.master_display == c.master_display
    &&& row.max_cll == c.max_cll
}

/// The columns for what was probed.
fn probe_columns(vp: &VideoProperties) -> (r: ProbeColumns)
    ensures
        holds_probe(r, *vp),
{
    let bitrate_kbps = match &vp.bitrate {
        Some(b) => Some(int_column(b.as_bps())),
        None => None,
    };
    let framerate = match &vp.framerate {
        Some(f) => Some(f.to_text()),
        None => None,
    };
    let duration_seconds = match &vp.duration {
        Some(d) => Some(d.as_secs()),
        None => None,
    };
    let dv_profile = match vp.dv_profile {
        Some(p) => Some(p as i16),
        None => None,
    };
    ProbeColumns {
        size_bytes: size_column(vp.size_bytes.as_u64()),
        video_codec: vp.video_codec.as_str().to_owned(),
        height: int_column(vp.resolution.height() as u64),
        width: int_column(vp.resolution.width() as u64),
        bitrate_kbps,
        framerate,
        duration_seconds,
        dv_profile,
    }
}

/// The script that stores what was probed of a discovered file: its
/// properties, its colour metadata where it has any, and that it was probed.
pub fn insert_probe_data(media_file_id: MediaFileId, video_properties: &VideoProperties) -> (r:
    Script)
    ensures
        r.media_file_id == media_file_id,
        r.from == WorkflowStateTag::Discovered,
        r.to == WorkflowStateTag::Probed,
        r.columns matches Columns::Probe(c) && holds_probe(c, *video_properties),
        match video_properties.color_metadata {
            Some(c) => r.then_run@.len() == 2 && (
            r.then_run@[0] matches Statement::UpsertColor(row) && holds_color(row, c))
                && r.then_run@[1] == Statement::InsertEvent(MediaEvent::Probed),
            None => r.then_run@ == seq![Statement::InsertEvent(MediaEvent::Probed)],
        },
        r.follows_workflow(),
{
    let mut then_run: Vec<Statement> = Vec::new();
    if let Some(c) = &video_properties.color_metadata {
        let row = ColorMetadataRow {
            color_primaries: Some(c.color_primaries.clone()),
            color_trc: Some(c.color_trc.clone()),
            colorspace: Some(c.colorspace.clone()),
            master_display: copy_text(&c.master_display),
            max_cll: copy_text(&c.max_cll),
        };
        then_run.push(Statement::UpsertColor(row));
    }
    let ghost before = then_run@;
    then_run.push(Statement::InsertEvent(MediaEvent::Probed));
    proof {
        reveal_with_fuel(events_in, 3);
        assert(then_run@.drop_last() =~= before);
        if before.len() > 0 {
            assert(before.drop_last() =~= Seq::<Statement>::empty());
        }
        assert(events_in(then_run@) =~= seq![crate::models::event::EventView::Probed]);
    }
    Script {
        media_file_id,
        from: WorkflowStateTag::Discovered,
        to: WorkflowStateTag::Probed,
        columns: Columns::Probe(probe_columns(video_properties)),
        then_run,
    }
}

/// The script that stores a completed transcode: the new file's path, size,
/// codec and bitrate, how much was gained, and where the original is kept.
pub fn complete_transcode(
    media_file_id: MediaFileId,
    new_path: &AbsoluteFilePath,
    new_size: SizeBytes,
    new_bitrate: Option<Bitrate>,
    original_size: SizeBytes,
    retention_path: &str,
) -> (r: Script)
    ensures
        r.media_file_id == media_file_id,
        r.from == WorkflowStateTag::Transcoding,
        r.to == WorkflowStateTag::Done,
        r.columns matches Columns::Completion(c) && c.file_path@ == new_path@ && c.size_bytes
            == crate::store::mapping::signed_64(new_size.bytes()) && c.video_codec@ == "hevc"@
            && match (new_bitrate, c.bitrate_kbps) {
            (Some(b), Some(n)) => n == crate::store::mapping::signed_32(b.bps() as int),
            (None, None) => true,
            _ => false,
        },
        r.then_run@.len() == 2,
        r.then_run@[0] == Statement::InsertEvent(
            MediaEvent::Transcoded {
                original_size: original_size.bytes(),
                new_size: new_size.bytes(),
            },
        ),
        r.then_run@[1] matches Statement::InsertRetention { retained_path, original_size_bytes }
            && retained_path@ == retention_path@ && original_size_bytes
            == crate::store::mapping::signed_64(original_size.bytes()),
        r.follows_workflow(),
{
    let bitrate_kbps = match &new_bitrate {
        Some(b) => Some(int_column(b.as_bps())),
        None => None,
    };
    let event = MediaEvent::Transcoded {
        original_size: original_size.as_u64(),
        new_size: new_size.as_u64(),
    };
    let mut then_run: Vec<Statement> = Vec::new();
    then_run.push(Statement::InsertEvent(event));
    let ghost first = then_run@;
    then_run.push(
        Statement::InsertRetention {
            retained_path: retention_path.to_owned(),
            original_size_bytes: size_column(original_size.as_u64()),
        },
    );
    proof {
        assert(then_run@.drop_last() =~= first);
        assert(first =~= seq![Statement::InsertEvent(event)]);
        lemma_one_event(event);
        assert(events_in(then_run@) == seq![event@]);
    }
    Script {
        media_file_id,
        from: WorkflowStateTag::Transcoding,
        to: WorkflowStateTag::Done,
        columns: Columns::Completion(
            CompletionColumns {
                file_path: new_path.as_path().to_owned(),
                size_bytes: size_column(new_size.as_u64()),
                video_codec: "hevc".to_owned(),
                bitrate_kbps,
            },
        ),
        then_run,
    }
}

/// What is recorded for a file that is taken up again.
pub open spec fn requeue_event() -> crate::models::event::EventView {
    crate::models::event::EventView::Discovered { source: "requeue"@ }
}

/// Whether a script takes a failed file up again from the start, and does
/// nothing else.
pub open spec fn is_requeue(s: Script, id: MediaFileId) -> bool {
    &&& s.media_file_id == id
    &&& s.from == WorkflowStateTag::Failed
    &&& s.to == WorkflowStateTag::Discovered
    &&& s.columns is StateOnly
    &&& s.events() == seq![requeue_event()]
    &&& s.then_run@.len() == 1
}

/// The script that takes a failed file up again from the start.
pub fn requeue(media_file_id: MediaFileId) -> (r: Script)
    ensures
        is_requeue(r, media_file_id),
{
    transition(
        media_file_id,
        WorkflowStateTag::Failed,
        WorkflowStateTag::Discovered,
        MediaEvent::Discovered { source: "requeue".to_owned() },
    )
}

/// A media file's state and the log of its events.
pub struct FileHistory {
    pub state: WorkflowStateTag,
    pub log: Seq<crate::models::event::EventView>,
}

/// A file's history after a script was run on it: a file in another state than
/// the script expects stays as it is.
pub open spec fn after_script(h: FileHistory, s: Script) -> FileHistory {
    if h.state == s.from {
        FileHistory { state: s.to, log: h.log + s.events() }
    } else {
        h
    }
}

/// The state that a log tells of: a file begins, or begins again, when it is
/// discovered, and every other event leads on from the state before it.
pub open spec fn replayed(log: Seq<crate::models::event::EventView>) -> Option<WorkflowStateTag>
    decreases log.len(),
{
    if log.len() == 0 {
        None
    } else if log.last() is Discovered {
        Some(WorkflowStateTag::Discovered)
    } else {
        match replayed(log.drop_last()) {
            Some(state) => state.successor(log.last()),
            None => None,
        }
    }
}

/// Whether a script takes a file up again from the start.
pub open spec fn starts_over(s: Script) -> bool {
    s.to == WorkflowStateTag::Discovered && s.events().len() == 1 && s.events()[0] is Discovered
}

/// A file's log tells its state: a script that follows the workflow, or takes
/// a file up again, keeps it so.
pub proof fn law_log_tells_state(h: FileHistory, s: Script)
    requires
        replayed(h.log) == Some(h.state),
        s.follows_workflow() || starts_over(s),
    ensures
        replayed(after_script(h, s).log) == Some(after_script(h, s).state),
{
    if h.state == s.from {
        let log = h.log + s.events();
        assert(log.last() == s.events()[0]);
        assert(log.drop_last() =~= h.log);
    }
}

/// A script that was run does nothing when it is run again, unless it leads
/// back to the state that it expects.
pub proof fn law_script_runs_once(h: FileHistory, s: Script)
    requires
        s.from != s.to,
    ensures
        after_script(after_script(h, s), s) == after_script(h, s),
{
}

/// Whether two sets of video properties are the same.
pub open spec fn same_video(a: VideoProperties, b: VideoProperties) -> bool {
    &&& a.video_codec@ == b.video_codec@
    &&& a.resolution.rows() == b.resolution.rows()
    &&& a.resolution.columns() == b.resolution.columns()
    &&& crate::models::video::bps_of(a.bitrate) == crate::models::video::bps_of(b.bitrate)
    &&& match (a.framerate, b.framerate) {
        (Some(x), Some(y)) => x.num() == y.num() && x.den() == y.den(),
        (None, None) => true,
        _ => false,
    }
    &&& a.size_bytes.bytes() == b.size_bytes.bytes()
    &&& match (a.duration, b.duration) {
        (Some(x), Some(y)) => x.secs() == y.secs(),
        (None, None) => true,
        _ => false,
    }
    &&& crate::store::mapping::color_view(a.color_metadata) == crate::store::mapping::color_view(
        b.color_metadata,
    )
    &&& a.dv_profile == b.dv_profile
}

/// Whether a media file's row holds the columns that a probe writes.
pub open spec fn row_holds(row: crate::store::mapping::MediaFileRow, c: ProbeColumns) -> bool {
    &&& row.size_bytes == Some(c.size_bytes)
    &&& row.video_codec == Some(c.video_codec)
    &&& row.height == Some(c.height)
    &&& row.width == Some(c.width)
    &&& row.bitrate_kbps == c.bitrate_kbps
    &&& row.framerate == c.framerate
    &&& row.duration_seconds == c.duration_seconds
    &&& row.dv_profile == c.dv_profile
}

/// Whether video properties hold what their types promise.
pub open spec fn valid_video(vp: VideoProperties) -> bool {
    &&& vp.size_bytes.bytes() > 0
    &&& vp.resolution.rows() > 0
    &&& vp.resolution.columns() > 0
    &&& vp.bitrate matches Some(b) ==> b.bps() > 0
    &&& vp.framerate matches Some(f) ==> f.den() > 0
    &&& vp.duration matches Some(d) ==> crate::models::video::is_duration(d.secs())
}

/// What a probe stored makes a valid row, and is what is read back of the file
/// together with the row of colour metadata that the probe wrote. Two things
/// are left out: a bitrate of 2 to the 31st or more, which its column cannot
/// hold, and a codec that was not read by its name, such as one that the probe
/// did not name, which comes back as an unknown one.
pub proof fn law_probe_reads_back(
    vp: VideoProperties,
    c: ProbeColumns,
    row: crate::store::mapping::MediaFileRow,
    color: Option<ColorMetadataRow>,
    read: VideoProperties,
)
    requires
        valid_video(vp),
        holds_probe(c, vp),
        row_holds(row, c),
        crate::models::common::is_absolute(row.file_path@),
        match (vp.color_metadata, color) {
            (Some(m), Some(r)) => holds_color(r, m),
            (None, None) => true,
            _ => false,
        },
        vp.video_codec@ == crate::models::video::codec_named(
            crate::models::video::codec_name(vp.video_codec@),
        ),
        vp.bitrate matches Some(b) ==> b.bps() < 0x8000_0000,
    ensures
        crate::store::mapping::row_fault(row) is None,
        crate::store::mapping::has_video(row),
        crate::store::mapping::is_video_of(read, row, color) ==> same_video(read, vp),
{
    if let Some(f) = vp.framerate {
        crate::models::video::law_framerate_round_trip(f);
    }
}

/// A script that only moves a file states the file, the two states and the one
/// event as they were given, and writes no other column. An update that
/// changed no row is told as a stale state, with the state that was expected.
pub proof fn law_plain_moves(
    id: MediaFileId,
    from: WorkflowStateTag,
    to: WorkflowStateTag,
    event: MediaEvent,
    r: Script,
    rows: u64,
    guard: Result<(), StoreError>,
)
    requires
        call_ensures(transition, (id, from, to, event), r),
        call_ensures(Script::check_guard, (&r, rows), guard),
    ensures
        r.media_file_id == id && r.from == from && r.to == to,
        r.columns is StateOnly,
        r.then_run@.len() == 1 && r.then_run@[0] == Statement::InsertEvent(event),
        guard is Ok <==> rows > 0,
        guard is Err ==> guard == Err::<(), StoreError>(StoreError::StaleState { expected: from }),
{
}

/// An event is applied exactly where it may happen in the file's state, and
/// leads to the state that it leads to; otherwise it is refused with that
/// state.
pub proof fn law_events_are_applied(
    id: MediaFileId,
    from: WorkflowStateTag,
    event: MediaEvent,
    next: Option<WorkflowStateTag>,
    r: Result<Script, StoreError>,
)
    requires
        call_ensures(WorkflowStateTag::next_on, (from, &event), next),
        call_ensures(apply_event, (id, from, event), r),
    ensures
        r is Ok <==> next is Some,
        r matches Ok(s) ==> s.media_file_id == id && s.from == from && Some(s.to) == next
            && s.columns is StateOnly && s.then_run@.len() == 1 && s.then_run@[0]
            == Statement::InsertEvent(event),
        r matches Err(e) ==> e == (StoreError::InvalidTransition { from }),
{
}

/// What is stored of a decision: a file that is to be encoded becomes analysed,
/// with its rate factor and what it was computed from; one that is not becomes
/// skipped, with the reason and, where they are known, the two measures. Only a
/// probed file is changed.
pub proof fn law_decisions_are_stored(
    id: MediaFileId,
    decision: TranscodeDecision,
    r: Script,
)
    requires
        call_ensures(save_analysis_result, (id, &decision), r),
    ensures
        r.media_file_id == id && r.from is Probed,
        r.then_run@.len() == 1 && r.then_run@[0] is InsertEvent,
        r.to is Analyzed <==> decision is Encode,
        r.to is Skipped <==> !(decision is Encode),
        r.columns is Spec <==> decision is Encode,
        r.columns is StateOnly <==> !(decision is Encode),
        match decision {
            TranscodeDecision::Encode { bpp, compression_potential, crf, estimated_saving_ratio } =>
                {
                let spec = r.columns->Spec_0@;
                &&& r.then_run@[0] == Statement::InsertEvent(
                    MediaEvent::Analyzed { bpp, compression_potential, crf },
                )
                &&& spec.len() == 4
                &&& spec[0].name@ == "crf"@ && spec[0].value == Written::Count(crf as u64)
                &&& spec[1].name@ == "bpp"@ && spec[1].value == Written::Number(bpp)
                &&& spec[2].name@ == "compression_potential"@ && spec[2].value
                    == Written::Number(compression_potential)
                &&& spec[3].name@ == "estimated_saving_ratio"@ && spec[3].value
                    == Written::Number(estimated_saving_ratio)
            },
            TranscodeDecision::Skip(reason) => r.then_run@[0] == Statement::InsertEvent(
                MediaEvent::Skipped { reason, bpp: None, compression_potential: None },
            ),
            TranscodeDecision::SkipWithAnalysis { reason, bpp, compression_potential } =>
                r.then_run@[0] == Statement::InsertEvent(
                MediaEvent::Skipped {
                    reason,
                    bpp: Some(bpp),
                    compression_potential: Some(compression_potential),
                },
            ),
        },
{
    if let TranscodeDecision::Encode { bpp, compression_potential, crf, estimated_saving_ratio } =
        decision {
        let spec = r.columns->Spec_0@;
        let m = crate::record::members(spec);
        let w = spec_members(bpp, compression_potential, crf, estimated_saving_ratio);
        assert(m == w);
        assert(w.len() == 4 && m.len() == spec.len());
        assert(m[0] == (spec[0].name@, spec[0].value@));
        assert(m[1] == (spec[1].name@, spec[1].value@));
        assert(m[2] == (spec[2].name@, spec[2].value@));
        assert(m[3] == (spec[3].name@, spec[3].value@));
    }
}

/// What is stored of a probe: each property in its own column, as a signed
/// number of the same bits, the colours where there are any, and that the file
/// was probed. Only a discovered file is changed.
pub proof fn law_probes_are_stored(
    id: MediaFileId,
    vp: VideoProperties,
    r: Script,
    codec: &str,
    rate: String,
)
    requires
        call_ensures(insert_probe_data, (id, &vp), r),
        call_ensures(crate::models::video::VideoCodec::as_str, (&vp.video_codec,), codec),
        vp.framerate matches Some(f) ==> call_ensures(
            crate::models::video::Framerate::to_text,
            (&f,),
            rate,
        ),
    ensures
        r.media_file_id == id && r.from is Discovered && r.to is Probed,
        r.columns is Probe,
        ({
            let c = r.columns->Probe_0;
            &&& c.size_bytes == vp.size_bytes.bytes() || c.size_bytes == vp.size_bytes.bytes()
                - 0x1_0000_0000_0000_0000
            &&& c.video_codec@ == codec@
            &&& (vp.resolution.rows() - c.height) % 0x1_0000_0000 == 0
            &&& (vp.resolution.columns() - c.width) % 0x1_0000_0000 == 0
            &&& c.bitrate_kbps is Some <==> vp.bitrate is Some
            &&& c.bitrate_kbps is Some ==> (vp.bitrate->0.bps() - c.bitrate_kbps->0)
                % 0x1_0000_0000 == 0
            &&& c.framerate is Some <==> vp.framerate is Some
            &&& c.framerate is Some ==> c.framerate->0@ == rate@
            &&& c.duration_seconds is Some <==> vp.duration is Some
            &&& c.duration_seconds is Some ==> c.duration_seconds->0 == vp.duration->0.secs()
            &&& c.dv_profile is Some <==> vp.dv_profile is Some
            &&& c.dv_profile is Some ==> c.dv_profile->0 == vp.dv_profile->0
        }),
        r.then_run@.len() == (if vp.color_metadata is Some {
            2int
        } else {
            1
        }),
        r.then_run@.last() == Statement::InsertEvent(MediaEvent::Probed),
        vp.color_metadata matches Some(c) ==> (r.then_run@[0] matches Statement::UpsertColor(row)
            && row.color_primaries == Some(c.color_primaries) && row.color_trc == Some(c.color_trc)
            && row.colorspace == Some(c.colorspace) && row.master_display == c.master_display
            && row.max_cll == c.max_cll),
{
    let (h, w) = (vp.resolution.rows() as int, vp.resolution.columns() as int);
    lemma_low_bits(h);
    lemma_low_bits(w);
    if let Some(b) = vp.bitrate {
        lemma_low_bits(b.bps() as int);
    }
}

/// A number and what a column of 32 bits holds of it differ by a multiple of 2
/// to the 32nd.
proof fn lemma_low_bits(n: int)
    ensures
        (n - crate::store::mapping::signed_32(n)) % 0x1_0000_0000 == 0,
{
    assert((n - n % 0x1_0000_0000) % 0x1_0000_0000 == 0) by (nonlinear_arith);
    assert((n - (n % 0x1_0000_0000 - 0x1_0000_0000)) % 0x1_0000_0000 == 0) by (nonlinear_arith);
}

/// What is stored of a completed transcode: the new file's path, size and
/// bitrate, that it is HEVC, both sizes in the log, and where the original is
/// kept and how large it is. Only a file that is being transcoded is changed.
pub proof fn law_completions_are_stored(
    id: MediaFileId,
    path: AbsoluteFilePath,
    new_size: SizeBytes,
    bitrate: Option<Bitrate>,
    original_size: SizeBytes,
    retention: &str,
    r: Script,
)
    requires
        call_ensures(
            complete_transcode,
            (id, &path, new_size, bitrate, original_size, retention),
            r,
        ),
    ensures
        r.media_file_id == id && r.from is Transcoding && r.to is Done,
        r.columns matches Columns::Completion(c) && c.file_path@ == path@ && c.video_codec@
            == "hevc"@ && (c.size_bytes == new_size.bytes() || c.size_bytes == new_size.bytes()
            - 0x1_0000_0000_0000_0000) && (c.bitrate_kbps is Some <==> bitrate is Some) && (
        c.bitrate_kbps is Some ==> (bitrate->0.bps() - c.bitrate_kbps->0) % 0x1_0000_0000 == 0),
        r.then_run@.len() == 2,
        r.then_run@[0] == Statement::InsertEvent(
            MediaEvent::Transcoded {
                original_size: original_size.bytes(),
                new_size: new_size.bytes(),
            },
        ),
        r.then_run@[1] matches Statement::InsertRetention { retained_path, original_size_bytes }
            && retained_path@ == retention@ && (original_size_bytes == original_size.bytes()
            || original_size_bytes == original_size.bytes() - 0x1_0000_0000_0000_0000),
{
    if let Some(b) = bitrate {
        lemma_low_bits(b.bps() as int);
    }
}

/// A failed file that is taken up again is discovered once more, and what is
/// recorded is that it was requeued.
pub proof fn law_requeued_files_are_discovered(id: MediaFileId, r: Script)
    requires
        call_ensures(requeue, (id,), r),
    ensures
        r.media_file_id == id && r.from is Failed && r.to is Discovered,
        r.columns is StateOnly,
        r.then_run@.len() == 1,
        r.then_run@[0] matches Statement::InsertEvent(MediaEvent::Discovered { source })
            && source@ == "requeue"@,
{
    reveal_with_fuel(events_in, 2);
    let s = r.then_run@;
    assert(s.drop_last() =~= Seq::<Statement>::empty());
    assert(s.last() == s[0]);
    let e = events_in(s);
    assert(e.len() == 1);
    assert(e[0] == requeue_event());
}

} // verus!
