use std::collections::HashMap;

use rankoder::binary::{Binary32, Binary64};
use rankoder::models::batch::BatchKey;
use rankoder::models::common::{AbsoluteFilePath, EpisodeNumber, Rating, SeasonNumber, TmdbId};
use rankoder::models::drafts::{EpisodeDraft, MediaFileDraft, MovieDraft, Provider, SeriesDraft};
use rankoder::models::error::DomainError;
use rankoder::models::event::MediaEvent;
use rankoder::models::library::{EpisodeId, MediaFileId, MovieId, SeriesId};
use rankoder::models::media_file::SizeBytes;
use rankoder::models::transcode::{SkipReason, TranscodeDecision};
use rankoder::models::video::{
    Bitrate, ColorMetadata, DurationSecs, Framerate, Resolution, VideoCodec, VideoProperties,
};
use rankoder::models::workflow::WorkflowStateTag;
use rankoder::record::{read_count, Member, ReadMember, Reading, Written};
use rankoder::store::batches::{
    batch_key, batch_request_info, transition_batch, BatchCommit, BatchKeyRow, BatchSums,
};
use rankoder::store::error::StoreError;
use rankoder::store::failure::{
    failure_breakdown, requeue_failed, FailedFile, FailureBreakdownRow, FailureClass,
};
use rankoder::store::mapping::{
    int_column, media_file_from_row, size_column, ColorMetadataRow, MediaFileRow,
};
use rankoder::store::script::{
    apply_event, complete_transcode, insert_probe_data, requeue, save_analysis_result, transition,
    Columns, Script, Statement,
};
use rankoder::store::search::{
    episode_key, find_or_create_episode, find_or_create_movie, find_or_create_series, upsert_event,
    EpisodeStep, ItemSearch, NewItem, SearchEvent, SearchStep,
};
use rankoder::transcode::error::TranscodeError;

fn b64(x: f64) -> Binary64 {
    Binary64 { bits: x.to_bits() }
}

const ID: MediaFileId = MediaFileId(42);

fn events(script: &Script) -> Vec<&MediaEvent> {
    script
        .then_run
        .iter()
        .filter_map(|s| match s {
            Statement::InsertEvent(e) => Some(e),
            _ => None,
        })
        .collect()
}

// ---- rows ------------------------------------------------------------------

fn row() -> MediaFileRow {
    MediaFileRow {
        id: 42,
        workflow_state: WorkflowStateTag::Probed,
        episode_id: None,
        movie_id: Some(7),
        file_path: "/lib/movie.mkv".into(),
        size_bytes: Some(1000),
        video_codec: Some("h264".into()),
        height: Some(1080),
        width: Some(1920),
        bitrate_kbps: Some(5_000_000),
        framerate: Some("24000/1001".into()),
        duration_seconds: Some(b64(3600.0)),
        dv_profile: Some(5),
        transcode_spec: Some(vec![ReadMember {
            name: "crf".into(),
            value: Reading::Number { count: Some(24), number: b64(24.0) },
        }]),
    }
}

fn color_row() -> ColorMetadataRow {
    ColorMetadataRow {
        color_primaries: Some("bt2020".into()),
        color_trc: Some("smpte2084".into()),
        colorspace: Some("bt2020nc".into()),
        master_display: Some("G(1,2)".into()),
        max_cll: None,
    }
}

#[test]
fn row_becomes_a_media_file() {
    let file = media_file_from_row(row(), Some(color_row())).unwrap();
    assert_eq!(file.id, ID);
    assert_eq!(file.movie_id, Some(MovieId(7)));
    assert_eq!(file.episode_id, None);
    assert_eq!(file.path.as_path(), "/lib/movie.mkv");
    assert_eq!(read_count(&file.transcode_spec.unwrap(), "crf"), Some(24));
    assert_eq!(file.workflow_state, WorkflowStateTag::Probed);
    let vp = file.video_properties.unwrap();
    assert!(matches!(vp.video_codec, VideoCodec::H264));
    assert_eq!((vp.resolution.height(), vp.resolution.width()), (1080, 1920));
    assert_eq!(vp.bitrate.unwrap().as_bps(), 5_000_000);
    assert_eq!(vp.framerate.unwrap().parts(), (24000, 1001));
    assert_eq!(vp.size_bytes.as_u64(), 1000);
    assert_eq!(vp.duration.unwrap().as_secs(), b64(3600.0));
    assert_eq!(vp.dv_profile, Some(5));
    let color = vp.color_metadata.unwrap();
    assert_eq!(color.color_primaries, "bt2020");
    assert_eq!(color.master_display.as_deref(), Some("G(1,2)"));
    assert_eq!(color.max_cll, None);
}

#[test]
fn row_without_probe_data() {
    for column in 0..4 {
        let mut r = row();
        match column {
            0 => r.video_codec = None,
            1 => r.height = None,
            2 => r.width = None,
            _ => r.size_bytes = None,
        }
        assert!(media_file_from_row(r, None).unwrap().video_properties.is_none());
    }
    let mut color = color_row();
    color.color_trc = None;
    let mut r = row();
    r.duration_seconds = Some(b64(0.0));
    let vp = media_file_from_row(r, Some(color)).unwrap().video_properties.unwrap();
    assert!(vp.color_metadata.is_none());
    assert!(vp.duration.is_none());
}

#[test]
fn invalid_rows() {
    let error = |change: fn(&mut MediaFileRow)| {
        let mut r = row();
        change(&mut r);
        media_file_from_row(r, None).unwrap_err()
    };
    assert!(matches!(
        error(|r| r.file_path = "movie.mkv".into()),
        DomainError::InvalidPath(p) if p == "movie.mkv"
    ));
    assert!(matches!(error(|r| r.size_bytes = Some(0)), DomainError::InvalidSizeBytes));
    assert!(matches!(error(|r| r.height = Some(0)), DomainError::InvalidResolution));
    assert!(matches!(error(|r| r.bitrate_kbps = Some(0)), DomainError::InvalidBitrate));
    assert!(matches!(error(|r| r.framerate = Some("24".into())), DomainError::InvalidFramerate));
}

#[test]
fn columns_hold_the_bits() {
    for n in [0, 1, 0x7fff_ffff, 0x8000_0000, 0xffff_ffff, u64::MAX / 2, u64::MAX / 2 + 1, u64::MAX] {
        assert_eq!(size_column(n), n as i64);
        assert_eq!(int_column(n), n as i32);
    }
    let mut r = row();
    r.size_bytes = Some(-1);
    r.bitrate_kbps = Some(-1);
    r.height = Some(-1);
    r.dv_profile = Some(-1);
    let vp = media_file_from_row(r, None).unwrap().video_properties.unwrap();
    assert_eq!(vp.size_bytes.as_u64(), -1i64 as u64);
    assert_eq!(vp.bitrate.unwrap().as_bps(), -1i32 as u64);
    assert_eq!(vp.resolution.height(), -1i32 as u32);
    assert_eq!(vp.dv_profile, Some(-1i16 as u8));
}

// ---- scripts ---------------------------------------------------------------

#[test]
fn transition_is_guarded_and_recorded() {
    let script = transition(
        ID,
        WorkflowStateTag::Failed,
        WorkflowStateTag::Discovered,
        MediaEvent::Discovered { source: "requeue".into() },
    );
    assert_eq!(script.media_file_id, ID);
    assert_eq!(script.from, WorkflowStateTag::Failed);
    assert_eq!(script.to, WorkflowStateTag::Discovered);
    assert!(matches!(script.columns, Columns::StateOnly));
    assert_eq!(events(&script), vec![&MediaEvent::Discovered { source: "requeue".into() }]);
    assert!(script.check_guard(1).is_ok());
    assert!(matches!(
        script.check_guard(0),
        Err(StoreError::StaleState { expected: WorkflowStateTag::Failed })
    ));
    let again = requeue(ID);
    assert_eq!(again.to, WorkflowStateTag::Discovered);
    assert_eq!(events(&again), events(&script));
}

#[test]
fn events_lead_to_the_prescribed_state() {
    let script = apply_event(ID, WorkflowStateTag::Analyzed, MediaEvent::PendingApproval).unwrap();
    assert_eq!(script.to, WorkflowStateTag::PendingApproval);
    assert!(matches!(
        apply_event(ID, WorkflowStateTag::Done, MediaEvent::Probed),
        Err(StoreError::InvalidTransition { from: WorkflowStateTag::Done })
    ));
}

#[test]
fn decisions_are_stored() {
    let script = save_analysis_result(
        ID,
        &TranscodeDecision::Encode {
            bpp: b64(0.2),
            compression_potential: b64(2.4),
            crf: 21,
            estimated_saving_ratio: b64(0.8),
        },
    );
    assert_eq!(script.from, WorkflowStateTag::Probed);
    assert_eq!(script.to, WorkflowStateTag::Analyzed);
    match &script.columns {
        Columns::Spec(members) => {
            let names: Vec<&str> = members.iter().map(|m| m.name.as_str()).collect();
            assert_eq!(
                names,
                vec!["crf", "bpp", "compression_potential", "estimated_saving_ratio"]
            );
            assert!(matches!(members[0], Member { value: Written::Count(21), .. }));
            assert!(matches!(&members[3].value, Written::Number(x) if *x == b64(0.8)));
        }
        other => panic!("{other:?}"),
    }
    assert_eq!(
        events(&script),
        vec![&MediaEvent::Analyzed { bpp: b64(0.2), compression_potential: b64(2.4), crf: 21 }]
    );

    let script = save_analysis_result(ID, &TranscodeDecision::Skip(SkipReason::FileTooSmall));
    assert_eq!(script.to, WorkflowStateTag::Skipped);
    assert_eq!(
        events(&script),
        vec![&MediaEvent::Skipped {
            reason: SkipReason::FileTooSmall,
            bpp: None,
            compression_potential: None
        }]
    );

    let script = save_analysis_result(
        ID,
        &TranscodeDecision::SkipWithAnalysis {
            reason: SkipReason::InsufficientCompressionPotential,
            bpp: b64(0.05),
            compression_potential: b64(0.1),
        },
    );
    assert_eq!(
        events(&script),
        vec![&MediaEvent::Skipped {
            reason: SkipReason::InsufficientCompressionPotential,
            bpp: Some(b64(0.05)),
            compression_potential: Some(b64(0.1))
        }]
    );
}

fn probed(color: Option<ColorMetadata>) -> VideoProperties {
    VideoProperties {
        video_codec: VideoCodec::Unknown("vp9".into()),
        resolution: Resolution::new(2160, 3840).unwrap(),
        bitrate: Some(Bitrate::new(25_000_000).unwrap()),
        framerate: Some(Framerate::new(24000, 1001).unwrap()),
        size_bytes: SizeBytes::new(50_000_000_000).unwrap(),
        duration: Some(DurationSecs::new(b64(3600.5)).unwrap()),
        color_metadata: color,
        dv_profile: Some(8),
    }
}

#[test]
fn probe_reads_back() {
    let color = ColorMetadata {
        color_primaries: "bt2020".into(),
        color_trc: "smpte2084".into(),
        colorspace: "bt2020nc".into(),
        master_display: None,
        max_cll: Some("1000,400".into()),
    };
    let mut script = insert_probe_data(ID, &probed(Some(color)));
    assert_eq!(script.from, WorkflowStateTag::Discovered);
    assert_eq!(script.to, WorkflowStateTag::Probed);
    assert_eq!(events(&script), vec![&MediaEvent::Probed]);
    assert_eq!(script.then_run.len(), 2);
    let color = match script.then_run.remove(0) {
        Statement::UpsertColor(row) => row,
        other => panic!("{other:?}"),
    };
    let c = match script.columns {
        Columns::Probe(c) => c,
        other => panic!("{other:?}"),
    };
    assert_eq!(c.framerate.as_deref(), Some("24000/1001"));
    let row = MediaFileRow {
        size_bytes: Some(c.size_bytes),
        video_codec: Some(c.video_codec),
        height: Some(c.height),
        width: Some(c.width),
        bitrate_kbps: c.bitrate_kbps,
        framerate: c.framerate,
        duration_seconds: c.duration_seconds,
        dv_profile: c.dv_profile,
        ..row()
    };
    let read = media_file_from_row(row, Some(color)).unwrap().video_properties.unwrap();
    assert!(matches!(read.video_codec, VideoCodec::Unknown(n) if n == "vp9"));
    assert_eq!(read.resolution.pixel_count(), 2160 * 3840);
    assert_eq!(read.bitrate.unwrap().as_bps(), 25_000_000);
    assert_eq!(read.framerate.unwrap().parts(), (24000, 1001));
    assert_eq!(read.size_bytes.as_u64(), 50_000_000_000);
    assert_eq!(read.duration.unwrap().as_secs(), b64(3600.5));
    assert_eq!(read.color_metadata.unwrap().max_cll.as_deref(), Some("1000,400"));
    assert_eq!(read.dv_profile, Some(8));

    assert_eq!(insert_probe_data(ID, &probed(None)).then_run.len(), 1);
}

#[test]
fn completion_is_stored() {
    let script = complete_transcode(
        ID,
        &AbsoluteFilePath::new("/lib/movie.mkv").unwrap(),
        SizeBytes::new(2_000_000).unwrap(),
        Some(Bitrate::new(900).unwrap()),
        SizeBytes::new(5_000_000).unwrap(),
        "/retention/x",
    );
    assert_eq!(script.from, WorkflowStateTag::Transcoding);
    assert_eq!(script.to, WorkflowStateTag::Done);
    match &script.columns {
        Columns::Completion(c) => {
            assert_eq!(c.file_path, "/lib/movie.mkv");
            assert_eq!(c.size_bytes, 2_000_000);
            assert_eq!(c.video_codec, "hevc");
            assert_eq!(c.bitrate_kbps, Some(900));
        }
        other => panic!("{other:?}"),
    }
    assert_eq!(
        events(&script),
        vec![&MediaEvent::Transcoded { original_size: 5_000_000, new_size: 2_000_000 }]
    );
    assert!(matches!(
        &script.then_run[1],
        Statement::InsertRetention { retained_path, original_size_bytes: 5_000_000 }
            if retained_path == "/retention/x"
    ));
}

/// A file's state and the events that were recorded for it.
fn run(state: &mut WorkflowStateTag, log: &mut Vec<MediaEvent>, script: &Script) -> bool {
    let rows = u64::from(*state == script.from);
    if script.check_guard(rows).is_err() {
        return false;
    }
    *state = script.to;
    log.extend(events(script).into_iter().cloned());
    true
}

#[test]
fn log_tells_the_state() {
    let mut state = WorkflowStateTag::Discovered;
    let mut log = vec![MediaEvent::Discovered { source: "jellyfin".into() }];
    let scripts = [
        insert_probe_data(ID, &probed(None)),
        insert_probe_data(ID, &probed(None)),
        save_analysis_result(
            ID,
            &TranscodeDecision::Encode {
                bpp: b64(0.2),
                compression_potential: b64(2.4),
                crf: 21,
                estimated_saving_ratio: b64(0.8),
            },
        ),
        apply_event(ID, WorkflowStateTag::Analyzed, MediaEvent::PendingApproval).unwrap(),
        apply_event(ID, WorkflowStateTag::PendingApproval, MediaEvent::ApprovalGranted).unwrap(),
        apply_event(
            ID,
            WorkflowStateTag::Transcoding,
            MediaEvent::TranscodeFailed { error: "x".into() },
        )
        .unwrap(),
        requeue(ID),
        requeue(ID),
    ];
    let ran: Vec<bool> = scripts.iter().map(|s| run(&mut state, &mut log, s)).collect();
    assert_eq!(ran, vec![true, false, true, true, true, true, true, false]);
    let mut told = None;
    for event in &log {
        told = match (told, event) {
            (_, MediaEvent::Discovered { .. }) => Some(WorkflowStateTag::Discovered),
            (Some(s), e) => WorkflowStateTag::next_on(s, e),
            (None, _) => None,
        };
    }
    assert_eq!(told, Some(state));
    assert_eq!(state, WorkflowStateTag::Discovered);
}

// ---- searches --------------------------------------------------------------

/// Stored items and references in memory.
#[derive(Default)]
struct Catalog {
    items: HashMap<u128, NewItem>,
    refs: HashMap<String, u128>,
}

impl Catalog {
    fn run(&mut self, mut search: ItemSearch) -> u128 {
        loop {
            let event = match search.step() {
                SearchStep::SelectByTmdb(id) => SearchEvent::Selected(
                    self.items.values().find(|i| i.tmdb_id == Some(id)).map(|i| i.id),
                ),
                SearchStep::SelectByRef => {
                    SearchEvent::Selected(self.refs.get(&search.external_id).copied())
                }
                SearchStep::InsertItem(item) => {
                    self.items.insert(item.id, item);
                    SearchEvent::Written
                }
                SearchStep::InsertRef { id, keep_existing } => {
                    if !keep_existing {
                        assert!(!self.refs.contains_key(&search.external_id));
                    }
                    self.refs.entry(search.external_id.clone()).or_insert(id);
                    SearchEvent::Written
                }
                SearchStep::Done(id) => return id,
            };
            search.advance(event);
        }
    }
}

fn movie(tmdb: Option<i32>, jellyfin_id: &str) -> MovieDraft {
    MovieDraft {
        title: "t".into(),
        tmdb_id: tmdb.map(|t| TmdbId::new(t).unwrap()),
        rating: Some(Rating::new(Binary32 { bits: 7.5f32.to_bits() }).unwrap()),
        jellyfin_id: jellyfin_id.into(),
        media_file: MediaFileDraft {
            jellyfin_id: jellyfin_id.into(),
            path: AbsoluteFilePath::new("/m.mkv").unwrap(),
            size_bytes: None,
        },
        provider: Provider::Jellyfin,
    }
}

#[test]
fn drafts_are_stored_once() {
    let mut catalog = Catalog::default();
    let a = catalog.run(find_or_create_movie(&movie(Some(603), "j1")));
    assert_eq!(catalog.run(find_or_create_movie(&movie(Some(603), "j1"))), a);
    assert_eq!(catalog.run(find_or_create_movie(&movie(Some(603), "j2"))), a, "by its number");
    assert_eq!(catalog.run(find_or_create_movie(&movie(None, "j2"))), a, "by the reference");
    assert_eq!(catalog.run(find_or_create_movie(&movie(Some(604), "j2"))), a);
    let b = catalog.run(find_or_create_movie(&movie(None, "j3")));
    assert_ne!(a, b);
    assert_eq!(catalog.items.len(), 2);
    assert_eq!(catalog.refs.len(), 3);
    let series = SeriesDraft {
        title: "s".into(),
        tmdb_id: None,
        tvdb_id: None,
        rating: None,
        jellyfin_id: "j3".into(),
        provider: Provider::Jellyfin,
    };
    assert_eq!(catalog.run(find_or_create_series(&series)), b);
}

#[test]
fn new_items_are_stored_as_drafted_and_stay() {
    let mut catalog = Catalog::default();
    let id = catalog.run(find_or_create_movie(&movie(Some(603), "j1")));
    let mut again = movie(Some(603), "j1");
    again.title = "another".into();
    again.rating = None;
    assert_eq!(catalog.run(find_or_create_movie(&again)), id);
    let item = &catalog.items[&id];
    assert_eq!(item.title, "t");
    assert_eq!(item.tmdb_id.map(|t| t.as_i32()), Some(603));
    assert_eq!(item.rating.unwrap().as_binary(), Binary32 { bits: 7.5f32.to_bits() });
    assert_eq!(item.tvdb_id, None);
    let series = SeriesDraft {
        title: "s".into(),
        tmdb_id: None,
        tvdb_id: Some(121361),
        rating: None,
        jellyfin_id: "j9".into(),
        provider: Provider::Jellyfin,
    };
    let id = catalog.run(find_or_create_series(&series));
    let item = &catalog.items[&id];
    assert_eq!((item.title.as_str(), item.tvdb_id, item.rating), ("s", Some(121361), None));
    assert_eq!(catalog.refs["j9"], id);
}

#[test]
fn search_ignores_what_was_not_asked_for() {
    let mut search = find_or_create_movie(&movie(Some(603), "j1"));
    search.advance(SearchEvent::Written);
    assert!(matches!(search.step(), SearchStep::SelectByTmdb(t) if t.as_i32() == 603));
}

#[test]
fn episodes_are_looked_for_by_number() {
    let draft = EpisodeDraft {
        title: "e".into(),
        series_id: SeriesId(9),
        season_number: SeasonNumber::new(2).unwrap(),
        episode_number: EpisodeNumber::new(40_000).unwrap(),
        tmdb_id: None,
        rating: None,
        provider: Provider::Jellyfin,
        media_file: movie(None, "x").media_file,
    };
    assert_eq!(episode_key(&draft), (SeriesId(9), 2, 40_000u32 as i16));
    let (old, fresh) = (EpisodeId(1), EpisodeId(2));
    assert!(matches!(
        find_or_create_episode(&draft, Some(old), fresh),
        EpisodeStep::Use(id) if id == old
    ));
    match find_or_create_episode(&draft, None, fresh) {
        EpisodeStep::Insert(e) => {
            assert_eq!(e.id, fresh);
            assert_eq!((e.series_id, e.season_number, e.episode_number), episode_key(&draft));
            assert_eq!(e.title, "e");
            assert_eq!((e.tmdb_id, e.rating), (None, None));
        }
        other => panic!("{other:?}"),
    }
    assert_eq!(
        upsert_event(true, Provider::Jellyfin),
        Some(MediaEvent::Discovered { source: "jellyfin".into() })
    );
    assert_eq!(upsert_event(false, Provider::Jellyfin), None);
}

// ---- failures --------------------------------------------------------------

const CLASSES: [FailureClass; 6] = [
    FailureClass::MissingVideoProperties,
    FailureClass::SwapPermission,
    FailureClass::SwapReadOnly,
    FailureClass::SwapCrossDevice,
    FailureClass::Ffmpeg,
    FailureClass::Other,
];

#[test]
fn failures_are_classified() {
    let class = FailureClass::classify;
    assert_eq!(
        class("video properties missing for media file"),
        FailureClass::MissingVideoProperties
    );
    assert_eq!(
        class("swap failed: Permission denied (os error 13)"),
        FailureClass::SwapPermission
    );
    assert_eq!(
        class("swap failed: Read-only file system (os error 30)"),
        FailureClass::SwapReadOnly
    );
    assert_eq!(
        class("swap failed: Invalid cross-device link (os error 18)"),
        FailureClass::SwapCrossDevice
    );
    assert_eq!(class("ffmpeg failed with exit code 1: x"), FailureClass::Ffmpeg);
    assert_eq!(class("ffmpeg failed: Permission denied"), FailureClass::SwapPermission);
    assert_eq!(class(""), FailureClass::Other);
    assert_eq!(class("permission denied"), FailureClass::Other);
}

#[test]
fn recorded_texts_tell_the_class() {
    let class = |e: TranscodeError| FailureClass::classify(&e.message(""));
    assert_eq!(class(TranscodeError::MissingVideoProperties), FailureClass::MissingVideoProperties);
    for (text, expected) in [
        ("Permission denied (os error 13)", FailureClass::SwapPermission),
        ("Read-only file system (os error 30)", FailureClass::SwapReadOnly),
        ("Invalid cross-device link (os error 18)", FailureClass::SwapCrossDevice),
    ] {
        assert_eq!(class(TranscodeError::SwapFailed(text.into())), expected);
    }
    for exit_code in [None, Some(1), Some(-9)] {
        let e = TranscodeError::FfmpegFailed { exit_code, stderr: "Invalid data".into() };
        assert_eq!(class(e), FailureClass::Ffmpeg);
    }
}

#[test]
fn failure_class_names() {
    for class in CLASSES {
        assert_eq!(FailureClass::from_key(class.key()), Some(class));
        assert_eq!(class.auto_requeueable(), class == FailureClass::MissingVideoProperties);
    }
    assert_eq!(FailureClass::from_key("nothing"), None);
    assert_eq!(FailureClass::SwapReadOnly.key(), "swap_read_only");
    assert_eq!(FailureClass::SwapReadOnly.label(), "swap: read-only filesystem");
    assert_eq!(FailureClass::MissingVideoProperties.label(), "missing video properties");
    assert_eq!(FailureClass::SwapPermission.label(), "swap: permission denied");
    assert_eq!(FailureClass::SwapCrossDevice.label(), "swap: cross-device link");
    assert_eq!(FailureClass::Ffmpeg.label(), "ffmpeg encode failed");
    assert_eq!(FailureClass::Other.label(), "other");
}

#[test]
fn failures_are_counted() {
    let errors = ["x", "ffmpeg failed", "Permission denied", "ffmpeg failed: y"];
    let mut errors: Vec<Option<String>> = errors.iter().map(|e| Some(e.to_string())).collect();
    errors.push(None);
    errors.push(Some("ffmpeg failed with exit code 2".into()));
    assert_eq!(
        failure_breakdown(&errors),
        vec![
            FailureBreakdownRow { class: FailureClass::Ffmpeg, count: 3 },
            FailureBreakdownRow { class: FailureClass::Other, count: 2 },
            FailureBreakdownRow { class: FailureClass::SwapPermission, count: 1 },
        ]
    );
    assert!(failure_breakdown(&Vec::new()).is_empty());
}

fn failed(id: u128, error: &str) -> FailedFile {
    FailedFile { id: MediaFileId(id), error: Some(error.into()) }
}

#[test]
fn requeue_failed_moves_only_matching_class() {
    let rows = vec![
        failed(1, "swap failed: Permission denied (os error 13)"),
        failed(2, "video properties missing for media file"),
    ];
    let mut states =
        HashMap::from([(1, WorkflowStateTag::Failed), (2, WorkflowStateTag::Failed)]);
    let mut requeue_class = |rows: &Vec<FailedFile>| {
        let mut run = requeue_failed(rows, FailureClass::SwapPermission);
        while let Some(id) = run.step() {
            let script = requeue(id);
            let state = states.get_mut(&id.as_uuid()).unwrap();
            let result = script.check_guard(u64::from(*state == script.from));
            if result.is_ok() {
                *state = script.to;
            }
            run.advance(result);
        }
        assert!(run.failed.is_none());
        run.moved
    };
    assert_eq!(requeue_class(&rows), vec![MediaFileId(1)]);
    assert!(requeue_class(&rows).is_empty(), "moved already");
    assert_eq!(states[&1], WorkflowStateTag::Discovered);
    assert_eq!(states[&2], WorkflowStateTag::Failed);
}

#[test]
fn requeue_takes_every_file_of_the_class_once() {
    let rows = vec![
        failed(3, "ffmpeg failed: x"),
        failed(1, "swap failed: Permission denied (os error 13)"),
        failed(2, "ffmpeg failed with exit code 1: y"),
    ];
    let run = requeue_failed(&rows, FailureClass::Ffmpeg);
    assert_eq!(run.ids, vec![MediaFileId(3), MediaFileId(2)]);
    // Only the file of the other class still counts as failed.
    let again = requeue_failed(&vec![failed(1, "Permission denied")], FailureClass::Ffmpeg);
    assert!(again.ids.is_empty());
    assert_eq!(again.step(), None);
}

#[test]
fn requeue_ends_at_an_error() {
    let rows = vec![failed(1, "x"), failed(2, "y"), failed(3, "z")];
    let mut run = requeue_failed(&rows, FailureClass::Other);
    run.advance(Ok(()));
    run.advance(Err(StoreError::Database("gone".into())));
    assert_eq!(run.step(), None);
    run.advance(Ok(()));
    assert_eq!(run.moved, vec![MediaFileId(1)]);
    assert!(matches!(run.failed, Some(StoreError::Database(e)) if e == "gone"));
}

// ---- batches ---------------------------------------------------------------

fn key_row(kind: Option<&str>) -> BatchKeyRow {
    BatchKeyRow {
        kind: kind.map(|k| k.to_string()),
        series_id: Some(1),
        season: Some(2),
        movie_id: Some(3),
    }
}

#[test]
fn batches_are_named() {
    let season = BatchKey::Season { series_id: SeriesId(1), season: 2 };
    let movie = BatchKey::Movie { movie_id: MovieId(3) };
    assert_eq!(batch_key(&key_row(Some("season"))), Some(season));
    assert_eq!(batch_key(&key_row(Some("movie"))), Some(movie));
    assert_eq!(batch_key(&key_row(None)), Some(movie));
    let mut row = key_row(Some("season"));
    row.season = None;
    assert_eq!(batch_key(&row), None);
    let mut row = key_row(None);
    row.movie_id = None;
    assert_eq!(batch_key(&row), None);
}

#[test]
fn batches_are_summed_up() {
    let sums = |n| BatchSums {
        title: "Title".into(),
        rating: Some(Binary32 { bits: 8.0f32.to_bits() }),
        file_count: n,
        total_size_bytes: Some(10),
        saved_bytes: None,
    };
    let season = BatchKey::Season { series_id: SeriesId(1), season: -2 };
    let info = batch_request_info(&season, sums(Some(3)));
    assert_eq!(info.title, "Title — Saison -2");
    assert_eq!(info.tmdb_rating, Some(Binary32 { bits: 8.0f32.to_bits() }));
    assert_eq!(info.file_count, 3);
    assert_eq!(info.total_size_bytes, 10);
    assert_eq!(info.total_space_saved_bytes, 0);
    let info = batch_request_info(&BatchKey::Movie { movie_id: MovieId(3) }, sums(None));
    assert_eq!(info.title, "Title");
    assert_eq!(info.file_count, 0);
}

#[test]
fn batch_without_files_is_rolled_back() {
    assert!(matches!(transition_batch(Vec::new()), BatchCommit::Rollback));
    assert!(matches!(transition_batch(vec![ID]), BatchCommit::Record(ids) if ids == vec![ID]));
}
