use rankoder::approval::{
    build_request, handle_response, put_up, repeat_requests, top_up, ApprovalResponse, RequestRound,
    RoundEvent, RoundState,
};
use rankoder::binary::{Binary32, Binary64};
use rankoder::config::{non_empty, AppConfig, ConfigError, EnvVar};
use rankoder::http::{sync, SyncReply};
use rankoder::maintenance::{run_vmaf_backfill, BackfillStep};
use rankoder::models::batch::{BatchKey, BatchKeyError};
use rankoder::models::drafts::Provider;
use rankoder::models::event::MediaEvent;
use rankoder::models::library::{MediaFileId, MovieId, SeriesId};
use rankoder::models::workflow::WorkflowStateTag;
use rankoder::notification::{push_new_failures, status_snapshot};
use rankoder::providers::{
    managed_item, map_to_absolute_file_path, map_to_episode, map_to_episode_draft,
    map_to_movie_draft, map_to_rating, map_to_series_draft, map_to_tmdb_id, map_to_tvdb_id,
    movie_from_item, remaining_starts, series_from_item, JellyfinItem, ParentId, ProviderError,
};
use rankoder::scheduler::{
    has_ticker, SchedulerAction, SchedulerEvent, SchedulerState, SyncScheduler,
};
use rankoder::store::batches::BatchApprovalInfo;
use rankoder::store::failure::FailureRecord;
use rankoder::sync::{batches, sync_episodes, sync_movies, sync_series, BATCH_SIZE};
use rankoder::text_map::TextMap;

fn b64(x: f64) -> Binary64 {
    Binary64 { bits: x.to_bits() }
}

fn b32(x: f32) -> Binary32 {
    Binary32 { bits: x.to_bits() }
}

// ---- approval --------------------------------------------------------------

const SEASON: BatchKey = BatchKey::Season { series_id: SeriesId(1), season: 3 };
const MOVIE: BatchKey = BatchKey::Movie { movie_id: MovieId(2) };

#[test]
fn approval_request() {
    let info = |file_count| BatchApprovalInfo {
        title: "Title — Saison 3".into(),
        tmdb_rating: Some(b32(7.1)),
        file_count,
        total_size_bytes: 1,
        total_space_saved_bytes: 2,
    };
    let request = build_request(&SEASON, &info(10), b64(12.5), b64(4.2));
    assert_eq!(request.batch_id, "series:00000000-0000-0000-0000-000000000001:s3");
    assert_eq!(request.title, "Title — Saison 3");
    assert_eq!(request.file_count, 10);
    assert_eq!(request.total_size_gb, b64(12.5));
    assert_eq!(request.total_space_saved_gb, b64(4.2));
    assert_eq!(request.tmdb_rating, Some(b32(7.1)));
    for n in [-1, i64::MIN, i64::MAX, 0x1_0000_0001] {
        assert_eq!(build_request(&MOVIE, &info(n), b64(0.0), b64(0.0)).file_count, n as u32);
    }
}

#[test]
fn approval_answers() {
    let answer = |batch_id: &str, approved| {
        handle_response(&ApprovalResponse { batch_id: batch_id.into(), approved })
    };
    for key in [SEASON, MOVIE] {
        let granted = answer(&key.encode(), true).unwrap();
        assert_eq!(granted.key, key);
        assert_eq!(granted.from, WorkflowStateTag::PendingApproval);
        assert_eq!(granted.to, WorkflowStateTag::Transcoding);
        assert_eq!(granted.event, MediaEvent::ApprovalGranted);
        let rejected = answer(&key.encode(), false).unwrap();
        assert_eq!(rejected.to, WorkflowStateTag::Skipped);
        assert_eq!(rejected.event, MediaEvent::ApprovalRejected);
        let asked = put_up(key);
        assert_eq!(asked.from.next_on(&asked.event), Some(asked.to));
        assert_eq!(asked.to, granted.from);
    }
    assert!(matches!(answer("x", true), Err(BatchKeyError::InvalidFormat(t)) if t == "x"));
    assert!(matches!(answer("movie:x", true), Err(BatchKeyError::InvalidUuid(_))));
    assert!(matches!(
        answer("series:00000000-0000-0000-0000-000000000001:sx", true),
        Err(BatchKeyError::InvalidSeason(_))
    ));
}

fn run_round(mut round: RequestRound, events: Vec<RoundEvent>) -> (Vec<String>, usize) {
    let mut published = Vec::new();
    let mut put_up = 0;
    for event in events {
        match (&round.state, &event) {
            (RoundState::Publishing, RoundEvent::Published(_)) => {
                published.push(round.current().unwrap().encode())
            }
            (RoundState::Moving, RoundEvent::Moved(Some(n))) if *n > 0 => put_up += 1,
            _ => {}
        }
        round.advance(event);
    }
    assert_eq!(round.state, RoundState::Done);
    (published, put_up)
}

#[test]
fn round_fills_up_to_the_capacity() {
    let mut round = top_up(3);
    round.advance(RoundEvent::Counted(Some(1)));
    assert_eq!(round.state, RoundState::Fetching(2));
    let (published, put_up) = run_round(
        top_up(3),
        vec![
            RoundEvent::Counted(Some(1)),
            RoundEvent::Fetched(Some(vec![SEASON, MOVIE])),
            RoundEvent::Moved(Some(2)),
            RoundEvent::Informed(true),
            RoundEvent::Published(false),
            RoundEvent::Moved(Some(1)),
            RoundEvent::Informed(true),
            RoundEvent::Published(true),
        ],
    );
    assert_eq!(published, vec![SEASON.encode(), MOVIE.encode()]);
    assert_eq!(put_up, 2, "one under way and two more are three");
}

#[test]
fn round_passes_over_what_fails() {
    let (published, put_up) = run_round(
        top_up(9),
        vec![
            RoundEvent::Counted(Some(0)),
            RoundEvent::Fetched(Some(vec![SEASON, SEASON, SEASON, MOVIE])),
            RoundEvent::Moved(None),
            RoundEvent::Moved(Some(0)),
            RoundEvent::Moved(Some(1)),
            RoundEvent::Informed(false),
            RoundEvent::Moved(Some(1)),
            RoundEvent::Counted(Some(0)),
            RoundEvent::Informed(true),
            RoundEvent::Published(true),
        ],
    );
    assert_eq!(published, vec![MOVIE.encode()]);
    assert_eq!(put_up, 2);
}

#[test]
fn round_without_room() {
    for events in [
        vec![RoundEvent::Counted(Some(3))],
        vec![RoundEvent::Counted(Some(u64::MAX))],
        vec![RoundEvent::Counted(None)],
        vec![RoundEvent::Counted(Some(2)), RoundEvent::Fetched(None)],
        vec![RoundEvent::Counted(Some(2)), RoundEvent::Fetched(Some(Vec::new()))],
    ] {
        assert_eq!(run_round(top_up(3), events), (Vec::new(), 0));
    }
}

#[test]
fn requests_are_repeated_without_a_move() {
    let (published, put_up) = run_round(
        repeat_requests(vec![SEASON, MOVIE]),
        vec![
            RoundEvent::Informed(false),
            RoundEvent::Informed(true),
            RoundEvent::Published(true),
        ],
    );
    assert_eq!(published, vec![MOVIE.encode()]);
    assert_eq!(put_up, 0);
    assert_eq!(repeat_requests(Vec::new()).state, RoundState::Done);
}

// ---- configuration ---------------------------------------------------------

fn env(vars: &[(&str, &str)]) -> Vec<EnvVar> {
    let required = [
        ("JELLYFIN_URL", "http://j"),
        ("JELLYFIN_API_KEY", "k"),
        ("DATABASE_URL", "postgres://d"),
        ("MQTT_HOST", "m"),
        ("TRANSCODE_TMP_DIR", "/tmp"),
        ("TRANSCODE_RETENTION_DIR", "/r"),
    ];
    vars.iter()
        .chain(required.iter())
        .map(|(name, value)| EnvVar {
            name: name.to_string(),
            value: value.to_string(),
            number: value.parse::<f64>().map(b64).map_err(|e| e.to_string()),
        })
        .collect()
}

#[test]
fn config_defaults() {
    let c = AppConfig::from_env(&env(&[])).unwrap();
    assert_eq!(c.jellyfin_url, "http://j");
    assert_eq!(c.jellyfin_api_key, "k");
    assert_eq!(c.database_url, "postgres://d");
    assert!(!c.auto_migrate);
    assert_eq!(c.min_size_per_hour_gb, b64(2.0));
    assert_eq!(c.min_bpp, b64(0.04));
    assert_eq!(c.min_bpp_hevc, b64(0.15));
    assert_eq!(c.min_compression_potential, b64(1.0));
    assert_eq!(c.mqtt_host, "m");
    assert_eq!(c.mqtt_port, 1883);
    assert_eq!(c.mqtt_client_id, "rankoder");
    assert_eq!(c.mqtt_username, None);
    assert_eq!(c.mqtt_password, None);
    assert_eq!(c.approval_max_pending, 2);
    assert_eq!(c.transcode_tmp_dir, "/tmp");
    assert_eq!(c.transcode_retention_dir, "/r");
    assert_eq!(c.transcode_encoder_override, "auto");
    assert_eq!(c.transcode_min_size_reduction, b64(0.1));
    assert_eq!(c.transcode_retention_days, 7);
    assert_eq!(c.min_vmaf, b64(0.0));
    assert_eq!(c.vmaf_n_subsample, 5);
    assert_eq!(c.vmaf_n_threads, 6);
    assert!(!c.backfill_vmaf);
    assert!(!c.requeue_quality_skips);
    assert_eq!(c.sync_interval_secs, 3600);
    assert_eq!(c.sync_debounce_secs, 15);
    assert_eq!(c.http_bind, None);
    assert_eq!(c.webhook_token, None);
    assert_eq!(c.ui_control_token, None);
    assert_eq!(c.radarr_url, None);
    assert_eq!(c.sonarr_api_key, None);
}

#[test]
fn config_values() {
    let c = AppConfig::from_env(&env(&[
        ("AUTO_MIGRATE", "1"),
        ("MIN_ANALYSIS_BPP", "0.5"),
        ("MQTT_PORT", "+8883"),
        ("MQTT_USERNAME", " \t\n"),
        ("MQTT_PASSWORD", " p "),
        ("TRANSCODE_RETENTION_DAYS", "-3"),
        ("TRANSCODE_ENCODER", "nvenc"),
        ("VMAF_N_SUBSAMPLE", "4294967295"),
        ("BACKFILL_VMAF", "0"),
        ("REQUEUE_QUALITY_SKIPS", "1"),
        ("SYNC_INTERVAL_SECS", "0"),
        ("HTTP_BIND", "\u{2003}"),
        ("WEBHOOK_TOKEN", "w"),
        ("UI_CONTROL_TOKEN", ""),
        ("RADARR_URL", ""),
        ("RADARR_API_KEY", "r"),
    ]))
    .unwrap();
    assert!(c.auto_migrate);
    assert_eq!(c.min_bpp, b64(0.5));
    assert_eq!(c.mqtt_port, 8883);
    assert_eq!(c.mqtt_username, None);
    assert_eq!(c.mqtt_password.as_deref(), Some(" p "));
    assert_eq!(c.transcode_retention_days, -3);
    assert_eq!(c.transcode_encoder_override, "nvenc");
    assert_eq!(c.vmaf_n_subsample, u32::MAX);
    assert!(!c.backfill_vmaf);
    assert!(c.requeue_quality_skips);
    assert_eq!(c.sync_interval_secs, 0);
    assert_eq!(c.http_bind, None);
    assert_eq!(c.webhook_token.as_deref(), Some("w"));
    assert_eq!(c.ui_control_token, None);
    assert_eq!(c.radarr_url.as_deref(), Some(""), "kept though it is empty");
    assert_eq!(c.radarr_api_key.as_deref(), Some("r"));
    assert_eq!(non_empty(Some("  ".into())), None);
    assert_eq!(non_empty(Some(" x".into())).as_deref(), Some(" x"));
    assert_eq!(non_empty(None), None);
}

#[test]
fn config_errors() {
    for name in [
        "JELLYFIN_URL",
        "JELLYFIN_API_KEY",
        "DATABASE_URL",
        "MQTT_HOST",
        "TRANSCODE_TMP_DIR",
        "TRANSCODE_RETENTION_DIR",
    ] {
        let vars: Vec<EnvVar> = env(&[]).into_iter().filter(|v| v.name != name).collect();
        assert!(matches!(AppConfig::from_env(&vars), Err(ConfigError::Missing(k)) if k == name));
    }
    for (name, value, expected) in [
        ("AUTO_MIGRATE", "true", "expected 1 or 0".to_string()),
        ("BACKFILL_VMAF", "", "expected 1 or 0".to_string()),
        ("MIN_VMAF", "high", "high".parse::<f64>().unwrap_err().to_string()),
        ("MIN_ANALYSIS_BPP", "", "".parse::<f64>().unwrap_err().to_string()),
        ("MQTT_PORT", "65536", "65536".parse::<u16>().unwrap_err().to_string()),
        ("MQTT_PORT", "", "".parse::<u16>().unwrap_err().to_string()),
        ("APPROVAL_MAX_PENDING", "-1", "-1".parse::<usize>().unwrap_err().to_string()),
        (
            "TRANSCODE_RETENTION_DAYS",
            "-2147483649",
            "-2147483649".parse::<i32>().unwrap_err().to_string(),
        ),
        ("VMAF_N_SUBSAMPLE", "5x", "5x".parse::<u32>().unwrap_err().to_string()),
        (
            "SYNC_DEBOUNCE_SECS",
            "18446744073709551616",
            "18446744073709551616".parse::<u64>().unwrap_err().to_string(),
        ),
    ] {
        match AppConfig::from_env(&env(&[(name, value)])) {
            Err(ConfigError::InvalidValue { key, value: v, reason }) => {
                assert_eq!((key.as_str(), v.as_str()), (name, value));
                assert_eq!(reason, expected);
            }
            other => panic!("{name}: {other:?}"),
        }
    }
    // The first fault in the order of the variables is the one that is told.
    let both = env(&[("MIN_VMAF", "x"), ("AUTO_MIGRATE", "x")]);
    assert!(matches!(
        AppConfig::from_env(&both),
        Err(ConfigError::InvalidValue { key, .. }) if key == "AUTO_MIGRATE"
    ));
}

// ---- provider --------------------------------------------------------------

fn item(id: &str) -> JellyfinItem {
    JellyfinItem {
        id: id.into(),
        name: "Name".into(),
        path: Some("/m/x.mkv".into()),
        community_rating: Some(b32(7.5)),
        provider_ids: ids(&[("Imdb", "tt1"), ("Tmdb", "603"), ("Tvdb", "121361")]),
        index_number: Some(4),
        parent_index_number: Some(0),
        series_id: Some("s1".into()),
    }
}

fn ids(refs: &[(&str, &str)]) -> TextMap<String> {
    let mut map = TextMap::new();
    for (name, id) in refs {
        map.insert(name.to_string(), id.to_string());
    }
    map
}

#[test]
fn items_become_drafts() {
    let series = map_to_series_draft(&item("j"));
    assert_eq!((series.title.as_str(), series.jellyfin_id.as_str()), ("Name", "j"));
    assert_eq!(series.tmdb_id.unwrap().as_i32(), 603);
    assert_eq!(series.tvdb_id, Some(121361));
    assert_eq!(series.rating.unwrap().as_binary(), b32(7.5));
    assert_eq!(series.provider, Provider::Jellyfin);

    let episode = map_to_episode_draft(&item("j"), SeriesId(5)).unwrap();
    assert_eq!(episode.series_id, SeriesId(5));
    assert_eq!((episode.season_number.as_i16(), episode.episode_number.as_i16()), (0, 4));
    assert_eq!(episode.media_file.path.as_path(), "/m/x.mkv");
    assert_eq!(episode.media_file.jellyfin_id, "j");
    assert_eq!(episode.media_file.size_bytes, None);

    let movie = map_to_movie_draft(&item("j")).unwrap();
    assert_eq!(movie.jellyfin_id, "j");
    assert_eq!(movie.media_file.path.as_path(), "/m/x.mkv");
    assert_eq!(item("j").parent_id(), Some("s1"));
}

#[test]
fn items_that_make_no_draft() {
    let episode = |change: fn(&mut JellyfinItem)| {
        let mut i = item("j");
        change(&mut i);
        map_to_episode_draft(&i, SeriesId(5)).unwrap_err()
    };
    assert!(matches!(episode(|i| i.path = None), ProviderError::MissingPath));
    assert!(matches!(
        episode(|i| i.path = Some("x.mkv".into())),
        ProviderError::InvalidPath(p) if p == "x.mkv"
    ));
    assert!(matches!(
        episode(|i| i.parent_index_number = None),
        ProviderError::MissingSeasonNumber
    ));
    assert!(matches!(
        episode(|i| i.parent_index_number = Some(-1)),
        ProviderError::MissingSeasonNumber
    ));
    assert!(matches!(episode(|i| i.index_number = None), ProviderError::MissingEpisodeNumber));
    assert!(matches!(map_to_absolute_file_path(&None), Err(ProviderError::MissingPath)));
}

#[test]
fn unusable_details_are_dropped() {
    assert!(map_to_rating(Some(b32(10.5))).is_none());
    assert!(map_to_rating(Some(b32(f32::NAN))).is_none());
    assert_eq!(map_to_rating(Some(b32(10.0))).unwrap().as_binary(), b32(10.0));
    assert!(map_to_tmdb_id(&ids(&[("Tmdb", "-1")])).is_none());
    assert!(map_to_tmdb_id(&ids(&[("Tmdb", "x")])).is_none());
    assert!(map_to_tmdb_id(&ids(&[("tmdb", "1")])).is_none());
    let again = map_to_tmdb_id(&ids(&[("Tmdb", "1"), ("Tmdb", "2")]));
    assert_eq!(again.map(|t| t.as_i32()), Some(2));
    assert_eq!(map_to_tvdb_id(&ids(&[("Tvdb", "-1")])), Some(-1));
    assert_eq!(map_to_tvdb_id(&ids(&[("Tvdb", "x")])), None);
}

#[test]
fn items_become_library_entries() {
    let series = series_from_item(item("j"));
    assert_eq!(series.provider_ids.jellyfin.as_deref(), Some("j"));
    assert_eq!(series.path.unwrap().as_path(), "/m/x.mkv");
    let movie = movie_from_item(item("j"));
    assert_eq!(movie.title, "Name");
    assert_eq!(movie.id.as_uuid() >> 76 & 0xf, 7, "a fresh identifier of version 7");
    let mut odd = item("j");
    odd.index_number = Some(-1);
    odd.path = Some("x".into());
    odd.community_rating = Some(b32(-1.0));
    let episode = map_to_episode(odd, SeriesId(5));
    assert_eq!(episode.series_id, SeriesId(5));
    assert_eq!(episode.season_number.unwrap().as_i16(), 0);
    assert!(episode.episode_number.is_none());
    assert!(episode.path.is_none());
    assert!(episode.rating.is_none());
}

#[test]
fn pages_cover_all_items() {
    assert!(remaining_starts(0).is_empty());
    assert!(remaining_starts(200).is_empty());
    assert_eq!(remaining_starts(201), vec![200]);
    assert_eq!(remaining_starts(600), vec![200, 400]);
    assert_eq!(remaining_starts(601), vec![200, 400, 600]);
    assert!(remaining_starts(u32::MAX).is_empty(), "counts as negative");
}

#[test]
fn managed_items() {
    assert_eq!(managed_item(&vec![5, 6], ProviderError::TmdbIdNotFound).unwrap(), 5);
    assert!(matches!(
        managed_item(&Vec::new(), ProviderError::TvdbIdNotFound),
        Err(ProviderError::TvdbIdNotFound)
    ));
}

// ---- sync ------------------------------------------------------------------

#[test]
fn episodes_of_known_series_are_kept() {
    let mut index = TextMap::new();
    index.insert("s1".into(), SeriesId(1));
    index.insert("s2".into(), SeriesId(2));
    index.insert("s1".into(), SeriesId(3));
    assert_eq!(index.get("s1"), Some(&SeriesId(3)), "the last one counts");
    assert_eq!(index.get("s3"), None);
    let mut raw: Vec<JellyfinItem> = ["a", "b", "c", "d"].iter().map(|id| item(id)).collect();
    raw[0].series_id = Some("s2".into());
    raw[1].series_id = None;
    raw[2].series_id = Some("s3".into());
    raw.push(item("e"));
    raw[4].index_number = None;
    let drafts = sync_episodes(&raw, &index);
    let kept: Vec<(&str, SeriesId)> =
        drafts.iter().map(|d| (d.media_file.jellyfin_id.as_str(), d.series_id)).collect();
    assert_eq!(kept, vec![("a", SeriesId(2)), ("d", SeriesId(3))]);
}

#[test]
fn one_invalid_movie_ends_the_sync() {
    let mut raw = vec![item("a"), item("b")];
    assert_eq!(sync_series(&raw).len(), 2);
    assert_eq!(sync_movies(&raw).unwrap().len(), 2);
    raw[1].path = None;
    assert!(matches!(sync_movies(&raw), Err(ProviderError::MissingPath)));
}

#[test]
fn drafts_are_stored_in_batches() {
    assert_eq!(batches(1001, BATCH_SIZE), vec![(0, 500), (500, 1000), (1000, 1001)]);
    assert_eq!(batches(500, BATCH_SIZE), vec![(0, 500)]);
    assert!(batches(0, BATCH_SIZE).is_empty());
}

// ---- notification ----------------------------------------------------------

fn failure(event_id: i64) -> FailureRecord {
    FailureRecord {
        event_id,
        media_file_id: MediaFileId(0xabc),
        title: Some("Inception fail".into()),
        kind: "movie".into(),
        error: "ffmpeg boom".into(),
    }
}

#[test]
fn failures_are_told_once() {
    let (alerts, high) = push_new_failures(10, Some(vec![failure(12), failure(15), failure(13)]));
    assert_eq!(alerts.len(), 3);
    assert_eq!(high, 15);
    assert_eq!(alerts[0].media_file_id, "00000000-0000-0000-0000-000000000abc");
    assert_eq!(alerts[0].kind, "movie");
    assert_eq!(alerts[0].title.as_deref(), Some("Inception fail"));
    assert_eq!(alerts[0].reason, "ffmpeg boom");
    assert_eq!(push_new_failures(high, Some(Vec::new())).1, 15);
    let (alerts, high) = push_new_failures(10, None);
    assert!(alerts.is_empty());
    assert_eq!(high, 10);
}

#[test]
fn status_counts_every_state() {
    let counts = vec![
        (WorkflowStateTag::Discovered, 1),
        (WorkflowStateTag::Probed, 2),
        (WorkflowStateTag::Analyzed, 3),
        (WorkflowStateTag::PendingApproval, 4),
        (WorkflowStateTag::Transcoding, 5),
        (WorkflowStateTag::Done, 6),
        (WorkflowStateTag::Skipped, 7),
    ];
    let s = status_snapshot("1.2.3".into(), &counts, b64(3.5), Some(failure(1)));
    assert_eq!(
        [s.discovered, s.probed, s.analyzed, s.pending_approval, s.transcoding, s.done, s.skipped],
        [1, 2, 3, 4, 5, 6, 7]
    );
    assert_eq!(s.failed, 0);
    assert_eq!(s.version, "1.2.3");
    assert_eq!(s.space_saved_gb, b64(3.5));
    assert_eq!(s.last_failure.unwrap().reason, "ffmpeg boom");
    assert!(status_snapshot("v".into(), &Vec::new(), b64(0.0), None).last_failure.is_none());
}

// ---- scheduler -------------------------------------------------------------

#[test]
fn scheduler_syncs_one_at_a_time() {
    let (mut s, first) = SyncScheduler::start();
    assert_eq!(first, SchedulerAction::Sync);
    for event in [SchedulerEvent::Triggered, SchedulerEvent::Triggered, SchedulerEvent::Ticked] {
        assert_eq!(s.handle(event), SchedulerAction::Wait);
    }
    assert_eq!(s.handle(SchedulerEvent::Synced), SchedulerAction::Sync, "the tick comes first");
    assert_eq!(s.handle(SchedulerEvent::Synced), SchedulerAction::Sleep, "then the demands");
    assert_eq!(s.handle(SchedulerEvent::Triggered), SchedulerAction::Wait);
    assert_eq!(s.handle(SchedulerEvent::Slept), SchedulerAction::Sync);
    assert_eq!(s.handle(SchedulerEvent::Synced), SchedulerAction::Wait, "part of the burst");
    assert_eq!(s.state, SchedulerState::Idle);
    assert_eq!(s.handle(SchedulerEvent::Ticked), SchedulerAction::Sync);
}

#[test]
fn burst_of_demands_becomes_one_sync() {
    let (mut s, _) = SyncScheduler::start();
    assert_eq!(s.handle(SchedulerEvent::Synced), SchedulerAction::Wait);
    let idle = s;
    assert_eq!(s.handle(SchedulerEvent::Triggered), SchedulerAction::Sleep);
    for _ in 0..24 {
        assert_eq!(s.handle(SchedulerEvent::Triggered), SchedulerAction::Wait);
    }
    assert_eq!(s.handle(SchedulerEvent::Slept), SchedulerAction::Sync);
    assert_eq!(s.handle(SchedulerEvent::Synced), SchedulerAction::Wait);
    assert_eq!(s, idle);
    // A demand that comes during the sync is answered by another.
    s.handle(SchedulerEvent::Triggered);
    s.handle(SchedulerEvent::Slept);
    assert_eq!(s.handle(SchedulerEvent::Triggered), SchedulerAction::Wait);
    assert_eq!(s.handle(SchedulerEvent::Synced), SchedulerAction::Sleep);
}

#[test]
fn scheduler_stops_when_cancelled() {
    let (mut s, _) = SyncScheduler::start();
    assert_eq!(s.handle(SchedulerEvent::Cancelled), SchedulerAction::Wait);
    assert_eq!(s.handle(SchedulerEvent::Triggered), SchedulerAction::Wait);
    assert_eq!(s.handle(SchedulerEvent::Synced), SchedulerAction::Stop);
    assert_eq!(s.handle(SchedulerEvent::Ticked), SchedulerAction::Stop);
    assert!(!has_ticker(0));
    assert!(has_ticker(1));
}

// ---- webhook and maintenance -----------------------------------------------

#[test]
fn webhook_asks_for_the_secret() {
    assert_eq!(sync(Some("secret"), "secret"), SyncReply::Accepted);
    assert_eq!(sync(Some("Secret"), "secret"), SyncReply::Unauthorized);
    assert_eq!(sync(Some(""), "secret"), SyncReply::Unauthorized);
    assert_eq!(sync(None, "secret"), SyncReply::Unauthorized);
    assert_eq!(sync(None, ""), SyncReply::Unauthorized);
    assert_eq!(SyncReply::Accepted.status(), 202);
    assert_eq!(SyncReply::Unauthorized.status(), 401);
}

#[test]
fn backfill_goes_through_all_files() {
    let mut run = run_vmaf_backfill(2);
    assert_eq!(run.step(false), BackfillStep::Measure(0));
    assert_eq!(run.advance(Some(b64(96.0))), Some(b64(96.0)));
    assert_eq!(run.step(true), BackfillStep::Cancelled(1));
    assert_eq!(run.step(false), BackfillStep::Measure(1));
    assert_eq!(run.advance(None), None);
    assert_eq!(run.step(true), BackfillStep::Done);
    assert_eq!(run.advance(None), None);
    assert_eq!(run_vmaf_backfill(0).step(false), BackfillStep::Done);
}
