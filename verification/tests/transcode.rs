use std::collections::{HashMap, HashSet, VecDeque};

use rankoder::binary::Binary64;
use rankoder::models::common::AbsoluteFilePath;
use rankoder::models::event::MediaEvent;
use rankoder::models::library::{EpisodeId, MediaFileId, MovieId, RetentionFileId};
use rankoder::models::media_file::{MediaFile, SizeBytes};
use rankoder::models::transcode::{SkipReason, TranscodeDecision};
use rankoder::models::video::{ColorMetadata, DurationSecs, Resolution, VideoCodec, VideoProperties};
use rankoder::models::workflow::WorkflowStateTag;
use rankoder::record::{ReadMember, Reading, Written};
use rankoder::store::script::{save_analysis_result, Columns};
use rankoder::transcode::detect::{
    advance_detection, configured_encoder, detect_encoder, test_encoder_args, Detection,
};
use rankoder::transcode::encoder::Encoder;
use rankoder::transcode::error::{DetectError, RecoveryError, TranscodeError, ValidationError};
use rankoder::transcode::job::{
    transcode_file, EncodeRun, JobEvent, JobState, JobStep, TranscodeJob, TranscodeSettings,
};
use rankoder::transcode::outcome::{CompletedTranscode, TranscodeOutcome};
use rankoder::transcode::process::{item_to_refresh, process_file, Commit, Notify};
use rankoder::transcode::queue::{
    enqueue_unique, scan_delay, QueueAction, QueueEvent, TranscodeQueue,
};
use rankoder::transcode::reaper::{reap, ExpiredFile, ReapEvent, ReapStep, Removal};
use rankoder::transcode::recovery::{
    recover_stuck_transcode, Recovery, RecoveryAction, RecoveryEvent, RecoveryStep,
};
use rankoder::transcode::swap::{compute_swap_paths, SwapAction, SwapResult, Swapper};
use rankoder::transcode::validation::ValidatedOutput;
use rankoder::transcode::vmaf::{
    compute_vmaf, parse_vmaf_log, vmaf_result, VmafError, VmafLog, VmafRun,
};

fn b64(x: f64) -> Binary64 {
    Binary64 { bits: x.to_bits() }
}

// ---- queue ---------------------------------------------------------------

#[test]
fn enqueue_unique_adds_when_absent() {
    let mut pending = VecDeque::new();
    let inflight = HashSet::new();
    let id = MediaFileId::new();

    assert!(enqueue_unique(&mut pending, &inflight, id));
    assert_eq!(pending.len(), 1);
}

#[test]
fn enqueue_unique_skips_when_already_pending() {
    let id = MediaFileId::new();
    let mut pending = VecDeque::from([id]);
    let inflight = HashSet::new();

    assert!(!enqueue_unique(&mut pending, &inflight, id));
    assert_eq!(pending.len(), 1, "must not duplicate a queued file");
}

#[test]
fn enqueue_unique_skips_when_inflight() {
    let id = MediaFileId::new();
    let mut pending = VecDeque::new();
    let inflight = HashSet::from([id.as_uuid()]);

    assert!(!enqueue_unique(&mut pending, &inflight, id));
    assert!(pending.is_empty(), "must not re-queue a running encode");
}

#[test]
fn queue_takes_files_in_order_and_once() {
    let (a, b, c) = (MediaFileId(1), MediaFileId(2), MediaFileId(3));
    let mut q = TranscodeQueue::new();
    assert!(!q.can_start());
    assert_eq!(q.handle(QueueEvent::Permit), QueueAction::Continue);
    assert_eq!(q.handle(QueueEvent::Received(b)), QueueAction::Continue);
    assert_eq!(q.handle(QueueEvent::Received(b)), QueueAction::Continue);
    assert_eq!(q.handle(QueueEvent::Stalled(vec![a, b, c, a])), QueueAction::Requeued(2));
    assert!(q.can_start());
    assert_eq!(q.handle(QueueEvent::Permit), QueueAction::Start(b));
    assert_eq!(q.handle(QueueEvent::Stalled(vec![b])), QueueAction::Requeued(0));
    assert_eq!(q.handle(QueueEvent::Joined(b)), QueueAction::Continue);
    assert_eq!(q.handle(QueueEvent::Permit), QueueAction::Start(a));
    assert_eq!(q.handle(QueueEvent::Stalled(vec![a, b])), QueueAction::Requeued(1));
    assert_eq!(q.handle(QueueEvent::Joined(a)), QueueAction::Continue);
    assert_eq!(q.handle(QueueEvent::Permit), QueueAction::Start(c));
    assert_eq!(q.handle(QueueEvent::Joined(c)), QueueAction::Continue);
    assert_eq!(q.handle(QueueEvent::Permit), QueueAction::Start(b));
    assert_eq!(q.handle(QueueEvent::Panicked), QueueAction::Continue);
    assert_eq!(q.handle(QueueEvent::Received(b)), QueueAction::Continue);
    assert!(!q.can_start(), "a file whose transcode panicked stays marked");
    assert_eq!(q.handle(QueueEvent::Received(a)), QueueAction::Continue);
    assert_eq!(q.handle(QueueEvent::Permit), QueueAction::Start(a), "the others go on");
}

#[test]
fn queue_starts_one_file_at_a_time() {
    let (a, b) = (MediaFileId(1), MediaFileId(2));
    let mut q = TranscodeQueue::new();
    q.handle(QueueEvent::Stalled(vec![a, b]));
    assert_eq!(q.handle(QueueEvent::Permit), QueueAction::Start(a));
    assert!(!q.can_start());
    assert_eq!(q.handle(QueueEvent::Permit), QueueAction::Continue);
    assert_eq!(q.handle(QueueEvent::Joined(b)), QueueAction::Continue);
    assert_eq!(q.handle(QueueEvent::Permit), QueueAction::Continue);
    assert_eq!(q.handle(QueueEvent::Joined(a)), QueueAction::Continue);
    assert_eq!(q.handle(QueueEvent::Permit), QueueAction::Start(b));
}

#[test]
fn queue_starts_nothing_once_cancelled() {
    let (a, b, c) = (MediaFileId(1), MediaFileId(2), MediaFileId(3));
    let mut q = TranscodeQueue::new();
    q.handle(QueueEvent::Stalled(vec![a, b]));
    assert_eq!(q.handle(QueueEvent::Permit), QueueAction::Start(a));
    assert_eq!(q.handle(QueueEvent::Cancelled), QueueAction::Drain, "the running file is awaited");
    assert_eq!(q.handle(QueueEvent::Ticked), QueueAction::Drain);
    assert_eq!(q.handle(QueueEvent::Joined(a)), QueueAction::Stop);
    assert!(!q.can_start());
    assert_eq!(q.handle(QueueEvent::Permit), QueueAction::Stop);
    assert_eq!(q.handle(QueueEvent::Received(c)), QueueAction::Stop);
    assert_eq!(q.handle(QueueEvent::Stalled(vec![c])), QueueAction::Stop);
    assert!(!q.can_start());
    assert_eq!(TranscodeQueue::new().handle(QueueEvent::Cancelled), QueueAction::Stop);
}

#[test]
fn queue_looks_for_stalled_files() {
    let mut q = TranscodeQueue::new();
    assert_eq!(q.handle(QueueEvent::Ticked), QueueAction::Scan);
    assert_eq!(q.handle(QueueEvent::ScanFailed), QueueAction::Continue);
    assert_eq!(q.handle(QueueEvent::Ticked), QueueAction::Scan);
    assert_eq!(q.handle(QueueEvent::Stalled(vec![MediaFileId(7)])), QueueAction::Requeued(1));
    assert_eq!(q.handle(QueueEvent::Permit), QueueAction::Start(MediaFileId(7)));
    assert_eq!((scan_delay(true), scan_delay(false)), (0, 300));
}

// ---- swap ----------------------------------------------------------------

/// A disk in memory. Renames fail where the source is missing, and on demand.
struct Disk {
    files: HashMap<String, Vec<u8>>,
    renames: usize,
    fail_on: Vec<usize>,
}

impl Disk {
    fn with(files: &[(&str, &[u8])]) -> Self {
        Disk {
            files: files.iter().map(|(p, c)| (p.to_string(), c.to_vec())).collect(),
            renames: 0,
            fail_on: Vec::new(),
        }
    }

    fn rename(&mut self, from: &str, to: &str) -> Result<(), String> {
        self.renames += 1;
        if self.fail_on.contains(&self.renames) {
            return Err("simulated failure".into());
        }
        match self.files.remove(from) {
            Some(c) => {
                self.files.insert(to.to_owned(), c);
                Ok(())
            }
            None => Err("source not found".into()),
        }
    }

    fn holds(&self, path: &str) -> bool {
        self.files.contains_key(path)
    }

    fn content(&self, path: &str) -> Option<&[u8]> {
        self.files.get(path).map(|c| c.as_slice())
    }
}

fn run_swap(disk: &mut Disk, mut swapper: Swapper) -> Result<SwapResult, TranscodeError> {
    loop {
        match swapper.action() {
            SwapAction::Rename { from, to } => {
                let result = disk.rename(&from, &to);
                swapper = swapper.advance(result);
            }
            SwapAction::Finish(result) => return result,
        }
    }
}

const ORIGINAL: &str = "/media/movie.mkv";
const TEMP: &str = "/tmp/123.mkv";

fn media_disk() -> Disk {
    Disk::with(&[(ORIGINAL, b"original content"), (TEMP, b"new content")])
}

#[test]
fn atomic_swap_success() {
    let mut disk = media_disk();
    let id = MediaFileId::new();
    let result = run_swap(&mut disk, Swapper::new(ORIGINAL, TEMP, "/retention", id)).unwrap();

    assert!(disk.holds(&result.final_path));
    assert!(disk.holds(&result.retention_path));
    assert!(disk.holds(ORIGINAL));
    assert!(!disk.holds(TEMP));
    assert_eq!(disk.content(&result.final_path), Some(&b"new content"[..]));
    assert_eq!(disk.content(&result.retention_path), Some(&b"original content"[..]));
    assert_eq!(
        result.retention_path,
        format!("/retention/MediaFileId({})_movie.mkv", uuid::Uuid::from_u128(id.as_uuid()))
    );
}

#[test]
fn atomic_swap_rollback_on_second_rename() {
    let mut disk = media_disk();
    disk.fail_on = vec![2];
    let err = run_swap(&mut disk, Swapper::new(ORIGINAL, TEMP, "/retention", MediaFileId(7)))
        .unwrap_err();
    assert!(matches!(err, TranscodeError::SwapFailed(ref e) if e == "simulated failure"));
    assert_eq!(disk.content(ORIGINAL), Some(&b"original content"[..]), "the original is back");
    assert!(disk.holds(TEMP));
    assert_eq!(disk.files.len(), 2);

    // Where the original cannot be moved back either, it stays in retention.
    let mut disk = media_disk();
    disk.fail_on = vec![2, 3];
    let err = run_swap(&mut disk, Swapper::new(ORIGINAL, TEMP, "/retention", MediaFileId(7)))
        .unwrap_err();
    assert!(matches!(err, TranscodeError::SwapFailed(_)));
    assert!(!disk.holds(ORIGINAL));
    assert!(disk.holds(TEMP));
    assert!(disk.files.values().any(|c| c == b"original content"));
}

#[test]
fn swap_whose_first_rename_fails_changes_nothing() {
    let mut disk = media_disk();
    disk.fail_on = vec![1];
    assert!(run_swap(&mut disk, Swapper::new(ORIGINAL, TEMP, "/r", MediaFileId(7))).is_err());
    assert_eq!(disk.renames, 1);
    assert_eq!(disk.content(ORIGINAL), Some(&b"original content"[..]));
    assert!(disk.holds(TEMP));
}

#[test]
fn swap_path_names() {
    let id = MediaFileId(0x0192_0000_0000_7000_8000_0000_0000_00ff);
    let paths = |original: &str| compute_swap_paths(original, "/keep", id);
    assert_eq!(
        paths("/media/Movie (2020)/movie.part1.avi"),
        (
            "/keep/01920000-0000-7000-8000-0000000000ff_movie.part1.avi".to_string(),
            "/media/Movie (2020)/movie.part1.mkv".to_string()
        )
    );
    assert_eq!(paths("/.hidden").1, "/.hidden.mkv");
    assert_eq!(paths("/a/b/./").1, "/a/b.mkv");
    assert_eq!(paths("/a//c.mp4").1, "/a/c.mkv");
    assert_eq!(paths("plain.mp4").1, "plain.mkv");
    assert_eq!(
        paths("/a/.."),
        (
            "/keep/01920000-0000-7000-8000-0000000000ff_file".to_string(),
            "/a/output.mkv".to_string()
        )
    );
    assert_eq!(paths("/").1, "./output.mkv");
}

#[test]
fn retention_path_is_free() {
    let id = MediaFileId(5);
    let temp = job(0.0).temp_path;
    for original in ["/", "/a/x.mkv", "x", "..", "/r/MediaFileId(x)_y.mkv", "/r/."] {
        for dir in ["/r", "/r/", "", "/a", "/tmp"] {
            let swapper = Swapper::new(original, &temp, dir, id);
            assert_ne!(swapper.paths.retention, swapper.paths.final_path);
            assert_ne!(swapper.paths.retention, swapper.paths.temp);
        }
    }
}

#[test]
fn joined_paths_agree_with_std() {
    for dir in ["", "/", "a", "a/", "/a/b", "."] {
        for path in ["", "b", "/b", "b/c"] {
            assert_eq!(
                rankoder::path::join(dir, path),
                std::path::Path::new(dir).join(path).to_str().unwrap(),
                "{dir} {path}"
            );
        }
    }
}

// ---- recovery ------------------------------------------------------------

fn run_recovery(
    disk: &mut Disk,
    mut recovery: Recovery,
    accepted: fn() -> Result<ValidatedOutput, String>,
) -> Result<RecoveryAction, RecoveryError> {
    loop {
        let event = match recovery.step() {
            RecoveryStep::Exists(path) => RecoveryEvent::Exists(disk.holds(&path)),
            RecoveryStep::Validate(_) => RecoveryEvent::Validated(accepted()),
            RecoveryStep::Rename { from, to } => RecoveryEvent::Renamed(disk.rename(&from, &to)),
            RecoveryStep::Finish => return recovery.into_result().unwrap(),
        };
        recovery = recovery.advance(event);
    }
}

fn not_a_video() -> Result<ValidatedOutput, String> {
    Err("no video stream".into())
}

fn good_video() -> Result<ValidatedOutput, String> {
    Ok(ValidatedOutput { size_bytes: SizeBytes::new(9).unwrap(), bitrate: None })
}

fn recovery(id: MediaFileId) -> Recovery {
    recover_stuck_transcode(ORIGINAL, TEMP, id, "/retention")
}

fn kept_at(id: MediaFileId) -> String {
    format!("/retention/MediaFileId({})_movie.mkv", uuid::Uuid::from_u128(id.as_uuid()))
}

#[test]
fn no_retention_file_proceeds_normally() {
    let id = MediaFileId::new();
    let mut disk = Disk::with(&[(ORIGINAL, b"content")]);
    let action = run_recovery(&mut disk, recovery(id), not_a_video).unwrap();
    assert!(matches!(action, RecoveryAction::ProceedNormally));
}

#[test]
fn partial_swap_restores_and_retries() {
    let id = MediaFileId::new();
    let mut disk = Disk::with(&[(&kept_at(id), b"original content")]);
    let action = run_recovery(&mut disk, recovery(id), not_a_video).unwrap();
    assert!(matches!(action, RecoveryAction::RestoreAndRetry));
    assert!(disk.holds(ORIGINAL));
}

#[test]
fn retention_and_final_present_invalid_final_fails() {
    let id = MediaFileId::new();
    let mut disk =
        Disk::with(&[(&kept_at(id), b"original content"), (ORIGINAL, b"not a real video")]);
    let action = run_recovery(&mut disk, recovery(id), not_a_video).unwrap();
    assert!(matches!(
        action,
        RecoveryAction::MarkFailed { reason }
            if reason == "post-swap recovery validation failed: no video stream"
    ));
}

#[test]
fn completed_swap_is_committed() {
    let id = MediaFileId::new();
    let mut disk = Disk::with(&[(&kept_at(id), b"original content"), (ORIGINAL, b"new content")]);
    match run_recovery(&mut disk, recovery(id), good_video).unwrap() {
        RecoveryAction::CommitComplete { final_path, retention_path, output_vp } => {
            assert_eq!(final_path, ORIGINAL);
            assert_eq!(retention_path, kept_at(id));
            assert_eq!(output_vp.size_bytes.as_u64(), 9);
        }
        other => panic!("{other:?}"),
    }
    assert_eq!(disk.renames, 0);
}

#[test]
fn original_that_cannot_be_restored() {
    let id = MediaFileId::new();
    let mut disk = Disk::with(&[(&kept_at(id), b"original content")]);
    disk.fail_on = vec![1];
    let err = run_recovery(&mut disk, recovery(id), good_video).unwrap_err();
    assert!(matches!(err, RecoveryError::Filesystem(e) if e == "simulated failure"));
}

#[test]
fn recovery_after_every_break_of_a_swap() {
    let id = MediaFileId::new();
    for renames in 0..=2 {
        let mut disk = media_disk();
        let mut swapper = Swapper::new(ORIGINAL, TEMP, "/retention", id);
        for _ in 0..renames {
            if let SwapAction::Rename { from, to } = swapper.action() {
                let result = disk.rename(&from, &to);
                swapper = swapper.advance(result);
            }
        }
        let action = run_recovery(&mut disk, recovery(id), good_video).unwrap();
        match renames {
            0 => assert!(matches!(action, RecoveryAction::ProceedNormally)),
            1 => assert!(matches!(action, RecoveryAction::RestoreAndRetry)),
            _ => assert!(matches!(action, RecoveryAction::CommitComplete { .. })),
        }
        let kept = if renames == 2 { kept_at(id) } else { ORIGINAL.to_string() };
        assert_eq!(disk.content(&kept), Some(&b"original content"[..]));
    }
}

// ---- detection -----------------------------------------------------------

#[test]
fn override_shortcircuits_detection() {
    assert!(matches!(
        detect_encoder(Some(Encoder::Libx265)),
        Detection::Chosen(Ok(Encoder::Libx265))
    ));
}

fn run_detection(works: fn(Encoder) -> Result<bool, String>) -> Result<Encoder, DetectError> {
    let mut detection = detect_encoder(None);
    loop {
        match detection {
            Detection::Trying(e) => detection = advance_detection(e, works(e)),
            Detection::Chosen(result) => return result,
        }
    }
}

#[test]
fn auto_falls_back_to_detection() {
    assert_eq!(run_detection(|_| Ok(true)).unwrap(), Encoder::Nvenc);
    assert_eq!(run_detection(|e| Ok(e != Encoder::Nvenc)).unwrap(), Encoder::VideoToolbox);
    assert_eq!(run_detection(|e| Ok(e == Encoder::Libx265)).unwrap(), Encoder::Libx265);
    assert!(matches!(run_detection(|_| Ok(false)), Err(DetectError::NoEncoderAvailable)));
    assert!(matches!(
        run_detection(|_| Err("not found".into())),
        Err(DetectError::FfmpegSpawn(e)) if e == "not found"
    ));
}

#[test]
fn configured_encoders() {
    assert_eq!(configured_encoder("auto"), Ok(None));
    assert_eq!(configured_encoder("nvenc"), Ok(Some(Encoder::Nvenc)));
    assert_eq!(configured_encoder("x"), Err("invalid TRANSCODE_ENCODER: x".to_string()));
    assert_eq!(
        test_encoder_args(Encoder::VideoToolbox),
        vec![
            "-f", "lavfi", "-i", "testsrc=duration=0.1", "-c:v", "hevc_videotoolbox", "-f",
            "null", "-",
        ]
    );
}

// ---- quality -------------------------------------------------------------

fn log_run(json: &str) -> VmafRun {
    let value: serde_json::Value = match serde_json::from_str(json) {
        Ok(v) => v,
        Err(e) => return VmafRun::BadLog(e.to_string()),
    };
    let mean = value
        .get("pooled_metrics")
        .and_then(|m| m.get("vmaf"))
        .and_then(|v| v.get("mean"))
        .and_then(|m| m.as_f64());
    VmafRun::Logged(VmafLog { pooled_mean: mean.map(b64) })
}

#[test]
fn parses_pooled_mean() {
    let json = r#"{
        "frames": [],
        "pooled_metrics": { "vmaf": { "min": 88.1, "max": 99.2, "mean": 96.45, "harmonic_mean": 96.1 } }
    }"#;
    assert_eq!(vmaf_result(log_run(json)).0.unwrap(), b64(96.45));
}

#[test]
fn missing_pooled_metrics_is_error() {
    let json = r#"{ "frames": [] }"#;
    assert!(matches!(vmaf_result(log_run(json)), (Err(VmafError::MissingScore), true)));
    assert!(matches!(
        parse_vmaf_log(VmafLog { pooled_mean: None }),
        Err(VmafError::MissingScore)
    ));
}

#[test]
fn malformed_json_is_parse_error() {
    assert!(matches!(vmaf_result(log_run("not json")), (Err(VmafError::Parse(_)), true)));
}

#[test]
fn runs_of_a_measurement() {
    assert!(matches!(
        vmaf_result(VmafRun::NotStarted("x".into())),
        (Err(VmafError::Spawn(e)), false) if e == "x"
    ));
    assert!(matches!(
        vmaf_result(VmafRun::Failed { code: Some(2), stderr: "y".into() }),
        (Err(VmafError::Ffmpeg { code: Some(2), stderr }), true) if stderr == "y"
    ));
    assert!(matches!(
        vmaf_result(VmafRun::NoLog("z".into())),
        (Err(VmafError::ReadLog(e)), false) if e == "z"
    ));
}

#[test]
fn measurement_command() {
    let command = compute_vmaf("/m/o.mp4", "/t/n.mkv", 0, 0);
    assert_eq!(command.log_path, "/t/n.vmaf.json");
    assert_eq!(
        command.args,
        vec![
            "-nostdin",
            "-i",
            "/t/n.mkv",
            "-i",
            "/m/o.mp4",
            "-lavfi",
            "[0:v]setpts=PTS-STARTPTS,format=yuv420p10le[dist];\
             [1:v]setpts=PTS-STARTPTS,format=yuv420p10le[ref];\
             [dist][ref]libvmaf=log_fmt=json:log_path=/t/n.vmaf.json:n_subsample=1",
            "-f",
            "null",
            "-",
        ]
    );
    assert_eq!(compute_vmaf("o", "/t/a.b", 1, 0).log_path, "/t/a.vmaf.json");
    assert_eq!(compute_vmaf("o", "/t/.b", 1, 0).log_path, "/t/.b.vmaf.json");
    assert_eq!(compute_vmaf("o", "//t//b.", 1, 0).log_path, "//t//b.vmaf.json");
    assert_eq!(compute_vmaf("o", "b.mkv", 1, 0).log_path, "b.vmaf.json");
    let command = compute_vmaf("/m/o.mp4", "/t/n.mkv", 5, 6);
    assert!(command.args[6].ends_with(":n_subsample=5:n_threads=6"));
}

// ---- job -----------------------------------------------------------------

fn settings(min_vmaf: f64) -> TranscodeSettings {
    TranscodeSettings {
        encoder: Encoder::Libx265,
        tmp_dir: "/tmp".into(),
        retention_dir: "/retention".into(),
        min_vmaf: b64(min_vmaf),
    }
}

/// The members of a JSON object; a text that is none has no members.
fn spec_of(json: &str) -> Vec<ReadMember> {
    let object = match serde_json::from_str::<serde_json::Value>(json) {
        Ok(serde_json::Value::Object(o)) => o,
        _ => return Vec::new(),
    };
    let read = |value: &serde_json::Value| match value {
        serde_json::Value::Null => Reading::Null,
        serde_json::Value::String(s) => Reading::Text(s.clone()),
        serde_json::Value::Number(n) => {
            Reading::Number { count: n.as_u64(), number: b64(n.as_f64().unwrap()) }
        }
        _ => Reading::Other,
    };
    object.iter().map(|(k, v)| ReadMember { name: k.clone(), value: read(v) }).collect()
}

fn media_file(spec: Option<&str>) -> MediaFile {
    MediaFile {
        id: MediaFileId(0xff),
        episode_id: None,
        movie_id: Some(MovieId(1)),
        path: AbsoluteFilePath::new("/lib/movie.mp4").unwrap(),
        video_properties: Some(VideoProperties {
            video_codec: VideoCodec::H264,
            resolution: Resolution::new(720, 1280).unwrap(),
            bitrate: None,
            framerate: None,
            size_bytes: SizeBytes::new(1000).unwrap(),
            duration: Some(DurationSecs::new(b64(60.0)).unwrap()),
            color_metadata: Some(ColorMetadata {
                color_primaries: "bt709".into(),
                color_trc: "bt709".into(),
                colorspace: "bt709".into(),
                master_display: None,
                max_cll: None,
            }),
            dv_profile: None,
        }),
        transcode_spec: spec.map(spec_of),
        workflow_state: WorkflowStateTag::Transcoding,
    }
}

fn job(min_vmaf: f64) -> TranscodeJob {
    transcode_file(&settings(min_vmaf), &media_file(Some(r#"{"crf": 24}"#)), 900).unwrap()
}

fn output(size: u64) -> ValidatedOutput {
    ValidatedOutput { size_bytes: SizeBytes::new(size).unwrap(), bitrate: None }
}

fn exited(success: bool) -> JobEvent {
    JobEvent::Encoded(EncodeRun::Exited { success, code: Some(3), stderr: "oh".into() })
}

fn ended(job: TranscodeJob) -> (Result<TranscodeOutcome, TranscodeError>, bool) {
    assert_eq!(job.step(), JobStep::Finish);
    match job.state {
        JobState::Finished { result, remove_temp } => (result, remove_temp),
        other => panic!("{other:?}"),
    }
}

fn encoded(min_vmaf: f64) -> TranscodeJob {
    let job = job(min_vmaf);
    assert_eq!(job.step(), JobStep::Recover);
    let job = job.advance(JobEvent::Recovered(Ok(RecoveryAction::ProceedNormally)));
    assert_eq!(job.step(), JobStep::Encode);
    let job = job.advance(exited(true));
    assert_eq!(job.step(), JobStep::Validate);
    job
}

#[test]
fn job_is_planned_from_the_spec() {
    let spec = r#"{"bpp": 0.1, "crf": 26, "estimated_saving_ratio": 0.5}"#;
    let job = transcode_file(&settings(0.0), &media_file(Some(spec)), 900).unwrap();
    assert_eq!(job.temp_path, "/tmp/00000000-0000-0000-0000-0000000000ff.mkv");
    assert_eq!(job.original_duration, Some(b64(60.0)));
    assert_eq!(job.limits.max_size, 900);
    assert_eq!(
        job.args,
        vec![
            "-i", "/lib/movie.mp4", "-y", "-nostdin", "-map", "0", "-c", "copy", "-c:v",
            "libx265", "-pix_fmt", "yuv420p10le", "-profile:v", "main10", "-preset", "slow",
            "-crf", "26", "-x265-params", "aq-mode=3", "-tag:v", "hvc1", "-color_primaries",
            "bt709", "-color_trc", "bt709", "-colorspace", "bt709",
            "/tmp/00000000-0000-0000-0000-0000000000ff.mkv",
        ]
    );
    let cut = transcode_file(&settings(0.0), &media_file(Some(r#"{"crf": 281}"#)), 900).unwrap();
    assert!(cut.args.contains(&"25".to_string()));
}

#[test]
fn decided_crf_is_used() {
    for crf in [20, 24, 30] {
        let script = save_analysis_result(
            MediaFileId(0xff),
            &TranscodeDecision::Encode {
                bpp: b64(0.2),
                compression_potential: b64(2.4),
                crf,
                estimated_saving_ratio: b64(0.8),
            },
        );
        let members = match script.columns {
            Columns::Spec(members) => members,
            other => panic!("{other:?}"),
        };
        let mut object = serde_json::Map::new();
        for m in members {
            let value = match m.value {
                Written::Null => serde_json::Value::Null,
                Written::Text(t) => t.into(),
                Written::Count(n) => n.into(),
                Written::Number(x) => f64::from_bits(x.bits).into(),
            };
            object.insert(m.name, value);
        }
        let stored = serde_json::Value::Object(object).to_string();
        let job = transcode_file(&settings(0.0), &media_file(Some(&stored)), 900).unwrap();
        let at = job.args.iter().position(|a| a == "-crf").unwrap();
        assert_eq!(job.args[at + 1], crf.to_string());
    }
}

#[test]
fn missing_spec_errors_before_encoding() {
    for spec in [None, Some("{}"), Some(r#"{"crf": -1}"#), Some(r#"{"crf": "24"}"#), Some("nonsense")] {
        let err = transcode_file(&settings(0.0), &media_file(spec), 900).unwrap_err();
        assert!(matches!(err, TranscodeError::MissingSpec), "{spec:?}");
        assert!(err.is_terminal());
    }
    let mut file = media_file(Some(r#"{"crf": 24}"#));
    file.video_properties = None;
    assert!(matches!(
        transcode_file(&settings(0.0), &file, 900),
        Err(TranscodeError::MissingVideoProperties)
    ));
}

#[test]
fn completes_and_swaps_to_hevc() {
    let job = encoded(90.0).advance(JobEvent::Validated(Ok(output(900))));
    assert_eq!(job.step(), JobStep::Measure);
    let job = job.advance(JobEvent::Measured(Some(b64(95.0))));
    assert_eq!(job.step(), JobStep::Swap);
    let job = job.advance(JobEvent::Swapped(Ok(SwapResult {
        final_path: "/lib/movie.mkv".into(),
        retention_path: "/retention/x".into(),
    })));
    match ended(job) {
        (Ok(TranscodeOutcome::Completed(c)), false) => {
            assert_eq!(c.final_path.as_path(), "/lib/movie.mkv");
            assert_eq!(c.original_size.as_u64(), 1000);
            assert_eq!(c.new_size.as_u64(), 900);
            assert_eq!(c.retention_path, "/retention/x");
            assert_eq!(c.vmaf, Some(b64(95.0)));
        }
        other => panic!("{other:?}"),
    }
}

#[test]
fn skips_when_reduction_insufficient() {
    let job = encoded(0.0).advance(JobEvent::Validated(Ok(output(901))));
    assert!(matches!(
        ended(job),
        (
            Ok(TranscodeOutcome::Skipped {
                reason: SkipReason::InsufficientSizeReduction,
                vmaf: None
            }),
            true
        )
    ));
}

#[test]
fn skips_when_quality_is_too_low() {
    let job = encoded(90.0).advance(JobEvent::Validated(Ok(output(5))));
    let job = job.advance(JobEvent::Measured(Some(b64(89.9))));
    assert!(matches!(
        ended(job),
        (Ok(TranscodeOutcome::Skipped { reason: SkipReason::QualityTooLow, vmaf: Some(s) }), true)
            if s == b64(89.9)
    ));
    // Without a least score, or without a score, the file is kept.
    for (min, score) in [(0.0, Some(1.0)), (90.0, None), (90.0, Some(90.0)), (-1.0, Some(-2.0))] {
        let job = encoded(min).advance(JobEvent::Validated(Ok(output(5))));
        let job = job.advance(JobEvent::Measured(score.map(b64)));
        assert_eq!(job.step(), JobStep::Swap);
    }
}

#[test]
fn ffmpeg_failure_is_terminal_and_cleans_temp() {
    let begun = || job(0.0).advance(JobEvent::Recovered(Ok(RecoveryAction::RestoreAndRetry)));
    let (result, remove_temp) = ended(begun().advance(exited(false)));
    let err = result.unwrap_err();
    assert!(matches!(
        err,
        TranscodeError::FfmpegFailed { exit_code: Some(3), ref stderr } if stderr == "oh"
    ));
    assert!(err.is_terminal());
    assert!(remove_temp);
    assert_eq!(err.message(""), "ffmpeg failed with exit code 3: oh");

    let (result, remove_temp) =
        ended(begun().advance(JobEvent::Encoded(EncodeRun::NotStarted("none".into()))));
    assert!(remove_temp);
    assert_eq!(
        result.unwrap_err().message(""),
        "ffmpeg failed: failed to spawn ffmpeg: none"
    );
}

#[test]
fn other_ends_of_a_job() {
    let (result, remove_temp) =
        ended(encoded(0.0).advance(JobEvent::Validated(Err(ValidationError::WrongCodec))));
    assert!(matches!(result, Err(TranscodeError::Validation(ValidationError::WrongCodec))));
    assert!(remove_temp);

    let swapping = encoded(0.0)
        .advance(JobEvent::Validated(Ok(output(5))))
        .advance(JobEvent::Measured(None));
    let (result, remove_temp) = ended(
        swapping.advance(JobEvent::Swapped(Err(TranscodeError::SwapFailed("denied".into())))),
    );
    let err = result.unwrap_err();
    assert!(err.is_terminal() && remove_temp);
    assert_eq!(err.message(""), "swap failed: denied");

    let (result, remove_temp) = ended(job(0.0).advance(JobEvent::Recovered(Ok(
        RecoveryAction::MarkFailed { reason: "broken".into() },
    ))));
    assert!(!remove_temp);
    assert_eq!(result.unwrap_err().message(""), "recovery failed: broken");

    let (result, _) = ended(job(0.0).advance(JobEvent::Recovered(Err(
        RecoveryError::Filesystem("busy".into()),
    ))));
    let err = result.unwrap_err();
    assert!(!err.is_terminal(), "the file is left to be tried again");
    assert_eq!(err.message("busy"), "recovery failed: busy");

    let recovered = |final_path: &str| {
        ended(job(0.0).advance(JobEvent::Recovered(Ok(RecoveryAction::CommitComplete {
            final_path: final_path.into(),
            retention_path: "/retention/x".into(),
            output_vp: output(7),
        }))))
    };
    assert!(matches!(
        recovered("/lib/movie.mkv"),
        (Ok(TranscodeOutcome::Completed(c)), false) if c.vmaf.is_none() && c.new_size.as_u64() == 7
    ));
    let err = recovered("movie.mkv").0.unwrap_err();
    assert_eq!(err.message(""), "path must be absolute: movie.mkv");
    assert_eq!(
        TranscodeError::Validation(ValidationError::WrongCodec).message("wrong codec"),
        "validation failed: wrong codec"
    );
    assert_eq!(
        TranscodeError::MissingVideoProperties.message(""),
        "video properties missing for media file"
    );
    assert_eq!(TranscodeError::MissingSpec.message(""), "transcode spec missing for media file");
}

#[test]
fn job_ignores_what_was_not_asked_for() {
    let job = job(0.0).advance(exited(true)).advance(JobEvent::Measured(None));
    assert_eq!(job.step(), JobStep::Recover);
}

// ---- what is stored --------------------------------------------------------

fn completed(vmaf: Option<f64>) -> TranscodeOutcome {
    TranscodeOutcome::Completed(CompletedTranscode {
        final_path: AbsoluteFilePath::new("/lib/movie.mkv").unwrap(),
        original_size: SizeBytes::new(10).unwrap(),
        new_size: SizeBytes::new(5).unwrap(),
        bitrate: None,
        retention_path: "/retention/x".into(),
        vmaf: vmaf.map(b64),
    })
}

#[test]
fn process_file_completed_marks_done_with_retention() {
    let mut file = media_file(None);
    let plan = process_file(&file, Ok(completed(Some(97.0))), "");
    assert_eq!(plan.record_vmaf, Some(b64(97.0)));
    assert!(matches!(plan.commit, Commit::Complete(c) if c.retention_path == "/retention/x"));
    assert_eq!(plan.notify, Notify::Movie);
    file.episode_id = Some(EpisodeId(2));
    assert_eq!(process_file(&file, Ok(completed(None)), "").notify, Notify::Movie);
    file.movie_id = None;
    assert_eq!(process_file(&file, Ok(completed(None)), "").notify, Notify::Series);
    file.episode_id = None;
    assert_eq!(process_file(&file, Ok(completed(None)), "").notify, Notify::Nobody);
}

#[test]
fn process_file_skipped_marks_skipped_without_retention() {
    let skipped = TranscodeOutcome::Skipped {
        reason: SkipReason::QualityTooLow,
        vmaf: Some(b64(50.0)),
    };
    let plan = process_file(&media_file(None), Ok(skipped), "");
    assert_eq!(plan.record_vmaf, Some(b64(50.0)));
    assert_eq!(plan.notify, Notify::Nobody);
    match plan.commit {
        Commit::Apply { from, event } => {
            assert_eq!(from, WorkflowStateTag::Transcoding);
            assert_eq!(
                event,
                MediaEvent::Skipped {
                    reason: SkipReason::QualityTooLow,
                    bpp: None,
                    compression_potential: None
                }
            );
            assert_eq!(from.next_on(&event), Some(WorkflowStateTag::Skipped));
        }
        other => panic!("{other:?}"),
    }
}

#[test]
fn process_file_terminal_error_marks_failed() {
    let failure =
        TranscodeError::FfmpegFailed { exit_code: Some(183), stderr: "Invalid data found".into() };
    let plan = process_file(&media_file(None), Err(failure), "");
    match plan.commit {
        Commit::Apply { from, event } => {
            assert_eq!(
                event,
                MediaEvent::TranscodeFailed {
                    error: "ffmpeg failed with exit code 183: Invalid data found".into()
                }
            );
            assert_eq!(from.next_on(&event), Some(WorkflowStateTag::Failed));
        }
        other => panic!("{other:?}"),
    }
    let retry = TranscodeError::RecoveryFailed(RecoveryError::Filesystem("busy".into()));
    assert!(matches!(process_file(&media_file(None), Err(retry), "busy").commit, Commit::Nothing));
    let plan = process_file(&media_file(None), Ok(TranscodeOutcome::AlreadyRecovered), "");
    assert!(matches!(plan.commit, Commit::Nothing));
    assert!(plan.record_vmaf.is_none());
}

#[test]
fn notify_refreshes_movie_with_tmdb_id() {
    assert_eq!(item_to_refresh::<()>(true, Ok(Some(603))), Some(603));
}

#[test]
fn notify_skips_movie_without_tmdb_id() {
    assert_eq!(item_to_refresh::<()>(true, Ok(None)), None);
    assert_eq!(item_to_refresh(true, Err("lost")), None);
}

#[test]
fn notify_refreshes_series_with_tvdb_id() {
    assert_eq!(item_to_refresh::<()>(true, Ok(Some(121361))), Some(121361));
}

#[test]
fn notify_skips_series_without_tvdb_id() {
    assert_eq!(item_to_refresh::<()>(true, Ok(None)), None);
    assert_eq!(item_to_refresh::<()>(false, Ok(Some(121361))), None);
}

// ---- reaper ----------------------------------------------------------------

fn expired() -> Vec<ExpiredFile> {
    vec![
        ExpiredFile { id: RetentionFileId(1), path: "/r/a".into() },
        ExpiredFile { id: RetentionFileId(2), path: "/r/b".into() },
    ]
}

#[test]
fn reaper_cleans_expired_files() {
    let mut run = reap(expired());
    let mut done = Vec::new();
    let removals = [Removal::Failed, Removal::AlreadyGone];
    let mut i = 0;
    loop {
        match run.step() {
            ReapStep::RemoveFile(path) => {
                done.push(path);
                run.advance(ReapEvent::Removed(removals[i]));
                i += 1;
            }
            ReapStep::DeleteRow(id) => {
                done.push(id.as_uuid().to_string());
                run.advance(ReapEvent::Deleted(true));
            }
            ReapStep::Done => break,
        }
    }
    assert_eq!(done, vec!["/r/a", "1", "/r/b", "2"]);
}

#[test]
fn reaper_stops_where_a_record_cannot_be_deleted() {
    let mut run = reap(expired());
    run.advance(ReapEvent::Deleted(true));
    assert!(matches!(run.step(), ReapStep::RemoveFile(p) if p == "/r/a"));
    run.advance(ReapEvent::Removed(Removal::Removed));
    assert!(matches!(run.step(), ReapStep::DeleteRow(RetentionFileId(1))));
    run.advance(ReapEvent::Deleted(false));
    assert!(matches!(run.step(), ReapStep::Done));
    assert!(matches!(reap(Vec::new()).step(), ReapStep::Done));
}
