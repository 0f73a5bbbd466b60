use rankoder::analysis::{
    analysis_stored, crf_from_rating_and_bpp, resolution_factor, Measures,
    TakeTranscodeDecisionService, BPP_HIGH, BPP_LOW, BPP_MIDDLE, ONE, RATING_FAIR, RATING_GOOD,
    RATING_HIGH,
};
use rankoder::binary::{Binary32, Binary64};
use rankoder::models::common::AbsoluteFilePath;
use rankoder::models::library::MediaFileId;
use rankoder::models::media_file::{MediaFile, SizeBytes};
use rankoder::models::transcode::{SkipReason, TranscodeDecision};
use rankoder::models::video::{
    Bitrate, DurationSecs, Framerate, Resolution, VideoCodec, VideoProperties,
};
use rankoder::models::workflow::WorkflowStateTag;
use rankoder::store::error::StoreError;

fn b64(x: f64) -> Binary64 {
    Binary64 { bits: x.to_bits() }
}

fn b32(x: f32) -> Binary32 {
    Binary32 { bits: x.to_bits() }
}

fn file_with(dv_profile: Option<u8>, codec: &str) -> MediaFile {
    MediaFile {
        id: MediaFileId::new(),
        episode_id: None,
        movie_id: None,
        path: AbsoluteFilePath::new("/tmp/dv_test.mkv").unwrap(),
        video_properties: Some(VideoProperties {
            video_codec: VideoCodec::from_str(codec),
            resolution: Resolution::new(2160, 3840).unwrap(),
            bitrate: None,
            framerate: None,
            size_bytes: SizeBytes::new(50_000_000_000).unwrap(),
            duration: None,
            color_metadata: None,
            dv_profile,
        }),
        transcode_spec: None,
        workflow_state: WorkflowStateTag::Probed,
    }
}

fn service() -> TakeTranscodeDecisionService {
    TakeTranscodeDecisionService::new(b64(2.0), b64(0.04), b64(0.15), b64(1.0))
}

fn measures(size_per_hour: f64, bpp: f64, potential: f64, ratio: f64) -> Measures {
    Measures {
        size_per_hour_gb: b64(size_per_hour),
        bpp: b64(bpp),
        compression_potential: b64(potential),
        saving_ratio: b64(ratio),
    }
}

fn nothing_measured() -> Measures {
    measures(f64::NAN, f64::NAN, f64::NAN, f64::NAN)
}

/// A file of which everything is known.
fn full(codec: &str) -> MediaFile {
    let mut file = file_with(None, codec);
    let vp = file.video_properties.as_mut().unwrap();
    vp.bitrate = Some(Bitrate::new(20_000_000).unwrap());
    vp.framerate = Some(Framerate::new(24, 1).unwrap());
    vp.duration = Some(DurationSecs::new(b64(7200.0)).unwrap());
    file
}

#[test]
fn dolby_vision_is_skipped() {
    let decision = service().execute(&file_with(Some(5), "hevc"), None, &nothing_measured());
    assert!(matches!(decision, TranscodeDecision::Skip(SkipReason::DolbyVision)));
}

#[test]
fn dolby_vision_skip_precedes_excluded_codec() {
    // AV1 alone would be ExcludedCodec, but DV must win so the affected
    // population is counted accurately.
    let decision = service().execute(&file_with(Some(5), "av1"), None, &nothing_measured());
    assert!(matches!(decision, TranscodeDecision::Skip(SkipReason::DolbyVision)));
}

#[test]
fn reasons_to_skip_in_order() {
    let skip = |file: &MediaFile, m: Measures| match service().execute(file, None, &m) {
        TranscodeDecision::Skip(reason) => reason,
        other => panic!("{other:?}"),
    };
    let mut unprobed = file_with(None, "h264");
    unprobed.video_properties = None;
    assert_eq!(skip(&unprobed, nothing_measured()), SkipReason::MissingProbeData);
    assert_eq!(skip(&file_with(None, "av1"), nothing_measured()), SkipReason::ExcludedCodec);
    assert_eq!(skip(&full("av1"), measures(9.0, 1.0, 9.0, 0.5)), SkipReason::ExcludedCodec);
    assert_eq!(skip(&full("hevc"), measures(9.0, 0.149, 9.0, 0.5)), SkipReason::AlreadyCompressed);
    assert_eq!(skip(&file_with(None, "h264"), nothing_measured()), SkipReason::MissingProbeData);
    assert_eq!(skip(&full("h264"), measures(1.9, 1.0, 9.0, 0.5)), SkipReason::FileTooSmall);
    let mut no_rate = full("h264");
    no_rate.video_properties.as_mut().unwrap().framerate = None;
    assert_eq!(skip(&no_rate, measures(9.0, 1.0, 9.0, 0.5)), SkipReason::MissingProbeData);
    assert_eq!(skip(&full("h264"), measures(9.0, 0.039, 9.0, 0.5)), SkipReason::AlreadyCompressed);
}

#[test]
fn potential_has_to_exceed_its_minimum() {
    let decision = service().execute(&full("vc1"), None, &measures(2.0, 0.04, 1.0, 0.0));
    assert!(matches!(
        decision,
        TranscodeDecision::SkipWithAnalysis {
            reason: SkipReason::InsufficientCompressionPotential,
            bpp,
            compression_potential,
        } if bpp == b64(0.04) && compression_potential == b64(1.0)
    ));
}

#[test]
fn worthwhile_file_is_encoded() {
    let decision =
        service().execute(&full("h264"), Some(b32(8.0)), &measures(9.0, 0.16, 3.6, 0.75));
    match decision {
        TranscodeDecision::Encode { bpp, compression_potential, crf, estimated_saving_ratio } => {
            assert_eq!(bpp, b64(0.16));
            assert_eq!(compression_potential, b64(3.6));
            assert_eq!(crf, 21);
            assert_eq!(estimated_saving_ratio, b64(0.75));
        }
        other => panic!("{other:?}"),
    }
}

#[test]
fn saving_ratio_is_clamped() {
    for (ratio, clamped) in [(1.5, 1.0), (-0.5, 0.0), (0.25, 0.25)] {
        match service().execute(&full("h264"), None, &measures(9.0, 0.06, 3.6, ratio)) {
            TranscodeDecision::Encode { estimated_saving_ratio, .. } => {
                assert_eq!(estimated_saving_ratio, b64(clamped));
            }
            other => panic!("{other:?}"),
        }
    }
}

#[test]
fn rate_factors() {
    let cases = [
        (0.15, Some(7.5), 21),
        (0.149, Some(7.5), 22),
        (0.08, Some(7.49), 24),
        (0.05, Some(6.0), 25),
        (0.049, Some(4.0), 28),
        (0.01, Some(3.9), 30),
        (0.2, None, 23),
        (0.1, Some(f32::NAN), 28),
        (f64::NAN, None, 26),
    ];
    for (bpp, rating, crf) in cases {
        assert_eq!(crf_from_rating_and_bpp(b64(bpp), rating.map(b32)), crf, "{bpp} {rating:?}");
    }
}

#[test]
fn thresholds_are_the_nearest_numbers() {
    assert_eq!(f32::from_bits(RATING_HIGH), 7.5);
    assert_eq!(f32::from_bits(RATING_GOOD), 6.0);
    assert_eq!(f32::from_bits(RATING_FAIR), 4.0);
    assert_eq!(f64::from_bits(BPP_HIGH), 0.15);
    assert_eq!(f64::from_bits(BPP_MIDDLE), 0.08);
    assert_eq!(f64::from_bits(BPP_LOW), 0.05);
    assert_eq!(f64::from_bits(ONE), 1.0);
    assert_eq!(f32::from_bits(rankoder::models::common::TEN), 10.0);
}

#[test]
fn resolution_factors() {
    let factor = |h, w| f32::from_bits(resolution_factor(h, w).bits);
    assert_eq!(factor(2160, 3840), 3.0);
    assert_eq!(factor(2159, 3840), 1.5);
    assert_eq!(factor(1080, 1920), 1.5);
    assert_eq!(factor(1079, 1920), 1.0);
    assert_eq!(factor(720, 1280), 1.0);
    assert_eq!(factor(480, 720), 0.6);
    assert_eq!(factor(u32::MAX, u32::MAX), 3.0);
}

/// What is computed of a file, against a minimum of bits per pixel.
fn measured(file: &MediaFile, least: f64) -> Measures {
    let vp = file.video_properties.as_ref().unwrap();
    let rate = vp.bits_per_pixel().unwrap();
    let fps = rate.numerator as f64 / rate.denominator as f64;
    let bpp = rate.bits_per_second as f64 / (rate.pixels as f64 * fps);
    let hours = f64::from_bits(vp.duration.unwrap().as_secs().bits) / 3600.0;
    let gb = vp.size_bytes.as_u64() as f64 / 1024.0 / 1024.0 / 1024.0;
    let factor = resolution_factor(vp.resolution.height(), vp.resolution.width());
    let potential = (bpp - least) * 10.0 * f32::from_bits(factor.bits) as f64;
    measures(gb / hours, bpp, potential, (bpp - least) / bpp)
}

/// An HEVC file in 4K, of one hour, with that bitrate.
fn hevc(bitrate: u64) -> MediaFile {
    let mut file = full("hevc");
    let vp = file.video_properties.as_mut().unwrap();
    vp.bitrate = Some(Bitrate::new(bitrate).unwrap());
    vp.size_bytes = SizeBytes::new(27_000_000_000).unwrap();
    vp.duration = Some(DurationSecs::new(b64(3600.0)).unwrap());
    file
}

#[test]
fn hevc_with_many_bits_is_encoded() {
    let file = hevc(59_719_680);
    match service().execute(&file, None, &measured(&file, 0.15)) {
        TranscodeDecision::Encode { bpp, compression_potential, crf, estimated_saving_ratio } => {
            assert_eq!(bpp, b64(0.3));
            assert_eq!(compression_potential, b64(4.5));
            assert_eq!(crf, 23);
            assert_eq!(estimated_saving_ratio, b64(0.5));
        }
        other => panic!("{other:?}"),
    }
    // Enough bits for another codec, and too few for this one.
    let file = hevc(27_000_000);
    assert!(matches!(
        service().execute(&file, None, &measured(&file, 0.15)),
        TranscodeDecision::Skip(SkipReason::AlreadyCompressed)
    ));
}

#[test]
fn rating_changes_only_the_rate_factor() {
    let m = measures(9.0, 0.16, 3.6, 0.75);
    let decided = |rating: f32| service().execute(&full("h264"), Some(b32(rating)), &m);
    match (decided(8.0), decided(2.0)) {
        (
            TranscodeDecision::Encode {
                bpp: b1,
                compression_potential: p1,
                crf: 21,
                estimated_saving_ratio: s1,
            },
            TranscodeDecision::Encode {
                bpp: b2,
                compression_potential: p2,
                crf: 27,
                estimated_saving_ratio: s2,
            },
        ) => assert_eq!((b1, p1, s1), (b2, p2, s2)),
        other => panic!("{other:?}"),
    }
}

#[test]
fn hevc_has_its_own_minimum() {
    assert_eq!(service().effective_min_bpp(&VideoCodec::Hevc), b64(0.15));
    assert_eq!(service().effective_min_bpp(&VideoCodec::H264), b64(0.04));
}

#[test]
fn decision_stored_by_another_worker_is_no_error() {
    let stale = StoreError::StaleState { expected: WorkflowStateTag::Probed };
    assert!(analysis_stored(Err(stale)).is_ok());
    assert!(analysis_stored(Ok(())).is_ok());
    assert!(matches!(
        analysis_stored(Err(StoreError::Database("gone".into()))),
        Err(StoreError::Database(s)) if s == "gone"
    ));
}

#[test]
fn pixel_rate_needs_bitrate_and_framerate() {
    let file = full("h264");
    let rate = file.video_properties.as_ref().unwrap().bits_per_pixel().unwrap();
    assert_eq!(rate.bits_per_second, 20_000_000);
    assert_eq!(rate.pixels, 3840 * 2160);
    assert_eq!((rate.numerator, rate.denominator), (24, 1));
    assert!(file_with(None, "h264").video_properties.unwrap().bits_per_pixel().is_none());
}
