use rankoder::binary::Binary64;
use rankoder::transcode::error::ValidationError;
use rankoder::transcode::validation::{
    parse_probe_output, validate_output, OutputProbe, RawDisposition, RawFormat, RawProbe,
    RawStream, ValidatedOutput,
};
use serde_json::Value;

fn b64(x: f64) -> Binary64 {
    Binary64 { bits: x.to_bits() }
}

fn text(v: &Value, key: &str) -> Option<String> {
    v.get(key).and_then(|x| x.as_str()).map(|s| s.to_owned())
}

fn raw(json: &str) -> RawProbe {
    let v: Value = serde_json::from_str(json).unwrap();
    RawProbe {
        streams: v
            .get("streams")
            .unwrap()
            .as_array()
            .unwrap()
            .iter()
            .map(|s| RawStream {
                codec_type: text(s, "codec_type").unwrap(),
                codec_name: text(s, "codec_name"),
                bit_rate: text(s, "bit_rate"),
                disposition: RawDisposition {
                    attached_pic: s
                        .get("disposition")
                        .and_then(|d| d.get("attached_pic"))
                        .and_then(|n| n.as_u64())
                        .map(|n| n as u8),
                },
            })
            .collect(),
        format: v.get("format").map(|f| RawFormat {
            duration: text(f, "duration").and_then(|s| s.parse::<f64>().ok()).map(b64),
            size: text(f, "size"),
            bit_rate: text(f, "bit_rate"),
        }),
    }
}

fn check(json: &str, original: Option<f64>, tolerance: f64) -> Result<ValidatedOutput, ValidationError> {
    let raw = raw(json);
    let new = raw.format.as_ref().and_then(|f| f.duration).map(|d| f64::from_bits(d.bits));
    let drift = (original.unwrap_or(0.0) - new.unwrap_or(0.0)).abs();
    parse_probe_output(&raw, original.map(b64), b64(drift), b64(tolerance))
}

#[test]
fn valid_hevc_probe() {
    let json = r#"{
        "streams": [
            {"codec_type": "video", "codec_name": "hevc"}
        ],
        "format": {
            "duration": "3600.000000",
            "size": "500000000"
        }
    }"#;
    let result = check(json, Some(3600.0), 1.0).unwrap();
    assert_eq!(result.size_bytes.as_u64(), 500_000_000);
}

#[test]
fn invalid_codec_h264() {
    let json = r#"{
        "streams": [
            {"codec_type": "video", "codec_name": "h264"}
        ],
        "format": {
            "duration": "3600.000000",
            "size": "500000000"
        }
    }"#;
    let err = check(json, Some(3600.0), 1.0).unwrap_err();
    assert!(matches!(err, ValidationError::WrongCodec));
}

#[test]
fn duration_mismatch() {
    let json = r#"{
        "streams": [
            {"codec_type": "video", "codec_name": "hevc"}
        ],
        "format": {
            "duration": "3000.000000",
            "size": "500000000"
        }
    }"#;
    let err = check(json, Some(3600.0), 1.0).unwrap_err();
    assert!(matches!(err, ValidationError::DurationMismatch { .. }));
    assert!(matches!(
        err,
        ValidationError::DurationMismatch { original, new }
            if original == b64(3600.0) && new == b64(3000.0)
    ));
}

#[test]
fn missing_size_bytes() {
    let json = r#"{
        "streams": [
            {"codec_type": "video", "codec_name": "hevc"}
        ],
        "format": {
            "duration": "3600.000000"
        }
    }"#;
    let err = check(json, Some(3600.0), 1.0).unwrap_err();
    assert!(matches!(err, ValidationError::FfprobeFailed(_)));
}

#[test]
fn duration_within_tolerance_is_ok() {
    let json = r#"{
        "streams": [
            {"codec_type": "video", "codec_name": "hevc"}
        ],
        "format": {
            "duration": "3600.500000",
            "size": "500000000"
        }
    }"#;
    let result = check(json, Some(3600.0), 1.0).unwrap();
    assert_eq!(result.size_bytes.as_u64(), 500_000_000);
}

#[test]
fn no_original_duration_skips_check() {
    let json = r#"{
        "streams": [
            {"codec_type": "video", "codec_name": "hevc"}
        ],
        "format": {
            "duration": "3000.000000",
            "size": "500000000"
        }
    }"#;
    let result = check(json, None, 1.0).unwrap();
    assert_eq!(result.size_bytes.as_u64(), 500_000_000);
}

#[test]
fn parses_bitrate_from_stream() {
    let json = r#"{
        "streams": [
            {"codec_type": "video", "codec_name": "hevc", "bit_rate": "5000000"}
        ],
        "format": {
            "duration": "3600.000000",
            "size": "500000000"
        }
    }"#;
    let result = check(json, Some(3600.0), 1.0).unwrap();
    assert_eq!(result.bitrate.unwrap().as_bps(), 5_000_000);
}

#[test]
fn parses_bitrate_from_format_fallback() {
    let json = r#"{
        "streams": [
            {"codec_type": "video", "codec_name": "hevc"}
        ],
        "format": {
            "duration": "3600.000000",
            "size": "500000000",
            "bit_rate": "6000000"
        }
    }"#;
    let result = check(json, Some(3600.0), 1.0).unwrap();
    assert_eq!(result.bitrate.unwrap().as_bps(), 6_000_000);
}

#[test]
fn bitrate_none_when_absent() {
    let json = r#"{
        "streams": [
            {"codec_type": "video", "codec_name": "hevc"}
        ],
        "format": {
            "duration": "3600.000000",
            "size": "500000000"
        }
    }"#;
    let result = check(json, Some(3600.0), 1.0).unwrap();
    assert!(result.bitrate.is_none());
}

#[test]
fn attached_pic_stream_is_ignored() {
    let json = r#"{
        "streams": [
            {
                "codec_type": "video",
                "codec_name": "mjpeg",
                "disposition": { "attached_pic": 1 }
            },
            {
                "codec_type": "video",
                "codec_name": "hevc",
                "disposition": { "attached_pic": 0 }
            }
        ],
        "format": {
            "duration": "3600.000000",
            "size": "500000000"
        }
    }"#;
    let result = check(json, Some(3600.0), 1.0).unwrap();
    assert_eq!(result.size_bytes.as_u64(), 500_000_000);
}

#[test]
fn only_attached_pic_stream_fails() {
    let json = r#"{
        "streams": [
            {
                "codec_type": "video",
                "codec_name": "mjpeg",
                "disposition": { "attached_pic": 1 }
            }
        ],
        "format": {
            "duration": "3600.000000",
            "size": "500000000"
        }
    }"#;
    let err = check(json, Some(3600.0), 1.0).unwrap_err();
    assert!(matches!(err, ValidationError::FfprobeFailed(_)));
}

#[test]
fn missing_parts_are_named() {
    let message = |json: &str| match check(json, None, 1.0) {
        Err(ValidationError::FfprobeFailed(s)) => s,
        other => panic!("{other:?}"),
    };
    assert_eq!(message(r#"{"streams": []}"#), "no video stream");
    assert_eq!(
        message(r#"{"streams": [{"codec_type": "video", "codec_name": "hevc"}]}"#),
        "no format section"
    );
    assert_eq!(
        message(r#"{"streams": [{"codec_type": "video", "codec_name": "hevc"}], "format": {"size": "0"}}"#),
        "missing size bytes"
    );
    assert!(matches!(
        check(r#"{"streams": [{"codec_type": "video"}]}"#, None, 1.0),
        Err(ValidationError::WrongCodec)
    ));
}

#[test]
fn drift_of_the_tolerance_is_accepted() {
    let json = r#"{"streams": [{"codec_type": "video", "codec_name": "hevc"}],
        "format": {"duration": "3601.0", "size": "5"}}"#;
    assert!(check(json, Some(3600.0), 1.0).is_ok());
    let unreadable = r#"{"streams": [{"codec_type": "video", "codec_name": "hevc"}],
        "format": {"duration": "long", "size": "5"}}"#;
    assert!(check(unreadable, Some(3600.0), 1.0).is_ok());
}

#[test]
fn runs_of_the_check() {
    let message = |probe| match validate_output(probe, None, b64(0.0), b64(1.0)) {
        Err(ValidationError::FfprobeFailed(s)) => s,
        other => panic!("{other:?}"),
    };
    assert_eq!(message(OutputProbe::NoFile), "output file does not exist");
    assert_eq!(message(OutputProbe::NotStarted("denied".into())), "denied");
    assert_eq!(
        message(OutputProbe::Failed { code: Some(1), stderr: "bad".into() }),
        format!("ffprobe exit code {:?}: {}", Some(1), "bad")
    );
    assert_eq!(
        message(OutputProbe::Failed { code: None, stderr: "".into() }),
        "ffprobe exit code None: "
    );
    assert_eq!(message(OutputProbe::BadOutput("eof".into())), "invalid ffprobe JSON: eof");
    let good = raw(r#"{"streams": [{"codec_type": "video", "codec_name": "hevc"}], "format": {"size": "5"}}"#);
    assert_eq!(
        validate_output(OutputProbe::Probed(good), None, b64(0.0), b64(1.0)).unwrap().size_bytes.as_u64(),
        5
    );
}
