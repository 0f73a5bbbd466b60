use rankoder::binary::Binary64;
use rankoder::models::error::DomainError;
use rankoder::models::video::VideoCodec;
use rankoder::probe::{
    extract_color_metadata, parse_fraction_num, probe_result, video_properties, FfprobeError,
    FfprobeFormat, FfprobeOutput, FfprobeStream, ProbeRun, SideData, StreamType,
};
use serde_json::Value;

fn text(v: &Value, key: &str) -> Option<String> {
    v.get(key).and_then(|x| x.as_str()).map(|s| s.to_owned())
}

fn small(v: &Value, key: &str) -> Option<u64> {
    v.get(key).and_then(|x| x.as_u64())
}

fn side_data(v: &Value) -> SideData {
    SideData {
        side_data_type: text(v, "side_data_type").unwrap(),
        red_x: text(v, "red_x"),
        red_y: text(v, "red_y"),
        green_x: text(v, "green_x"),
        green_y: text(v, "green_y"),
        blue_x: text(v, "blue_x"),
        blue_y: text(v, "blue_y"),
        white_point_x: text(v, "white_point_x"),
        white_point_y: text(v, "white_point_y"),
        max_luminance: text(v, "max_luminance"),
        min_luminance: text(v, "min_luminance"),
        max_content: small(v, "max_content").map(|n| n as u16),
        max_average: small(v, "max_average").map(|n| n as u16),
        dv_profile: small(v, "dv_profile").map(|n| n as u8),
    }
}

fn stream(v: &Value) -> FfprobeStream {
    FfprobeStream {
        codec_type: match text(v, "codec_type").unwrap().as_str() {
            "audio" => StreamType::Audio,
            "video" => StreamType::Video,
            "subtitle" => StreamType::Subtitle,
            "data" => StreamType::Data,
            _ => StreamType::Unknown,
        },
        codec_name: text(v, "codec_name"),
        width: small(v, "width").map(|n| n as u32),
        height: small(v, "height").map(|n| n as u32),
        bit_rate: text(v, "bit_rate"),
        avg_frame_rate: text(v, "avg_frame_rate"),
        color_primaries: text(v, "color_primaries"),
        color_transfer: text(v, "color_transfer"),
        color_space: text(v, "color_space"),
        side_data_list: v
            .get("side_data_list")
            .and_then(|x| x.as_array())
            .map(|list| list.iter().map(side_data).collect())
            .unwrap_or_default(),
        attached_pic: v.get("disposition").and_then(|d| small(d, "attached_pic")).map(|n| n as u8),
    }
}

fn output(json: &str) -> FfprobeOutput {
    let v: Value = serde_json::from_str(json).unwrap();
    let format = v.get("format").unwrap();
    FfprobeOutput {
        streams: v.get("streams").unwrap().as_array().unwrap().iter().map(stream).collect(),
        format: FfprobeFormat {
            bit_rate: text(format, "bit_rate"),
            size: text(format, "size"),
            duration: text(format, "duration")
                .and_then(|s| s.parse::<f64>().ok())
                .map(|d| Binary64 { bits: d.to_bits() }),
        },
    }
}

#[test]
fn hdr10_color_metadata_parsed() {
    let json = r#"{
        "streams": [
            {
                "codec_type": "video",
                "codec_name": "hevc",
                "width": 3840,
                "height": 2160,
                "bit_rate": "25000000",
                "avg_frame_rate": "24000/1001",
                "color_primaries": "bt2020",
                "color_transfer": "smpte2084",
                "color_space": "bt2020nc",
                "side_data_list": [
                    {
                        "side_data_type": "Mastering display metadata",
                        "red_x": "34000/50000",
                        "red_y": "16000/50000",
                        "green_x": "13250/50000",
                        "green_y": "34500/50000",
                        "blue_x": "7500/50000",
                        "blue_y": "3000/50000",
                        "white_point_x": "15635/50000",
                        "white_point_y": "16450/50000",
                        "max_luminance": "10000000/10000",
                        "min_luminance": "1/10000"
                    },
                    {
                        "side_data_type": "Content light level metadata",
                        "max_content": 1000,
                        "max_average": 400
                    }
                ]
            }
        ],
        "format": {
            "duration": "3600.000000",
            "size": "50000000000",
            "bit_rate": "25000000"
        }
    }"#;

    let vp = video_properties(output(json)).unwrap();

    assert_eq!(vp.resolution.width(), 3840);
    assert_eq!(vp.resolution.height(), 2160);

    let color = vp.color_metadata.unwrap();
    assert_eq!(color.color_primaries, "bt2020");
    assert_eq!(color.color_trc, "smpte2084");
    assert_eq!(color.colorspace, "bt2020nc");

    let md = color.master_display.unwrap();
    assert_eq!(md, "G(13250,34500)B(7500,3000)R(34000,16000)WP(15635,16450)L(10000000,1)");
    assert_eq!(color.max_cll.unwrap(), "1000,400");
}

#[test]
fn dolby_vision_profile_detected() {
    let json = r#"{
        "streams": [
            {
                "codec_type": "video",
                "codec_name": "hevc",
                "width": 3840,
                "height": 2160,
                "bit_rate": "30000000",
                "avg_frame_rate": "24000/1001",
                "side_data_list": [
                    {
                        "side_data_type": "DOVI configuration record",
                        "dv_profile": 8,
                        "dv_level": 6,
                        "rpu_present_flag": 1,
                        "el_present_flag": 0,
                        "bl_present_flag": 1
                    }
                ]
            }
        ],
        "format": {
            "duration": "3600.000000",
            "size": "60000000000",
            "bit_rate": "30000000"
        }
    }"#;

    let vp = video_properties(output(json)).unwrap();
    assert_eq!(vp.dv_profile, Some(8));
}

#[test]
fn non_dv_has_no_profile() {
    let json = r#"{
        "streams": [
            {
                "codec_type": "video",
                "codec_name": "hevc",
                "width": 1920,
                "height": 1080,
                "avg_frame_rate": "24000/1001"
            }
        ],
        "format": { "duration": "3600.0", "size": "10000000000" }
    }"#;

    let vp = video_properties(output(json)).unwrap();
    assert_eq!(vp.dv_profile, None);
}

#[test]
fn sdr_no_color_metadata() {
    let json = r#"{
        "streams": [
            {
                "codec_type": "video",
                "codec_name": "h264",
                "width": 1920,
                "height": 1080,
                "avg_frame_rate": "24000/1001"
            }
        ],
        "format": {
            "duration": "3600.000000",
            "size": "10000000000"
        }
    }"#;

    let vp = video_properties(output(json)).unwrap();
    assert!(vp.color_metadata.is_none());
}

#[test]
fn attached_pic_stream_is_skipped() {
    let json = r#"{
        "streams": [
            {
                "codec_type": "video",
                "codec_name": "mjpeg",
                "width": 600,
                "height": 600,
                "avg_frame_rate": "0/0",
                "disposition": { "attached_pic": 1 }
            },
            {
                "codec_type": "video",
                "codec_name": "h264",
                "width": 1920,
                "height": 1080,
                "avg_frame_rate": "24000/1001",
                "disposition": { "attached_pic": 0 }
            }
        ],
        "format": {
            "duration": "3600.000000",
            "size": "10000000000"
        }
    }"#;

    let vp = video_properties(output(json)).unwrap();

    assert!(matches!(vp.video_codec, VideoCodec::H264));
    assert_eq!(vp.resolution.width(), 1920);
    assert_eq!(vp.resolution.height(), 1080);
}

fn plain_stream() -> FfprobeStream {
    stream(&serde_json::from_str(r#"{"codec_type": "video", "width": 4, "height": 2}"#).unwrap())
}

fn plain_output() -> FfprobeOutput {
    FfprobeOutput {
        streams: vec![plain_stream()],
        format: FfprobeFormat { bit_rate: None, size: Some("7".into()), duration: None },
    }
}

#[test]
fn least_output_is_enough() {
    let vp = video_properties(plain_output()).unwrap();
    assert!(matches!(vp.video_codec, VideoCodec::Missing));
    assert_eq!((vp.resolution.height(), vp.resolution.width()), (2, 4));
    assert_eq!(vp.size_bytes.as_u64(), 7);
    assert!(vp.bitrate.is_none() && vp.framerate.is_none() && vp.duration.is_none());
}

#[test]
fn faults_of_the_output() {
    let fault = |change: fn(&mut FfprobeOutput)| {
        let mut o = plain_output();
        change(&mut o);
        video_properties(o).unwrap_err()
    };
    assert!(matches!(fault(|o| o.streams.clear()), FfprobeError::NoVideoStream));
    assert!(matches!(
        fault(|o| o.streams[0].codec_type = StreamType::Audio),
        FfprobeError::NoVideoStream
    ));
    assert!(matches!(fault(|o| o.streams[0].height = None), FfprobeError::MissingResolution));
    assert!(matches!(fault(|o| o.streams[0].width = None), FfprobeError::MissingResolution));
    assert!(matches!(
        fault(|o| o.streams[0].width = Some(0)),
        FfprobeError::Domain(DomainError::InvalidResolution)
    ));
    assert!(matches!(fault(|o| o.format.size = None), FfprobeError::MissingSizeBytes));
    assert!(matches!(
        fault(|o| o.format.size = Some("big".into())),
        FfprobeError::MissingSizeBytes
    ));
    assert!(matches!(
        fault(|o| o.format.size = Some("0".into())),
        FfprobeError::Domain(DomainError::InvalidSizeBytes)
    ));
}

#[test]
fn unusable_values_are_dropped() {
    let mut o = plain_output();
    o.streams[0].bit_rate = Some("0".into());
    o.format.bit_rate = Some("9".into());
    o.streams[0].avg_frame_rate = Some("0/0".into());
    o.format.duration = Some(Binary64 { bits: (-1.0f64).to_bits() });
    let vp = video_properties(o).unwrap();
    assert!(vp.bitrate.is_none(), "the stream's own bitrate counts, though it is unusable");
    assert!(vp.framerate.is_none());
    assert!(vp.duration.is_none());

    let mut o = plain_output();
    o.format.bit_rate = Some("9".into());
    o.format.duration = Some(Binary64 { bits: 2.5f64.to_bits() });
    let vp = video_properties(o).unwrap();
    assert_eq!(vp.bitrate.unwrap().as_bps(), 9);
    assert_eq!(vp.duration.unwrap().as_secs().bits, 2.5f64.to_bits());
}

fn colored_stream() -> FfprobeStream {
    let mut s = plain_stream();
    s.color_primaries = Some("a".into());
    s.color_transfer = Some("b".into());
    s.color_space = Some("c".into());
    s
}

#[test]
fn incomplete_light_levels_spoil_the_color_metadata() {
    let mut s = colored_stream();
    let sd = |json: &str| side_data(&serde_json::from_str(json).unwrap());
    s.side_data_list.push(sd(
        r#"{"side_data_type": "Content light level metadata", "max_content": 1}"#,
    ));
    assert!(extract_color_metadata(&s).is_none());
}

#[test]
fn incomplete_mastering_display_is_dropped() {
    let mut s = colored_stream();
    let sd = |json: &str| side_data(&serde_json::from_str(json).unwrap());
    s.side_data_list.push(sd(
        r#"{"side_data_type": "Mastering display metadata", "red_x": "1/50000"}"#,
    ));
    let c = extract_color_metadata(&s).unwrap();
    assert_eq!((c.color_primaries.as_str(), c.color_trc.as_str(), c.colorspace.as_str()), ("a", "b", "c"));
    assert!(c.master_display.is_none() && c.max_cll.is_none());
    s.color_space = None;
    assert!(extract_color_metadata(&s).is_none());
}

#[test]
fn fractions() {
    assert_eq!(parse_fraction_num("34000/50000", 50000), Some(34000));
    assert_eq!(parse_fraction_num("34000/50001", 50000), None);
    assert_eq!(parse_fraction_num("34000", 50000), None);
    assert_eq!(parse_fraction_num("x/50000", 50000), None);
    assert_eq!(parse_fraction_num("1/50000/1", 50000), None);
}

#[test]
fn runs_of_ffprobe() {
    assert!(matches!(
        probe_result(ProbeRun::NotStarted("no such file".into())),
        Err(FfprobeError::SpawnFailed(s)) if s == "no such file"
    ));
    assert!(matches!(
        probe_result(ProbeRun::Failed(Some(1))),
        Err(FfprobeError::ProcessFailed(Some(1)))
    ));
    assert!(matches!(
        probe_result(ProbeRun::BadOutput("eof".into())),
        Err(FfprobeError::InvalidOutput(s)) if s == "eof"
    ));
    assert_eq!(probe_result(ProbeRun::Probed(plain_output())).unwrap().size_bytes.as_u64(), 7);
}
