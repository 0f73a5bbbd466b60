use rankoder::binary::Binary64;
use rankoder::models::event::MediaEvent;
use rankoder::models::transcode::SkipReason;
use rankoder::record::{Member, ReadMember, Reading, Written};
use serde_json::{Number, Value};

fn to_json(record: &[Member]) -> Value {
    let mut object = serde_json::Map::new();
    for m in record {
        let value = match &m.value {
            Written::Null => Value::Null,
            Written::Text(s) => Value::String(s.clone()),
            Written::Count(n) => Value::Number(Number::from(*n)),
            Written::Number(x) => Value::Number(Number::from_f64(f64::from_bits(x.bits)).unwrap()),
        };
        object.insert(m.name.clone(), value);
    }
    Value::Object(object)
}

fn from_json(value: &Value) -> Vec<ReadMember> {
    let mut record = Vec::new();
    for (name, value) in value.as_object().unwrap() {
        let value = match value {
            Value::Null => Reading::Null,
            Value::String(s) => Reading::Text(s.clone()),
            Value::Number(n) => Reading::Number {
                count: n.as_u64(),
                number: Binary64 { bits: n.as_f64().unwrap().to_bits() },
            },
            _ => Reading::Other,
        };
        record.push(ReadMember { name: name.clone(), value });
    }
    record
}

fn through_text(event: &MediaEvent) -> Option<MediaEvent> {
    let json = to_json(&event.to_record()).to_string();
    let back: Value = serde_json::from_str(&json).unwrap();
    MediaEvent::from_record(&from_json(&back))
}

fn number(x: f64) -> Binary64 {
    Binary64 { bits: x.to_bits() }
}

#[test]
fn discovered_serializes_with_snake_case_type_tag() {
    let event = MediaEvent::Discovered { source: "jellyfin".into() };
    let json = to_json(&event.to_record());
    let mut expected = serde_json::Map::new();
    expected.insert("type".into(), Value::String("discovered".into()));
    expected.insert("source".into(), Value::String("jellyfin".into()));
    assert_eq!(json, Value::Object(expected));
}

#[test]
fn discovered_round_trips() {
    let event = MediaEvent::Discovered { source: "jellyfin".into() };
    assert_eq!(through_text(&event), Some(event));
}

#[test]
fn every_event_round_trips() {
    let events = vec![
        MediaEvent::Probed,
        MediaEvent::ProbeFailed { error: "no video".into() },
        MediaEvent::Analyzed { bpp: number(0.125), compression_potential: number(2.0), crf: 255 },
        MediaEvent::Skipped {
            reason: SkipReason::InsufficientCompressionPotential,
            bpp: Some(number(0.05)),
            compression_potential: Some(number(0.5)),
        },
        MediaEvent::Skipped {
            reason: SkipReason::DolbyVision,
            bpp: None,
            compression_potential: None,
        },
        MediaEvent::PendingApproval,
        MediaEvent::ApprovalGranted,
        MediaEvent::ApprovalRejected,
        MediaEvent::Transcoded { original_size: u64::MAX, new_size: 1 },
        MediaEvent::TranscodeFailed { error: "swap failed: x".into() },
    ];
    for event in events {
        assert_eq!(through_text(&event), Some(event));
    }
}

#[test]
fn skipped_writes_null_for_missing_numbers() {
    let event = MediaEvent::Skipped {
        reason: SkipReason::QualityTooLow,
        bpp: None,
        compression_potential: None,
    };
    let json = to_json(&event.to_record());
    assert_eq!(json.get("type"), Some(&Value::String("skipped".into())));
    assert_eq!(json.get("reason"), Some(&Value::String("quality_too_low".into())));
    assert_eq!(json.get("bpp"), Some(&Value::Null));
}

#[test]
fn records_that_are_no_event() {
    let text = |s: &str| Reading::Text(s.into());
    let with = |members: Vec<(&str, Reading)>| {
        let r = members
            .into_iter()
            .map(|(name, value)| ReadMember { name: name.into(), value })
            .collect();
        MediaEvent::from_record(&r)
    };
    assert_eq!(with(vec![]), None);
    assert_eq!(with(vec![("type", text("unheard_of"))]), None);
    assert_eq!(with(vec![("type", Reading::Null)]), None);
    assert_eq!(with(vec![("type", text("discovered"))]), None);
    assert_eq!(with(vec![("type", text("skipped")), ("reason", text("boredom"))]), None);
    assert_eq!(
        with(vec![
            ("type", text("analyzed")),
            ("bpp", Reading::Number { count: None, number: number(0.5) }),
            ("compression_potential", Reading::Number { count: None, number: number(0.5) }),
            ("crf", Reading::Number { count: Some(256), number: number(256.0) }),
        ]),
        None
    );
    assert_eq!(
        with(vec![("type", text("skipped")), ("reason", text("file_too_small"))]),
        Some(MediaEvent::Skipped {
            reason: SkipReason::FileTooSmall,
            bpp: None,
            compression_potential: None,
        })
    );
}

#[test]
fn skip_reason_names_are_read_back() {
    for reason in [
        SkipReason::ExcludedCodec,
        SkipReason::FileTooSmall,
        SkipReason::AlreadyCompressed,
        SkipReason::InsufficientCompressionPotential,
        SkipReason::MissingProbeData,
        SkipReason::InsufficientSizeReduction,
        SkipReason::QualityTooLow,
        SkipReason::DolbyVision,
    ] {
        assert_eq!(SkipReason::from_name(reason.as_str()), Some(reason));
    }
}
