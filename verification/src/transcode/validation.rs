//! Whether an encoded file is what was asked for.
use vstd::prelude::*;
use vstd::string::*;

use crate::binary::Binary64;
use crate::decimal::{parse_u64, signed_text};
use crate::models::media_file::SizeBytes;
use crate::models::video::{read_bitrate, Bitrate, DurationSecs};
use crate::text::same_text;
use crate::transcode::error::ValidationError;

verus! {

/// What is kept of an encoded file that was accepted.
#[derive(Clone, Copy, Debug, PartialEq, Eq, Structural)]
pub struct ValidatedOutput {
    pub size_bytes: SizeBytes,
    pub bitrate: Option<Bitrate>,
}

/// What ffprobe tells of an encoded file.
#[derive(Debug)]
pub struct RawProbe {
    pub streams: Vec<RawStream>,
    pub format: Option<RawFormat>,
}

/// What ffprobe tells of a stream.
#[derive(Debug)]
pub struct RawStream {
    pub codec_type: String,
    pub codec_name: Option<String>,
    pub bit_rate: Option<String>,
    pub disposition: RawDisposition,
}

/// What a stream is for.
#[derive(Clone, Copy, Debug, PartialEq, Eq, Structural)]
pub struct RawDisposition {
    pub attached_pic: Option<u8>,
}

/// What ffprobe tells of the container.
#[derive(Debug)]
pub struct RawFormat {
    /// The number that the duration's text stands for, where it stands for one.
    pub duration: Option<Binary64>,
    pub size: Option<String>,
    pub bit_rate: Option<String>,
}

impl RawStream {
    /// Whether this is a still picture, such as a cover.
    pub open spec fn is_picture(self) -> bool {
        self.disposition.attached_pic == Some(1u8)
    }

    /// Whether this is a video and no still picture.
    pub open spec fn is_video(self) -> bool {
        self.codec_type@ == "video"@ && !self.is_picture()
    }

    pub fn is_attached_pic(&self) -> (r: bool)
        ensures
            r == self.is_picture(),
    {
        match self.disposition.attached_pic {
            Some(n) => n == 1,
            None => false,
        }
    }
}

/// Whether the stream at `i` is the first that is a video.
pub open spec fn is_first_video(streams: Seq<RawStream>, i: int) -> bool {
    &&& 0 <= i < streams.len()
    &&& streams[i].is_video()
    &&& forall|j: int| 0 <= j < i ==> !(#[trigger] streams[j]).is_video()
}

/// The position of the first video stream.
pub open spec fn first_video(streams: Seq<RawStream>) -> Option<int> {
    if exists|i: int| is_first_video(streams, i) {
        Some(choose|i: int| is_first_video(streams, i))
    } else {
        None
    }
}

/// The duration that a container states, where it is a valid one.
pub open spec fn stated_duration(f: RawFormat) -> Option<Binary64> {
    match f.duration {
        Some(d) => if crate::models::video::is_duration(d) {
            Some(d)
        } else {
            None
        },
        None => None,
    }
}

/// The size that a container states, where it is a number other than zero.
pub open spec fn stated_size(f: RawFormat) -> Option<int> {
    crate::models::video::bitrate_read(crate::text::text_of(f.size))
}

/// The size and the bitrate of an encoded file that is accepted, or why it is
/// refused. A file is accepted where its first video stream is HEVC, its size
/// is known, and its duration, where both are known, differs from the
/// original's by no more than the tolerance. `drift` is that difference.
pub open spec fn validated(
    raw: RawProbe,
    original_duration: Option<Binary64>,
    drift: Binary64,
    tolerance: Binary64,
) -> Result<(int, Option<int>), crate::transcode::error::ValidationErrorView> {
    match first_video(raw.streams@) {
        None => Err(
            crate::transcode::error::ValidationErrorView::FfprobeFailed("no video stream"@),
        ),
        Some(i) => if crate::text::text_of(raw.streams@[i].codec_name) != Some("hevc"@) {
            Err(crate::transcode::error::ValidationErrorView::WrongCodec)
        } else {
            match raw.format {
                None => Err(
                    crate::transcode::error::ValidationErrorView::FfprobeFailed(
                        "no format section"@,
                    ),
                ),
                Some(f) => match stated_size(f) {
                    None => Err(
                        crate::transcode::error::ValidationErrorView::FfprobeFailed(
                            "missing size bytes"@,
                        ),
                    ),
                    Some(size) => match (original_duration, stated_duration(f)) {
                        (Some(original), Some(new)) => if tolerance.below(drift) {
                            Err(
                                crate::transcode::error::ValidationErrorView::DurationMismatch {
                                    original,
                                    new,
                                },
                            )
                        } else {
                            Ok((size, output_bitrate(raw.streams@[i], f)))
                        },
                        _ => Ok((size, output_bitrate(raw.streams@[i], f))),
                    },
                },
            }
        },
    }
}

/// The bitrate of an encoded file: the stream's, or else the container's.
pub open spec fn output_bitrate(s: RawStream, f: RawFormat) -> Option<int> {
    crate::models::video::bitrate_read(
        crate::models::video::first_text(s.bit_rate, f.bit_rate),
    )
}

/// The position of the first video stream.
fn find_video(streams: &Vec<RawStream>) -> (r: Option<usize>)
    ensures
        match r {
            Some(i) => is_first_video(streams@, i as int) && first_video(streams@) == Some(
                i as int,
            ),
            None => first_video(streams@) is None,
        },
{
    let mut i: usize = 0;
    while i < streams.len()
        invariant
            i <= streams.len(),
            forall|j: int| 0 <= j < i ==> !(#[trigger] streams@[j]).is_video(),
        decreases streams.len() - i,
    {
        if same_text(streams[i].codec_type.as_str(), "video") && !streams[i].is_attached_pic() {
            proof {
                assert(is_first_video(streams@, i as int));
                let k = choose|k: int| is_first_video(streams@, k);
                assert(is_first_video(streams@, k));
                assert(k == i) by {
                    if k < i {
                        assert(!streams@[k].is_video());
                    } else if i < k {
                        assert(!streams@[i as int].is_video());
                    }
                }
            }
            return Some(i);
        }
        i = i + 1;
    }
    None
}

/// Checks what ffprobe tells of an encoded file. `drift` is the difference
/// between the original's duration and the one that `raw` states; it is read
/// only where both are known.
pub fn parse_probe_output(
    raw: &RawProbe,
    original_duration: Option<Binary64>,
    drift: Binary64,
    tolerance_secs: Binary64,
) -> (r: Result<ValidatedOutput, ValidationError>)
    ensures
        match r {
            Ok(v) => validated(*raw, original_duration, drift, tolerance_secs) == Ok::<
                (int, Option<int>),
                crate::transcode::error::ValidationErrorView,
            >((v.size_bytes.bytes() as int, crate::models::video::bps_of(v.bitrate))),
            Err(e) => validated(*raw, original_duration, drift, tolerance_secs) == Err::<
                (int, Option<int>),
                crate::transcode::error::ValidationErrorView,
            >(e@),
        },
{
    let i: usize = match find_video(&raw.streams) {
        Some(i) => i,
        None => {
            return Err(ValidationError::FfprobeFailed("no video stream".to_owned()));
        },
    };
    let stream = &raw.streams[i];
    let is_hevc = match &stream.codec_name {
        Some(name) => same_text(name.as_str(), "hevc"),
        None => false,
    };
    if !is_hevc {
        return Err(ValidationError::WrongCodec);
    }
    let format = match &raw.format {
        Some(f) => f,
        None => {
            return Err(ValidationError::FfprobeFailed("no format section".to_owned()));
        },
    };
    let duration = match format.duration {
        Some(d) => match DurationSecs::new(d) {
            Ok(d) => Some(d.as_secs()),
            Err(_) => None,
        },
        None => None,
    };
    let size = match &format.size {
        Some(s) => match parse_u64(s.as_str()) {
            Some(n) => match SizeBytes::new(n) {
                Ok(size) => Some(size),
                Err(_) => None,
            },
            None => None,
        },
        None => None,
    };
    let size_bytes = match size {
        Some(s) => s,
        None => {
            return Err(ValidationError::FfprobeFailed("missing size bytes".to_owned()));
        },
    };
    let bitrate = read_bitrate(&stream.bit_rate, &format.bit_rate);
    if let (Some(original), Some(new)) = (original_duration, duration) {
        if tolerance_secs.lt(drift) {
            return Err(ValidationError::DurationMismatch { original, new });
        }
    }
    Ok(ValidatedOutput { size_bytes, bitrate })
}

/// How a check of an encoded file went.
#[derive(Debug)]
pub enum OutputProbe {
    NoFile,
    NotStarted(String),
    Failed { code: Option<i32>, stderr: String },
    /// The output is no JSON of the expected form.
    BadOutput(String),
    Probed(RawProbe),
}

/// An exit code as it is printed for debugging.
pub open spec fn code_text(code: Option<i32>) -> Seq<char> {
    match code {
        Some(n) => "Some("@ + crate::decimal::signed_digits(n as int) + ")"@,
        None => "None"@,
    }
}

/// Checks an encoded file.
pub fn validate_output(
    probe: OutputProbe,
    original_duration: Option<Binary64>,
    drift: Binary64,
    tolerance_secs: Binary64,
) -> (r: Result<ValidatedOutput, ValidationError>)
    ensures
        match probe {
            OutputProbe::NoFile => r matches Err(e) && e@
                == crate::transcode::error::ValidationErrorView::FfprobeFailed(
                "output file does not exist"@,
            ),
            OutputProbe::NotStarted(t) => r matches Err(e) && e@
                == crate::transcode::error::ValidationErrorView::FfprobeFailed(t@),
            OutputProbe::Failed { code, stderr } => r matches Err(e) && e@
                == crate::transcode::error::ValidationErrorView::FfprobeFailed(
                "ffprobe exit code "@ + code_text(code) + ": "@ + stderr@,
            ),
            OutputProbe::BadOutput(t) => r matches Err(e) && e@
                == crate::transcode::error::ValidationErrorView::FfprobeFailed(
                "invalid ffprobe JSON: "@ + t@,
            ),
            OutputProbe::Probed(raw) => match r {
                Ok(v) => validated(raw, original_duration, drift, tolerance_secs) == Ok::<
                    (int, Option<int>),
                    crate::transcode::error::ValidationErrorView,
                >((v.size_bytes.bytes() as int, crate::models::video::bps_of(v.bitrate))),
                Err(e) => validated(raw, original_duration, drift, tolerance_secs) == Err::<
                    (int, Option<int>),
                    crate::transcode::error::ValidationErrorView,
                >(e@),
            },
        },
{
    match probe {
        OutputProbe::NoFile => Err(
            ValidationError::FfprobeFailed("output file does not exist".to_owned()),
        ),
        OutputProbe::NotStarted(t) => Err(ValidationError::FfprobeFailed(t)),
        OutputProbe::Failed { code, stderr } => {
            let code = match code {
                Some(n) => {
                    let n = signed_text(n as i64);
                    "Some(".to_owned().concat(n.as_str()).concat(")")
                },
                None => "None".to_owned(),
            };
            Err(
                ValidationError::FfprobeFailed(
                    "ffprobe exit code ".to_owned().concat(code.as_str()).concat(": ").concat(
                        stderr.as_str(),
                    ),
                ),
            )
        },
        OutputProbe::BadOutput(t) => Err(
            ValidationError::FfprobeFailed("invalid ffprobe JSON: ".to_owned().concat(t.as_str())),
        ),
        OutputProbe::Probed(raw) => parse_probe_output(
            &raw,
            original_duration,
            drift,
            tolerance_secs,
        ),
    }
}

/// An accepted file is HEVC.
pub proof fn law_accepted_output_is_hevc(
    raw: RawProbe,
    original_duration: Option<Binary64>,
    drift: Binary64,
    tolerance: Binary64,
)
    requires
        validated(raw, original_duration, drift, tolerance) is Ok,
    ensures
        first_video(raw.streams@) matches Some(i) && crate::text::text_of(
            raw.streams@[i].codec_name,
        ) == Some("hevc"@),
{
}

/// When an encoded file is accepted: its first stream that is a video and no
/// still picture, at whatever position it stands, is HEVC; its size is stated
/// as a number other than zero; and where both durations are known they differ
/// by no more than the tolerance, whichever is the greater. Otherwise it is
/// refused, for the first of these that fails.
pub proof fn law_when_an_output_is_accepted(
    raw: RawProbe,
    original_duration: Option<Binary64>,
    drift: Binary64,
    tolerance: Binary64,
    r: Result<ValidatedOutput, ValidationError>,
    i: int,
    text: &str,
    size: Option<u64>,
)
    requires
        call_ensures(parse_probe_output, (&raw, original_duration, drift, tolerance), r),
        call_ensures(parse_u64, (text,), size),
    ensures
        (forall|j: int|
            0 <= j < raw.streams@.len() ==> !((#[trigger] raw.streams@[j]).codec_type@ == "video"@
                && raw.streams@[j].disposition.attached_pic != Some(1u8))) ==> (
        r matches Err(ValidationError::FfprobeFailed(t)) && t@ == "no video stream"@),
        0 <= i < raw.streams@.len() && raw.streams@[i].codec_type@ == "video"@
            && raw.streams@[i].disposition.attached_pic != Some(1u8) && (forall|j: int|
            0 <= j < i ==> !((#[trigger] raw.streams@[j]).codec_type@ == "video"@
                && raw.streams@[j].disposition.attached_pic != Some(1u8))) ==> {
            let hevc = raw.streams@[i].codec_name is Some && raw.streams@[i].codec_name->0@
                == "hevc"@;
            &&& !hevc <==> (r matches Err(e) && e is WrongCodec)
            &&& hevc && raw.format is None ==> (r matches Err(ValidationError::FfprobeFailed(t))
                && t@ == "no format section"@)
            &&& hevc && raw.format is Some && raw.format->0.size is None ==> (
            r matches Err(ValidationError::FfprobeFailed(t)) && t@ == "missing size bytes"@)
            &&& hevc && raw.format is Some && raw.format->0.size is Some && raw.format->0.size->0@
                == text@ && (size is None || size == Some(0u64)) ==> (
            r matches Err(ValidationError::FfprobeFailed(t)) && t@ == "missing size bytes"@)
            &&& hevc && raw.format is Some && raw.format->0.size is Some && raw.format->0.size->0@
                == text@ && size is Some && size->0 > 0 ==> {
                let stated = raw.format->0.duration;
                let both = original_duration is Some && stated is Some && 0 < stated->0.bits
                    < 0x7ff0_0000_0000_0000;
                &&& r is Err <==> both && tolerance.below(drift)
                &&& r is Err ==> r == Err::<ValidatedOutput, ValidationError>(
                    ValidationError::DurationMismatch {
                        original: original_duration->0,
                        new: stated->0,
                    },
                )
                &&& r matches Ok(v) ==> v.size_bytes.bytes() == size->0
            }
        },
{
    let streams = raw.streams@;
    if 0 <= i < streams.len() && is_first_video(streams, i) {
        let k = choose|k: int| is_first_video(streams, k);
        assert(is_first_video(streams, k));
        assert(k == i) by {
            if k < i {
                assert(!streams[k].is_video());
            } else if i < k {
                assert(!streams[i].is_video());
            }
        }
    }
    if 0 <= i < streams.len() && streams[i].codec_type@ == "video"@
        && streams[i].disposition.attached_pic != Some(1u8) && (forall|j: int|
        0 <= j < i ==> !((#[trigger] streams[j]).codec_type@ == "video"@
            && streams[j].disposition.attached_pic != Some(1u8))) {
        assert(streams[i].is_video());
        assert(is_first_video(streams, i));
    }
    if exists|k: int| is_first_video(streams, k) {
        let k = choose|k: int| is_first_video(streams, k);
        assert(streams[k].is_video());
    }
    if let Some(f) = raw.format {
        if let Some(d) = f.duration {
            crate::rounding::lemma_zero();
            crate::binary::lemma_magnitude_zero(52);
            if d.unsigned_bits() > 0 {
                crate::binary::lemma_magnitude_order(0, d.unsigned_bits(), 52);
            }
        }
    }
}

/// An accepted file whose duration and whose original's duration are known has
/// a drift that does not exceed the tolerance; and one that would be accepted
/// but for its drift is refused for its duration.
pub proof fn law_drift_is_within_tolerance(
    raw: RawProbe,
    original: Binary64,
    drift: Binary64,
    small: Binary64,
    tolerance: Binary64,
    r: Result<ValidatedOutput, ValidationError>,
    better: Result<ValidatedOutput, ValidationError>,
)
    requires
        call_ensures(parse_probe_output, (&raw, Some(original), drift, tolerance), r),
        call_ensures(parse_probe_output, (&raw, Some(original), small, tolerance), better),
        raw.format is Some && raw.format->0.duration is Some && 0 < raw.format->0.duration->0.bits
            < 0x7ff0_0000_0000_0000,
        !tolerance.below(small),
    ensures
        r is Ok ==> !tolerance.below(drift),
        better is Ok && tolerance.below(drift) ==> r == Err::<ValidatedOutput, ValidationError>(
            ValidationError::DurationMismatch { original, new: raw.format->0.duration->0 },
        ),
        better is Ok && !tolerance.below(drift) ==> r is Ok,
{
    let d = raw.format->0.duration->0;
    crate::rounding::lemma_zero();
    crate::binary::lemma_magnitude_zero(52);
    if d.unsigned_bits() > 0 {
        crate::binary::lemma_magnitude_order(0, d.unsigned_bits(), 52);
    }
}

/// The bitrate of an accepted file is that of its video stream where that
/// states one, and that of its container otherwise.
pub proof fn law_bitrate_of_an_output(
    raw: RawProbe,
    original_duration: Option<Binary64>,
    drift: Binary64,
    tolerance: Binary64,
    v: ValidatedOutput,
    i: int,
    bitrate: Option<Bitrate>,
)
    requires
        call_ensures(parse_probe_output, (&raw, original_duration, drift, tolerance), Ok(v)),
        0 <= i < raw.streams@.len(),
        raw.streams@[i].codec_type@ == "video"@ && raw.streams@[i].disposition.attached_pic
            != Some(1u8),
        forall|j: int|
            0 <= j < i ==> !((#[trigger] raw.streams@[j]).codec_type@ == "video"@
                && raw.streams@[j].disposition.attached_pic != Some(1u8)),
        raw.format is Some,
        call_ensures(
            read_bitrate,
            (&raw.streams@[i].bit_rate, &raw.format->0.bit_rate),
            bitrate,
        ),
    ensures
        crate::models::video::bps_of(v.bitrate) == crate::models::video::bps_of(bitrate),
{
    let streams = raw.streams@;
    assert(streams[i].is_video());
    assert(is_first_video(streams, i));
    let k = choose|k: int| is_first_video(streams, k);
    assert(is_first_video(streams, k));
    assert(k == i) by {
        if k < i {
            assert(!streams[k].is_video());
        } else if i < k {
            assert(!streams[i].is_video());
        }
    }
}

/// A check that gave no output refuses the file and tells why, and one that did
/// is what is made of its output.
pub proof fn law_checks_that_went_wrong(
    text: String,
    code: Option<i32>,
    raw: RawProbe,
    original_duration: Option<Binary64>,
    drift: Binary64,
    tolerance: Binary64,
    none: Result<ValidatedOutput, ValidationError>,
    not_started: Result<ValidatedOutput, ValidationError>,
    failed: Result<ValidatedOutput, ValidationError>,
    unreadable: Result<ValidatedOutput, ValidationError>,
    probed: Result<ValidatedOutput, ValidationError>,
    made: Result<ValidatedOutput, ValidationError>,
)
    requires
        call_ensures(
            validate_output,
            (OutputProbe::NoFile, original_duration, drift, tolerance),
            none,
        ),
        call_ensures(
            validate_output,
            (OutputProbe::NotStarted(text), original_duration, drift, tolerance),
            not_started,
        ),
        call_ensures(
            validate_output,
            (
                OutputProbe::Failed { code, stderr: text },
                original_duration,
                drift,
                tolerance,
            ),
            failed,
        ),
        call_ensures(
            validate_output,
            (OutputProbe::BadOutput(text), original_duration, drift, tolerance),
            unreadable,
        ),
        call_ensures(
            validate_output,
            (OutputProbe::Probed(raw), original_duration, drift, tolerance),
            probed,
        ),
        call_ensures(parse_probe_output, (&raw, original_duration, drift, tolerance), made),
    ensures
        none matches Err(ValidationError::FfprobeFailed(t)) && t@ == "output file does not exist"@,
        not_started matches Err(ValidationError::FfprobeFailed(t)) && t@ == text@,
        failed matches Err(ValidationError::FfprobeFailed(t)) && t@ == "ffprobe exit code "@ + (
        match code {
            Some(n) => "Some("@ + crate::decimal::signed_digits(n as int) + ")"@,
            None => "None"@,
        }) + ": "@ + text@,
        unreadable matches Err(ValidationError::FfprobeFailed(t)) && t@ == "invalid ffprobe JSON: "@
            + text@,
        probed is Ok <==> made is Ok,
        probed is Err && made is Err ==> probed->Err_0@ == made->Err_0@,
        probed is Ok && made is Ok ==> probed->Ok_0.size_bytes.bytes()
            == made->Ok_0.size_bytes.bytes() && crate::models::video::bps_of(probed->Ok_0.bitrate)
            == crate::models::video::bps_of(made->Ok_0.bitrate),
{
}

/// A stream is a still picture exactly where it is marked with 1.
pub proof fn law_still_pictures(s: RawStream, r: bool)
    requires
        call_ensures(RawStream::is_attached_pic, (&s,), r),
    ensures
        r <==> (s.disposition.attached_pic matches Some(n) && n == 1),
{
}

} // verus!
