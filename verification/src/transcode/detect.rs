//! Choosing an encoder.
use vstd::prelude::*;
use vstd::string::*;

use crate::text::same_text;
use crate::transcode::encoder::Encoder;
use crate::transcode::error::DetectError;

verus! {

/// The encoders in the order in which they are tried.
pub open spec fn candidates() -> Seq<Encoder> {
    seq![Encoder::Nvenc, Encoder::VideoToolbox, Encoder::Libx265]
}

/// The name of an encoder in ffmpeg.
pub open spec fn codec_of(encoder: Encoder) -> Seq<char> {
    match encoder {
        Encoder::Nvenc => "hevc_nvenc"@,
        Encoder::VideoToolbox => "hevc_videotoolbox"@,
        Encoder::Libx265 => "libx265"@,
    }
}

/// The arguments with which ffmpeg tries an encoder on a short test picture.
pub fn test_encoder_args(encoder: Encoder) -> (r: Vec<String>)
    ensures
        crate::text::texts(r@) == seq![
            "-f"@,
            "lavfi"@,
            "-i"@,
            "testsrc=duration=0.1"@,
            "-c:v"@,
            codec_of(encoder),
            "-f"@,
            "null"@,
            "-"@,
        ],
{
    let codec = match encoder {
        Encoder::Nvenc => "hevc_nvenc",
        Encoder::VideoToolbox => "hevc_videotoolbox",
        Encoder::Libx265 => "libx265",
    };
    let mut args: Vec<String> = Vec::new();
    args.push("-f".to_owned());
    args.push("lavfi".to_owned());
    args.push("-i".to_owned());
    args.push("testsrc=duration=0.1".to_owned());
    args.push("-c:v".to_owned());
    args.push(codec.to_owned());
    args.push("-f".to_owned());
    args.push("null".to_owned());
    args.push("-".to_owned());
    assert(crate::text::texts(args@) =~= seq![
        "-f"@,
        "lavfi"@,
        "-i"@,
        "testsrc=duration=0.1"@,
        "-c:v"@,
        codec_of(encoder),
        "-f"@,
        "null"@,
        "-"@,
    ]);
    args
}

/// The encoder that the configuration asks for: none for `auto`.
pub fn configured_encoder(name: &str) -> (r: Result<Option<Encoder>, String>)
    ensures
        match r {
            Ok(None) => name@ == "auto"@,
            Ok(Some(e)) => name@ != "auto"@ && name@ == e.name(),
            Err(t) => name@ != "auto"@ && (forall|e: Encoder|
                #![trigger e.name()]
                name@ != e.name()) && t@
                == "invalid TRANSCODE_ENCODER: "@ + name@,
        },
{
    if same_text(name, "auto") {
        return Ok(None);
    }
    match Encoder::from_env_override(Some(name)) {
        Some(e) => Ok(Some(e)),
        None => Err("invalid TRANSCODE_ENCODER: ".to_owned().concat(name)),
    }
}

/// How far the choice has come.
#[derive(Debug)]
pub enum Detection {
    /// This encoder is to be tried.
    Trying(Encoder),
    Chosen(Result<Encoder, DetectError>),
}

/// Begins the choice: an encoder that was asked for is taken untried.
pub fn detect_encoder(override_enc: Option<Encoder>) -> (r: Detection)
    ensures
        match override_enc {
            Some(e) => r == Detection::Chosen(Ok(e)),
            None => r == Detection::Trying(candidates()[0]),
        },
{
    match override_enc {
        Some(e) => Detection::Chosen(Ok(e)),
        None => Detection::Trying(Encoder::Nvenc),
    }
}

/// How the choice goes on after an encoder was tried: one that works is taken,
/// after one that does not the next is tried, and where ffmpeg cannot be
/// started there is no choice.
pub open spec fn detection_next(tried: Encoder, result: Result<bool, String>) -> Detection {
    match result {
        Ok(true) => Detection::Chosen(Ok(tried)),
        Ok(false) => match tried {
            Encoder::Nvenc => Detection::Trying(Encoder::VideoToolbox),
            Encoder::VideoToolbox => Detection::Trying(Encoder::Libx265),
            Encoder::Libx265 => Detection::Chosen(Err(DetectError::NoEncoderAvailable)),
        },
        Err(e) => Detection::Chosen(Err(DetectError::FfmpegSpawn(e))),
    }
}

/// Takes the result of trying an encoder.
pub fn advance_detection(tried: Encoder, result: Result<bool, String>) -> (r: Detection)
    ensures
        r == detection_next(tried, result),
{
    match result {
        Ok(true) => Detection::Chosen(Ok(tried)),
        Ok(false) => match tried {
            Encoder::Nvenc => Detection::Trying(Encoder::VideoToolbox),
            Encoder::VideoToolbox => Detection::Trying(Encoder::Libx265),
            Encoder::Libx265 => Detection::Chosen(Err(DetectError::NoEncoderAvailable)),
        },
        Err(e) => Detection::Chosen(Err(DetectError::FfmpegSpawn(e))),
    }
}

/// What is chosen when the encoders from the `i`th on are tried in turn, where
/// `works` says of each whether it works.
pub open spec fn detected(i: nat, works: spec_fn(Encoder) -> bool) -> Detection
    decreases 3 - i,
{
    if i >= 3 {
        Detection::Chosen(Err(DetectError::NoEncoderAvailable))
    } else {
        match detection_next(candidates()[i as int], Ok(works(candidates()[i as int]))) {
            Detection::Trying(_) => detected(i + 1, works),
            chosen => chosen,
        }
    }
}

/// The first encoder that works is chosen, and none only where none works.
pub proof fn law_first_working_encoder(works: spec_fn(Encoder) -> bool)
    ensures
        match detected(0, works) {
            Detection::Chosen(Ok(e)) => exists|k: int|
                0 <= k < 3 && #[trigger] candidates()[k] == e && works(e) && forall|j: int|
                    0 <= j < k ==> !works(#[trigger] candidates()[j]),
            Detection::Chosen(Err(e)) => e is NoEncoderAvailable && forall|j: int|
                0 <= j < 3 ==> !works(#[trigger] candidates()[j]),
            Detection::Trying(_) => false,
        },
{
    reveal_with_fuel(detected, 4);
    let c = candidates();
    assert(c[0] == Encoder::Nvenc && c[1] == Encoder::VideoToolbox && c[2] == Encoder::Libx265);
}

/// An encoder is tried on a short test picture under its name in ffmpeg, and
/// what comes out is thrown away.
pub proof fn law_encoders_are_tried_by_name(encoder: Encoder, r: Vec<String>)
    requires
        call_ensures(test_encoder_args, (encoder,), r),
    ensures
        r@.len() == 9,
        r@[0]@ == "-f"@ && r@[1]@ == "lavfi"@ && r@[2]@ == "-i"@ && r@[3]@
            == "testsrc=duration=0.1"@,
        r@[4]@ == "-c:v"@,
        encoder is Nvenc ==> r@[5]@ == "hevc_nvenc"@,
        encoder is VideoToolbox ==> r@[5]@ == "hevc_videotoolbox"@,
        encoder is Libx265 ==> r@[5]@ == "libx265"@,
        r@[6]@ == "-f"@ && r@[7]@ == "null"@ && r@[8]@ == "-"@,
{
    crate::text::lemma_texts(r@);
}

/// The configured encoder: `auto` leaves the choice open, the three names
/// choose, and any other name is refused and told.
pub proof fn law_configured_encoder(name: &str, r: Result<Option<Encoder>, String>)
    requires
        call_ensures(configured_encoder, (name,), r),
    ensures
        name@ == "auto"@ ==> r == Ok::<Option<Encoder>, String>(None),
        name@ == "nvenc"@ ==> r == Ok::<Option<Encoder>, String>(Some(Encoder::Nvenc)),
        name@ == "videotoolbox"@ ==> r == Ok::<Option<Encoder>, String>(
            Some(Encoder::VideoToolbox),
        ),
        name@ == "libx265"@ ==> r == Ok::<Option<Encoder>, String>(Some(Encoder::Libx265)),
        name@ != "auto"@ && name@ != "nvenc"@ && name@ != "videotoolbox"@ && name@ != "libx265"@
            ==> (r matches Err(t) && t@ == "invalid TRANSCODE_ENCODER: "@ + name@),
{
    reveal_strlit("auto");
    reveal_strlit("nvenc");
    reveal_strlit("videotoolbox");
    reveal_strlit("libx265");
    assert("auto"@.len() == 4 && "nvenc"@.len() == 5 && "videotoolbox"@.len() == 12
        && "libx265"@.len() == 7);
    assert(Encoder::Nvenc.name() == "nvenc"@);
    assert(Encoder::VideoToolbox.name() == "videotoolbox"@);
    assert(Encoder::Libx265.name() == "libx265"@);
}

/// How the choice goes on: an encoder that was asked for is taken without a
/// trial; otherwise NVENC, VideoToolbox and libx265 are tried in this order,
/// the first that works is taken, and where ffmpeg cannot be started, or none
/// works, that is told.
pub proof fn law_order_of_trials(
    asked: Option<Encoder>,
    first: Detection,
    tried: Encoder,
    result: Result<bool, String>,
    next: Detection,
)
    requires
        call_ensures(detect_encoder, (asked,), first),
        call_ensures(advance_detection, (tried, result), next),
    ensures
        asked matches Some(e) ==> first == Detection::Chosen(Ok(e)),
        asked is None ==> first == Detection::Trying(Encoder::Nvenc),
        result == Ok::<bool, String>(true) ==> next == Detection::Chosen(Ok(tried)),
        result == Ok::<bool, String>(false) && tried is Nvenc ==> next == Detection::Trying(
            Encoder::VideoToolbox,
        ),
        result == Ok::<bool, String>(false) && tried is VideoToolbox ==> next == Detection::Trying(
            Encoder::Libx265,
        ),
        result == Ok::<bool, String>(false) && tried is Libx265 ==> next == Detection::Chosen(
            Err(DetectError::NoEncoderAvailable),
        ),
        result matches Err(e) ==> next == Detection::Chosen(Err(DetectError::FfmpegSpawn(e))),
{
}

} // verus!
