//! What ffprobe tells of a media file.
use vstd::prelude::*;
use vstd::string::*;

use crate::binary::Binary64;
use crate::decimal::{parse_u32, parse_u64};
use crate::models::error::DomainError;
use crate::models::media_file::SizeBytes;
use crate::models::video::{
    read_bitrate, ColorMetadata, DurationSecs, Framerate, MasterDisplay, MaxCll, Resolution,
    VideoCodec, VideoProperties,
};
use crate::text::{same_text, split_once};

verus! {

/// Why a file could not be probed.
#[derive(Debug)]
pub enum FfprobeError {
    SpawnFailed(String),
    ProcessFailed(Option<i32>),
    InvalidOutput(String),
    NoVideoStream,
    MissingResolution,
    MissingSizeBytes,
    Domain(DomainError),
}

/// The output of ffprobe.
#[derive(Debug)]
pub struct FfprobeOutput {
    pub streams: Vec<FfprobeStream>,
    pub format: FfprobeFormat,
}

/// What a stream carries.
#[derive(Clone, Copy, Debug, PartialEq, Eq, Structural)]
pub enum StreamType {
    Audio,
    Video,
    Subtitle,
    Data,
    Unknown,
}

/// What ffprobe tells of a stream.
#[derive(Debug)]
pub struct FfprobeStream {
    pub codec_type: StreamType,
    pub codec_name: Option<String>,
    pub width: Option<u32>,
    pub height: Option<u32>,
    pub bit_rate: Option<String>,
    pub avg_frame_rate: Option<String>,
    pub color_primaries: Option<String>,
    pub color_transfer: Option<String>,
    pub color_space: Option<String>,
    pub side_data_list: Vec<SideData>,
    pub attached_pic: Option<u8>,
}

/// What ffprobe tells of the container.
#[derive(Debug)]
pub struct FfprobeFormat {
    pub bit_rate: Option<String>,
    pub size: Option<String>,
    /// The number that the duration's text stands for, where it stands for one.
    pub duration: Option<Binary64>,
}

/// What a stream carries beside its frames.
#[derive(Debug)]
pub struct SideData {
    pub side_data_type: String,
    pub red_x: Option<String>,
    pub red_y: Option<String>,
    pub green_x: Option<String>,
    pub green_y: Option<String>,
    pub blue_x: Option<String>,
    pub blue_y: Option<String>,
    pub white_point_x: Option<String>,
    pub white_point_y: Option<String>,
    pub max_luminance: Option<String>,
    pub min_luminance: Option<String>,
    pub max_content: Option<u16>,
    pub max_average: Option<u16>,
    pub dv_profile: Option<u8>,
}

/// The numerator of a fraction `n/d` with that denominator.
pub open spec fn numerator_over(s: Seq<char>, expected_denom: u32) -> Option<int> {
    match crate::text::split_at_first(s, '/') {
        Some((n, d)) => if crate::decimal::unsigned_value(d, u32::MAX as int) == Some(
            expected_denom as int,
        ) {
            crate::decimal::unsigned_value(n, u32::MAX as int)
        } else {
            None
        },
        None => None,
    }
}

/// Reads the numerator of a fraction that must have a given denominator.
pub fn parse_fraction_num(s: &str, expected_denom: u32) -> (r: Option<u32>)
    ensures
        match r {
            Some(n) => numerator_over(s@, expected_denom) == Some(n as int),
            None => numerator_over(s@, expected_denom) is None,
        },
{
    match split_once(s, '/') {
        Some((num, den)) => match parse_u32(den) {
            Some(d) => {
                if d != expected_denom {
                    return None;
                }
                parse_u32(num)
            },
            None => None,
        },
        None => None,
    }
}

/// Two numerators over one denominator.
pub open spec fn pair_over(x: Option<String>, y: Option<String>, denom: u32) -> Option<(u32, u32)> {
    match (x, y) {
        (Some(a), Some(b)) => match (numerator_over(a@, denom), numerator_over(b@, denom)) {
            (Some(m), Some(n)) => Some((m as u32, n as u32)),
            _ => None,
        },
        _ => None,
    }
}

/// Reads two numerators over one denominator.
fn read_pair(x: &Option<String>, y: &Option<String>, denom: u32) -> (r: Option<(u32, u32)>)
    ensures
        r == pair_over(*x, *y, denom),
{
    match (x, y) {
        (Some(a), Some(b)) => match (
            parse_fraction_num(a.as_str(), denom),
            parse_fraction_num(b.as_str(), denom),
        ) {
            (Some(m), Some(n)) => Some((m, n)),
            _ => None,
        },
        _ => None,
    }
}

/// The mastering display that side data describes, where all of it is there.
pub open spec fn master_display_of(sd: SideData) -> Option<MasterDisplay> {
    match (
        pair_over(sd.green_x, sd.green_y, 50000),
        pair_over(sd.blue_x, sd.blue_y, 50000),
        pair_over(sd.red_x, sd.red_y, 50000),
        pair_over(sd.white_point_x, sd.white_point_y, 50000),
        pair_over(sd.max_luminance, sd.min_luminance, 10000),
    ) {
        (Some(green), Some(blue), Some(red), Some(white_point), Some(luminance)) => Some(
            MasterDisplay { green, blue, red, white_point, luminance },
        ),
        _ => None,
    }
}

pub fn sd_to_master_display(sd: &SideData) -> (r: Option<MasterDisplay>)
    ensures
        r == master_display_of(*sd),
{
    match (
        read_pair(&sd.green_x, &sd.green_y, 50000),
        read_pair(&sd.blue_x, &sd.blue_y, 50000),
        read_pair(&sd.red_x, &sd.red_y, 50000),
        read_pair(&sd.white_point_x, &sd.white_point_y, 50000),
        read_pair(&sd.max_luminance, &sd.min_luminance, 10000),
    ) {
        (Some(green), Some(blue), Some(red), Some(white_point), Some(luminance)) => Some(
            MasterDisplay { green, blue, red, white_point, luminance },
        ),
        _ => None,
    }
}

/// What side data tells of the mastering display and the light levels: of each
/// the last entry counts. An entry of light levels that lacks one of them
/// makes all of it unusable.
pub open spec fn light_of(list: Seq<SideData>) -> Option<(Option<MasterDisplay>, Option<MaxCll>)>
    decreases list.len(),
{
    if list.len() == 0 {
        Some((None, None))
    } else {
        let sd = list.last();
        match light_of(list.drop_last()) {
            None => None,
            Some((display, levels)) => if sd.side_data_type@ == "Mastering display metadata"@ {
                Some((master_display_of(sd), levels))
            } else if sd.side_data_type@ == "Content light level metadata"@ {
                match (sd.max_content, sd.max_average) {
                    (Some(max_content), Some(max_average)) => Some(
                        (display, Some(MaxCll { max_content, max_average })),
                    ),
                    _ => None,
                }
            } else {
                Some((display, levels))
            },
        }
    }
}

/// The colour metadata of a stream, where its primaries, its transfer and its
/// space are all there.
pub open spec fn color_of_stream(s: FfprobeStream) -> Option<crate::models::video::ColorView> {
    match (s.color_primaries, s.color_transfer, s.color_space, light_of(s.side_data_list@)) {
        (Some(cp), Some(ct), Some(cs), Some((display, levels))) => Some(
            crate::models::video::ColorView {
                color_primaries: cp@,
                color_trc: ct@,
                colorspace: cs@,
                master_display: match display {
                    Some(d) => Some(d.x265_text()),
                    None => None,
                },
                max_cll: match levels {
                    Some(l) => Some(l.x265_text()),
                    None => None,
                },
            },
        ),
        _ => None,
    }
}

/// What side data tells of the mastering display and the light levels.
fn read_light(list: &Vec<SideData>) -> (r: Option<(Option<MasterDisplay>, Option<MaxCll>)>)
    ensures
        r == light_of(list@),
{
    let mut display: Option<MasterDisplay> = None;
    let mut levels: Option<MaxCll> = None;
    let mut i: usize = 0;
    assert(list@.take(0) =~= Seq::<SideData>::empty());
    while i < list.len()
        invariant
            i <= list.len(),
            light_of(list@.take(i as int)) == Some((display, levels)),
        decreases list.len() - i,
    {
        proof {
            assert(list@.take(i + 1).drop_last() =~= list@.take(i as int));
            assert(list@.take(i + 1).last() == list@[i as int]);
        }
        let sd = &list[i];
        if same_text(sd.side_data_type.as_str(), "Mastering display metadata") {
            display = sd_to_master_display(sd);
        } else if same_text(sd.side_data_type.as_str(), "Content light level metadata") {
            match (sd.max_content, sd.max_average) {
                (Some(max_content), Some(max_average)) => {
                    levels = Some(MaxCll { max_content, max_average });
                },
                _ => {
                    proof {
                        assert(light_of(list@.take(i + 1)) is None);
                        lemma_light_stays_unusable(list@, i + 1);
                    }
                    return None;
                },
            }
        }
        i = i + 1;
    }
    assert(list@.take(list@.len() as int) =~= list@);
    Some((display, levels))
}

/// Side data that is unusable up to some point is unusable as a whole.
proof fn lemma_light_stays_unusable(list: Seq<SideData>, k: int)
    requires
        0 <= k <= list.len(),
        light_of(list.take(k)) is None,
    ensures
        light_of(list) is None,
    decreases list.len(),
{
    if k == list.len() {
        assert(list.take(k) =~= list);
    } else {
        assert(list.drop_last().take(k) =~= list.take(k));
        lemma_light_stays_unusable(list.drop_last(), k);
    }
}

pub fn extract_color_metadata(video_stream: &FfprobeStream) -> (r: Option<ColorMetadata>)
    ensures
        crate::store::mapping::color_view(r) == color_of_stream(*video_stream),
{
    match (
        &video_stream.color_primaries,
        &video_stream.color_transfer,
        &video_stream.color_space,
    ) {
        (Some(cp), Some(ct), Some(cs)) => match read_light(&video_stream.side_data_list) {
            Some((display, levels)) => {
                let master_display = match display {
                    Some(d) => Some(d.to_x265_string()),
                    None => None,
                };
                let max_cll = match levels {
                    Some(l) => Some(l.to_x265_string()),
                    None => None,
                };
                Some(
                    ColorMetadata {
                        color_primaries: cp.clone(),
                        color_trc: ct.clone(),
                        colorspace: cs.clone(),
                        master_display,
                        max_cll,
                    },
                )
            },
            None => None,
        },
        _ => None,
    }
}

impl FfprobeStream {
    /// Whether this is a video and no still picture.
    pub open spec fn is_video(self) -> bool {
        self.codec_type is Video && self.attached_pic != Some(1u8)
    }

    /// Whether this is a still picture, such as a cover.
    pub fn is_attached_pic(&self) -> (r: bool)
        ensures
            r == (self.attached_pic == Some(1u8)),
    {
        match self.attached_pic {
            Some(n) => n == 1,
            None => false,
        }
    }
}

/// The first video stream.
pub open spec fn first_video(streams: Seq<FfprobeStream>) -> Option<FfprobeStream>
    decreases streams.len(),
{
    if streams.len() == 0 {
        None
    } else if streams[0].is_video() {
        Some(streams[0])
    } else {
        first_video(streams.skip(1))
    }
}

/// The Dolby Vision profile that the first record of its configuration states.
pub open spec fn dolby_vision_of(list: Seq<SideData>) -> Option<u8>
    decreases list.len(),
{
    if list.len() == 0 {
        None
    } else if list[0].side_data_type@ == "DOVI configuration record"@ {
        list[0].dv_profile
    } else {
        dolby_vision_of(list.skip(1))
    }
}

/// The first video stream.
fn find_video(streams: &Vec<FfprobeStream>) -> (r: Option<usize>)
    ensures
        match r {
            Some(i) => i < streams@.len() && first_video(streams@) == Some(streams@[i as int]),
            None => first_video(streams@) is None,
        },
{
    let mut i: usize = 0;
    assert(streams@.skip(0) =~= streams@);
    while i < streams.len()
        invariant
            i <= streams.len(),
            first_video(streams@) == first_video(streams@.skip(i as int)),
        decreases streams.len() - i,
    {
        if streams[i].codec_type == StreamType::Video && !streams[i].is_attached_pic() {
            return Some(i);
        }
        assert(streams@.skip(i as int).skip(1) =~= streams@.skip(i + 1));
        i = i + 1;
    }
    None
}

/// The Dolby Vision profile that side data states.
fn find_dolby_vision(list: &Vec<SideData>) -> (r: Option<u8>)
    ensures
        r == dolby_vision_of(list@),
{
    let mut i: usize = 0;
    assert(list@.skip(0) =~= list@);
    while i < list.len()
        invariant
            i <= list.len(),
            dolby_vision_of(list@) == dolby_vision_of(list@.skip(i as int)),
        decreases list.len() - i,
    {
        if same_text(list[i].side_data_type.as_str(), "DOVI configuration record") {
            return list[i].dv_profile;
        }
        assert(list@.skip(i as int).skip(1) =~= list@.skip(i + 1));
        i = i + 1;
    }
    None
}

/// Whether video properties are those of a stream in a container.
pub open spec fn is_video_of(vp: VideoProperties, s: FfprobeStream, f: FfprobeFormat) -> bool {
    &&& vp.video_codec@ == (match s.codec_name {
        Some(name) => crate::models::video::codec_named(name@),
        None => crate::models::video::CodecView::Missing,
    })
    &&& s.height == Some(vp.resolution.rows())
    &&& s.width == Some(vp.resolution.columns())
    &&& crate::models::video::bps_of(vp.bitrate) == crate::models::video::bitrate_read(
        crate::models::video::first_text(s.bit_rate, f.bit_rate),
    )
    &&& match vp.framerate {
        Some(x) => s.avg_frame_rate is Some && crate::models::video::fraction_of(
            s.avg_frame_rate->0@,
        ) == Some((x.num() as int, x.den() as int)),
        None => s.avg_frame_rate matches Some(t) ==> crate::models::video::fraction_of(t@) is None,
    }
    &&& f.size matches Some(t) && crate::decimal::unsigned_value(t@, u64::MAX as int) == Some(
        vp.size_bytes.bytes() as int,
    )
    &&& match vp.duration {
        Some(d) => f.duration == Some(d.secs()) && crate::models::video::is_duration(d.secs()),
        None => f.duration matches Some(d) ==> !crate::models::video::is_duration(d),
    }
    &&& crate::store::mapping::color_view(vp.color_metadata) == color_of_stream(s)
    &&& vp.dv_profile == dolby_vision_of(s.side_data_list@)
}

/// What is wrong with the output of ffprobe, in the order in which it is
/// looked at.
pub open spec fn output_fault(value: FfprobeOutput) -> Option<FfprobeError> {
    match first_video(value.streams@) {
        None => Some(FfprobeError::NoVideoStream),
        Some(s) => match (s.height, s.width) {
            (Some(h), Some(w)) => if h == 0 || w == 0 {
                Some(FfprobeError::Domain(DomainError::InvalidResolution))
            } else {
                match value.format.size {
                    None => Some(FfprobeError::MissingSizeBytes),
                    Some(t) => match crate::decimal::unsigned_value(t@, u64::MAX as int) {
                        None => Some(FfprobeError::MissingSizeBytes),
                        Some(n) => if n == 0 {
                            Some(FfprobeError::Domain(DomainError::InvalidSizeBytes))
                        } else {
                            None
                        },
                    },
                }
            },
            _ => Some(FfprobeError::MissingResolution),
        },
    }
}

/// The properties of the first video stream that is no still picture.
pub fn video_properties(value: FfprobeOutput) -> (r: Result<VideoProperties, FfprobeError>)
    ensures
        match r {
            Ok(vp) => output_fault(value) is None && is_video_of(
                vp,
                first_video(value.streams@)->0,
                value.format,
            ),
            Err(e) => output_fault(value) == Some(e),
        },
{
    let i: usize = match find_video(&value.streams) {
        Some(i) => i,
        None => {
            return Err(FfprobeError::NoVideoStream);
        },
    };
    let stream = &value.streams[i];
    let video_codec = match &stream.codec_name {
        Some(name) => VideoCodec::from_str(name.as_str()),
        None => VideoCodec::Missing,
    };
    let (height, width) = match (stream.height, stream.width) {
        (Some(h), Some(w)) => (h, w),
        _ => {
            return Err(FfprobeError::MissingResolution);
        },
    };
    let resolution = match Resolution::new(height, width) {
        Ok(x) => x,
        Err(e) => {
            return Err(FfprobeError::Domain(e));
        },
    };
    let bitrate = read_bitrate(&stream.bit_rate, &value.format.bit_rate);
    let framerate = match &stream.avg_frame_rate {
        Some(s) => match Framerate::from_str(s.as_str()) {
            Ok(f) => Some(f),
            Err(_) => None,
        },
        None => None,
    };
    let size: u64 = match &value.format.size {
        Some(s) => match parse_u64(s.as_str()) {
            Some(n) => n,
            None => {
                return Err(FfprobeError::MissingSizeBytes);
            },
        },
        None => {
            return Err(FfprobeError::MissingSizeBytes);
        },
    };
    let size_bytes = match SizeBytes::new(size) {
        Ok(s) => s,
        Err(e) => {
            return Err(FfprobeError::Domain(e));
        },
    };
    let duration = match value.format.duration {
        Some(d) => match DurationSecs::new(d) {
            Ok(x) => Some(x),
            Err(_) => None,
        },
        None => None,
    };
    let color_metadata = extract_color_metadata(stream);
    let dv_profile = find_dolby_vision(&stream.side_data_list);
    Ok(
        VideoProperties {
            video_codec,
            resolution,
            bitrate,
            framerate,
            size_bytes,
            duration,
            color_metadata,
            dv_profile,
        },
    )
}

/// How a run of ffprobe went.
#[derive(Debug)]
pub enum ProbeRun {
    NotStarted(String),
    Failed(Option<i32>),
    /// The output is no JSON of the expected form.
    BadOutput(String),
    Probed(FfprobeOutput),
}

/// The properties that a run of ffprobe found.
pub fn probe_result(run: ProbeRun) -> (r: Result<VideoProperties, FfprobeError>)
    ensures
        match run {
            ProbeRun::NotStarted(e) => r == Err::<VideoProperties, FfprobeError>(
                FfprobeError::SpawnFailed(e),
            ),
            ProbeRun::Failed(code) => r == Err::<VideoProperties, FfprobeError>(
                FfprobeError::ProcessFailed(code),
            ),
            ProbeRun::BadOutput(e) => r == Err::<VideoProperties, FfprobeError>(
                FfprobeError::InvalidOutput(e),
            ),
            ProbeRun::Probed(value) => match r {
                Ok(vp) => output_fault(value) is None && is_video_of(
                    vp,
                    first_video(value.streams@)->0,
                    value.format,
                ),
                Err(e) => output_fault(value) == Some(e),
            },
        },
{
    match run {
        ProbeRun::NotStarted(e) => Err(FfprobeError::SpawnFailed(e)),
        ProbeRun::Failed(code) => Err(FfprobeError::ProcessFailed(code)),
        ProbeRun::BadOutput(e) => Err(FfprobeError::InvalidOutput(e)),
        ProbeRun::Probed(value) => video_properties(value),
    }
}

/// The numerator of a fraction is read where its denominator is the one that
/// is asked for, and nothing otherwise.
pub proof fn law_fraction_numerator(s: &str, denom: u32, n: u32, d: u32, r: Option<u32>)
    requires
        call_ensures(parse_fraction_num, (s, denom), r),
    ensures
        s@ == crate::decimal::digits(n as nat) + seq!['/'] + crate::decimal::digits(d as nat)
            ==> r == (if d == denom {
            Some(n)
        } else {
            None
        }),
        crate::text::lacks(s@, '/') ==> r is None,
{
    crate::text::lemma_first_position(s@, '/');
    let (a, b) = (crate::decimal::digits(n as nat), crate::decimal::digits(d as nat));
    if s@ == a + seq!['/'] + b {
        crate::decimal::lemma_digits(n as nat);
        assert(s@[a.len() as int] == '/');
        assert forall|j: int| 0 <= j < a.len() implies s@[j] != '/' by {
            assert(s@[j] == a[j]);
            assert(crate::decimal::is_digit(a[j]));
        }
        assert(crate::text::first_position(s@, '/') == Some(a.len() as int));
        assert(s@.take(a.len() as int) =~= a);
        assert(s@.skip(a.len() as int + 1) =~= b);
        crate::decimal::lemma_unsigned_round_trip(n as nat, u32::MAX as int);
        crate::decimal::lemma_unsigned_round_trip(d as nat, u32::MAX as int);
    }
}

/// A mastering display is read where all ten of its numbers are: each point
/// from the two of its own name over 50000, and the luminances, the greatest
/// first, over 10000.
pub proof fn law_master_display(sd: SideData, r: Option<MasterDisplay>)
    requires
        call_ensures(sd_to_master_display, (&sd,), r),
    ensures
        ({
            let num = |t: Option<String>, d: u32|
                match t {
                    Some(s) => numerator_over(s@, d),
                    None => None,
                };
            &&& r is Some <==> num(sd.green_x, 50000) is Some && num(sd.green_y, 50000) is Some
                && num(sd.blue_x, 50000) is Some && num(sd.blue_y, 50000) is Some && num(
                sd.red_x,
                50000,
            ) is Some && num(sd.red_y, 50000) is Some && num(sd.white_point_x, 50000) is Some
                && num(sd.white_point_y, 50000) is Some && num(sd.max_luminance, 10000) is Some
                && num(sd.min_luminance, 10000) is Some
            &&& r matches Some(d) ==> {
                &&& num(sd.green_x, 50000) == Some(d.green.0 as int)
                &&& num(sd.green_y, 50000) == Some(d.green.1 as int)
                &&& num(sd.blue_x, 50000) == Some(d.blue.0 as int)
                &&& num(sd.blue_y, 50000) == Some(d.blue.1 as int)
                &&& num(sd.red_x, 50000) == Some(d.red.0 as int)
                &&& num(sd.red_y, 50000) == Some(d.red.1 as int)
                &&& num(sd.white_point_x, 50000) == Some(d.white_point.0 as int)
                &&& num(sd.white_point_y, 50000) == Some(d.white_point.1 as int)
                &&& num(sd.max_luminance, 10000) == Some(d.luminance.0 as int)
                &&& num(sd.min_luminance, 10000) == Some(d.luminance.1 as int)
            }
        }),
{
    lemma_numerators_fit(sd.green_x, 50000);
    lemma_numerators_fit(sd.green_y, 50000);
    lemma_numerators_fit(sd.blue_x, 50000);
    lemma_numerators_fit(sd.blue_y, 50000);
    lemma_numerators_fit(sd.red_x, 50000);
    lemma_numerators_fit(sd.red_y, 50000);
    lemma_numerators_fit(sd.white_point_x, 50000);
    lemma_numerators_fit(sd.white_point_y, 50000);
    lemma_numerators_fit(sd.max_luminance, 10000);
    lemma_numerators_fit(sd.min_luminance, 10000);
}

/// A numerator that was read is a number of 32 bits.
proof fn lemma_numerators_fit(t: Option<String>, denom: u32)
    ensures
        t matches Some(s) ==> (numerator_over(s@, denom) matches Some(n) ==> 0 <= n <= u32::MAX),
{
    if let Some(s) = t {
        if let Some((n, d)) = crate::text::split_at_first(s@, '/') {
            lemma_digits_are_not_negative(n);
            if n.len() > 0 {
                lemma_digits_are_not_negative(n.skip(1));
            }
        }
    }
}

/// Digits stand for a number that is not negative.
proof fn lemma_digits_are_not_negative(s: Seq<char>)
    ensures
        crate::decimal::all_digits(s) ==> crate::decimal::value_of(s) >= 0,
    decreases s.len(),
{
    if s.len() > 0 && crate::decimal::all_digits(s) {
        assert forall|i: int| 0 <= i < s.drop_last().len() implies crate::decimal::is_digit(
            #[trigger] s.drop_last()[i],
        ) by {
            assert(s.drop_last()[i] == s[i]);
        }
        lemma_digits_are_not_negative(s.drop_last());
        assert(crate::decimal::is_digit(s[s.len() - 1]));
    }
}

/// Whether an entry of side data describes the mastering display.
pub open spec fn is_display(sd: SideData) -> bool {
    sd.side_data_type@ == "Mastering display metadata"@
}

/// Whether an entry of side data holds the light levels.
pub open spec fn is_levels(sd: SideData) -> bool {
    sd.side_data_type@ == "Content light level metadata"@
}

/// An entry is not both.
proof fn lemma_kinds_of_entries_differ(sd: SideData)
    ensures
        !(is_display(sd) && is_levels(sd)),
{
    reveal_strlit("Mastering display metadata");
    reveal_strlit("Content light level metadata");
    assert("Mastering display metadata"@[0] == 'M' && "Content light level metadata"@[0] == 'C');
}

/// Whether every entry of light levels holds both.
pub open spec fn levels_are_whole(list: Seq<SideData>) -> bool {
    forall|i: int|
        0 <= i < list.len() && is_levels(#[trigger] list[i]) ==> list[i].max_content is Some
            && list[i].max_average is Some
}

/// Side data is usable where its light levels are whole.
proof fn lemma_usable_light(list: Seq<SideData>)
    ensures
        light_of(list) is Some <==> levels_are_whole(list),
    decreases list.len(),
{
    if list.len() > 0 {
        let rest = list.drop_last();
        let last = list[list.len() - 1];
        lemma_usable_light(rest);
        lemma_kinds_of_entries_differ(last);
        if levels_are_whole(list) {
            assert forall|i: int| 0 <= i < rest.len() && is_levels(#[trigger] rest[i]) implies
                rest[i].max_content is Some && rest[i].max_average is Some by {
                assert(list[i] == rest[i]);
            }
        }
        if levels_are_whole(rest) && (is_levels(last) ==> last.max_content is Some
            && last.max_average is Some) {
            assert forall|i: int| 0 <= i < list.len() && is_levels(#[trigger] list[i]) implies
                list[i].max_content is Some && list[i].max_average is Some by {
                if i < rest.len() {
                    assert(rest[i] == list[i]);
                }
            }
        }
        if levels_are_whole(list) {
            assert(is_levels(list[list.len() - 1]) ==> last.max_content is Some);
        }
    }
}

/// The last entry of a mastering display is the one that counts.
proof fn lemma_last_display(list: Seq<SideData>, i: int)
    requires
        light_of(list) is Some,
        -1 <= i < list.len(),
        i >= 0 ==> is_display(list[i]),
        forall|j: int| i < j < list.len() ==> !is_display(#[trigger] list[j]),
    ensures
        light_of(list) matches Some((display, _)) && display == (if i >= 0 {
            master_display_of(list[i])
        } else {
            None
        }),
    decreases list.len(),
{
    if list.len() > 0 {
        let rest = list.drop_last();
        lemma_kinds_of_entries_differ(list[list.len() - 1]);
        if i < list.len() - 1 {
            assert(!is_display(list[list.len() - 1]));
            assert forall|j: int| i < j < rest.len() implies !is_display(#[trigger] rest[j]) by {
                assert(list[j] == rest[j]);
            }
            lemma_last_display(rest, i);
        }
    }
}

/// The last entry of light levels is the one that counts.
proof fn lemma_last_levels(list: Seq<SideData>, i: int)
    requires
        light_of(list) is Some,
        -1 <= i < list.len(),
        i >= 0 ==> is_levels(list[i]),
        forall|j: int| i < j < list.len() ==> !is_levels(#[trigger] list[j]),
    ensures
        light_of(list) matches Some((_, levels)) && if i < 0 {
            levels is None
        } else {
            levels is Some && list[i].max_content == Some(levels->0.max_content)
                && list[i].max_average == Some(levels->0.max_average)
        },
    decreases list.len(),
{
    if list.len() > 0 {
        let rest = list.drop_last();
        lemma_kinds_of_entries_differ(list[list.len() - 1]);
        if i < list.len() - 1 {
            assert(!is_levels(list[list.len() - 1]));
            assert forall|j: int| i < j < rest.len() implies !is_levels(#[trigger] rest[j]) by {
                assert(list[j] == rest[j]);
            }
            lemma_last_levels(rest, i);
        }
    }
}

/// A stream's colours are known where its primaries, its transfer and its
/// space are and no entry of its light levels lacks one, and are these three.
/// At whatever position the last entry of a mastering display and the last
/// one of light levels stand, those are told; and none is told where no
/// position holds one.
pub proof fn law_colors_of_a_stream(
    s: FfprobeStream,
    r: Option<ColorMetadata>,
    i: int,
    display: Option<MasterDisplay>,
    text: String,
    k: int,
    levels: MaxCll,
    level_text: String,
)
    requires
        call_ensures(extract_color_metadata, (&s,), r),
        0 <= i < s.side_data_list@.len() ==> call_ensures(
            sd_to_master_display,
            (&s.side_data_list@[i],),
            display,
        ),
        display matches Some(d) ==> call_ensures(MasterDisplay::to_x265_string, (&d,), text),
        call_ensures(MaxCll::to_x265_string, (&levels,), level_text),
    ensures
        ({
            let list = s.side_data_list@;
            &&& r is Some <==> s.color_primaries is Some && s.color_transfer is Some
                && s.color_space is Some && forall|j: int|
                0 <= j < list.len() && (#[trigger] list[j]).side_data_type@
                    == "Content light level metadata"@ ==> list[j].max_content is Some
                    && list[j].max_average is Some
            &&& r matches Some(c) ==> {
                &&& c.color_primaries@ == s.color_primaries->0@
                &&& c.color_trc@ == s.color_transfer->0@
                &&& c.colorspace@ == s.color_space->0@
                &&& 0 <= i < list.len() && list[i].side_data_type@
                    == "Mastering display metadata"@ && (forall|j: int|
                    i < j < list.len() ==> (#[trigger] list[j]).side_data_type@
                        != "Mastering display metadata"@) ==> (match display {
                    Some(_) => c.master_display is Some && c.master_display->0@ == text@,
                    None => c.master_display is None,
                })
                &&& (forall|j: int|
                    0 <= j < list.len() ==> (#[trigger] list[j]).side_data_type@
                        != "Mastering display metadata"@) ==> c.master_display is None
                &&& 0 <= k < list.len() && list[k].side_data_type@
                    == "Content light level metadata"@ && (forall|j: int|
                    k < j < list.len() ==> (#[trigger] list[j]).side_data_type@
                        != "Content light level metadata"@) && list[k].max_content == Some(
                    levels.max_content,
                ) && list[k].max_average == Some(levels.max_average) ==> c.max_cll is Some
                    && c.max_cll->0@ == level_text@
                &&& (forall|j: int|
                    0 <= j < list.len() ==> (#[trigger] list[j]).side_data_type@
                        != "Content light level metadata"@) ==> c.max_cll is None
            }
        }),
{
    let list = s.side_data_list@;
    lemma_usable_light(list);
    assert(levels_are_whole(list) <==> forall|j: int|
        0 <= j < list.len() && (#[trigger] list[j]).side_data_type@
            == "Content light level metadata"@ ==> list[j].max_content is Some
            && list[j].max_average is Some);
    if light_of(list) is Some {
        if 0 <= i < list.len() && is_display(list[i]) && (forall|j: int|
            i < j < list.len() ==> (#[trigger] list[j]).side_data_type@
                != "Mastering display metadata"@) {
            lemma_last_display(list, i);
        }
        if forall|j: int|
            0 <= j < list.len() ==> (#[trigger] list[j]).side_data_type@
                != "Mastering display metadata"@ {
            lemma_last_display(list, -1);
        }
        if 0 <= k < list.len() && is_levels(list[k]) && (forall|j: int|
            k < j < list.len() ==> (#[trigger] list[j]).side_data_type@
                != "Content light level metadata"@) {
            lemma_last_levels(list, k);
        }
        if forall|j: int|
            0 <= j < list.len() ==> (#[trigger] list[j]).side_data_type@
                != "Content light level metadata"@ {
            lemma_last_levels(list, -1);
        }
    }
}

/// What the recursion over the streams finds.
proof fn lemma_first_video(streams: Seq<FfprobeStream>)
    ensures
        match first_video(streams) {
            Some(s) => exists|i: int|
                0 <= i < streams.len() && s == #[trigger] streams[i] && s.is_video() && forall|
                    j: int,
                |
                    0 <= j < i ==> !(#[trigger] streams[j]).is_video(),
            None => forall|j: int| 0 <= j < streams.len() ==> !(#[trigger] streams[j]).is_video(),
        },
    decreases streams.len(),
{
    if streams.len() > 0 && !streams[0].is_video() {
        let rest = streams.skip(1);
        lemma_first_video(rest);
        assert(forall|j: int| 0 < j < streams.len() ==> #[trigger] streams[j] == rest[j - 1]);
        if let Some(s) = first_video(rest) {
            let i = choose|i: int|
                0 <= i < rest.len() && s == #[trigger] rest[i] && s.is_video() && forall|j: int|
                    0 <= j < i ==> !(#[trigger] rest[j]).is_video();
            assert(streams[i + 1] == s);
            assert forall|j: int| 0 <= j < i + 1 implies !(#[trigger] streams[j]).is_video() by {
                if j > 0 {
                    assert(!rest[j - 1].is_video());
                }
            }
        } else {
            assert forall|j: int| 0 <= j < streams.len() implies !(
            #[trigger] streams[j]).is_video() by {
                if j > 0 {
                    assert(!rest[j - 1].is_video());
                }
            }
        }
    } else if streams.len() > 0 {
        assert(streams[0] == first_video(streams)->0);
    }
}

/// What the recursion over the side data finds.
proof fn lemma_dolby_vision(list: Seq<SideData>)
    ensures
        forall|i: int|
            0 <= i < list.len() && (#[trigger] list[i]).side_data_type@
                == "DOVI configuration record"@ && (forall|j: int|
                0 <= j < i ==> (#[trigger] list[j]).side_data_type@
                    != "DOVI configuration record"@) ==> dolby_vision_of(list)
                == list[i].dv_profile,
        (forall|j: int|
            0 <= j < list.len() ==> (#[trigger] list[j]).side_data_type@
                != "DOVI configuration record"@) ==> dolby_vision_of(list) is None,
    decreases list.len(),
{
    if list.len() > 0 {
        let rest = list.skip(1);
        lemma_dolby_vision(rest);
        assert(forall|j: int| 0 < j < list.len() ==> #[trigger] list[j] == rest[j - 1]);
        assert(forall|j: int| 0 <= j < rest.len() ==> #[trigger] rest[j] == list[j + 1]);
        assert forall|i: int|
            0 <= i < list.len() && (#[trigger] list[i]).side_data_type@
                == "DOVI configuration record"@ && (forall|j: int|
                0 <= j < i ==> (#[trigger] list[j]).side_data_type@
                    != "DOVI configuration record"@) implies dolby_vision_of(list)
            == list[i].dv_profile by {
            if i > 0 {
                assert(list[0].side_data_type@ != "DOVI configuration record"@);
                assert(rest[i - 1].side_data_type@ == "DOVI configuration record"@);
                assert forall|j: int| 0 <= j < i - 1 implies (#[trigger] rest[j]).side_data_type@
                    != "DOVI configuration record"@ by {
                    assert(list[j + 1].side_data_type@ != "DOVI configuration record"@);
                }
            }
        }
        if forall|j: int|
            0 <= j < list.len() ==> (#[trigger] list[j]).side_data_type@
                != "DOVI configuration record"@ {
            assert(list[0].side_data_type@ != "DOVI configuration record"@);
            assert forall|j: int| 0 <= j < rest.len() implies (#[trigger] rest[j]).side_data_type@
                != "DOVI configuration record"@ by {
                assert(list[j + 1].side_data_type@ != "DOVI configuration record"@);
            }
        }
    }
}

/// The properties of a file are those of its first stream that is a video and
/// no still picture, at whatever position that stands, and there are none
/// where no position holds one.
pub proof fn law_first_video_counts(
    value: FfprobeOutput,
    r: Result<VideoProperties, FfprobeError>,
    i: int,
)
    requires
        call_ensures(video_properties, (value,), r),
    ensures
        r == Err::<VideoProperties, FfprobeError>(FfprobeError::NoVideoStream) <==> forall|j: int|
            0 <= j < value.streams@.len() ==> !((#[trigger] value.streams@[j]).codec_type is Video
                && value.streams@[j].attached_pic != Some(1u8)),
        0 <= i < value.streams@.len() && value.streams@[i].codec_type is Video
            && value.streams@[i].attached_pic != Some(1u8) && (forall|j: int|
            0 <= j < i ==> !((#[trigger] value.streams@[j]).codec_type is Video
                && value.streams@[j].attached_pic != Some(1u8))) ==> {
            let s = value.streams@[i];
            let sized = s.height is Some && s.width is Some;
            let empty = sized && (s.height == Some(0u32) || s.width == Some(0u32));
            &&& r == Err::<VideoProperties, FfprobeError>(FfprobeError::MissingResolution) <==> !sized
            &&& r == Err::<VideoProperties, FfprobeError>(
                FfprobeError::Domain(DomainError::InvalidResolution),
            ) <==> empty
            &&& r matches Ok(vp) ==> {
                &&& Some(vp.resolution.rows()) == s.height
                &&& Some(vp.resolution.columns()) == s.width
                &&& s.codec_name is None ==> vp.video_codec is Missing
                &&& s.codec_name matches Some(name) ==> vp.video_codec@
                    == crate::models::video::codec_named(name@)
                &&& crate::store::mapping::color_view(vp.color_metadata) == color_of_stream(s)
                &&& vp.framerate is Some ==> s.avg_frame_rate is Some
                &&& s.avg_frame_rate is Some && crate::models::video::fraction_of(
                    s.avg_frame_rate->0@,
                ) is Some ==> vp.framerate is Some && crate::models::video::fraction_of(
                    s.avg_frame_rate->0@,
                ) == Some((vp.framerate->0.num() as int, vp.framerate->0.den() as int))
                &&& s.avg_frame_rate is Some && crate::models::video::fraction_of(
                    s.avg_frame_rate->0@,
                ) is None ==> vp.framerate is None
            }
        },
{
    lemma_first_video(value.streams@);
    let streams = value.streams@;
    assert(forall|j: int|
        0 <= j < streams.len() ==> ((#[trigger] streams[j]).is_video() <==> streams[j].codec_type
            is Video && streams[j].attached_pic != Some(1u8)));
    if let Some(s) = first_video(streams) {
        let k = choose|k: int|
            0 <= k < streams.len() && s == #[trigger] streams[k] && s.is_video() && forall|j: int|
                0 <= j < k ==> !(#[trigger] streams[j]).is_video();
        assert(streams[k].is_video());
    }
}

/// The Dolby Vision profile of a file is the one that the first entry of its
/// kind states, at whatever position of the side data of the first video
/// stream that entry stands; there is none only where that entry states none
/// or no position holds such an entry.
pub proof fn law_dolby_vision_is_found(
    value: FfprobeOutput,
    vp: VideoProperties,
    i: int,
    k: int,
)
    requires
        call_ensures(video_properties, (value,), Ok(vp)),
        0 <= i < value.streams@.len(),
        value.streams@[i].codec_type is Video && value.streams@[i].attached_pic != Some(1u8),
        forall|j: int|
            0 <= j < i ==> !((#[trigger] value.streams@[j]).codec_type is Video
                && value.streams@[j].attached_pic != Some(1u8)),
    ensures
        ({
            let list = value.streams@[i].side_data_list@;
            &&& 0 <= k < list.len() && list[k].side_data_type@ == "DOVI configuration record"@ && (
            forall|j: int|
                0 <= j < k ==> (#[trigger] list[j]).side_data_type@
                    != "DOVI configuration record"@) ==> vp.dv_profile == list[k].dv_profile
            &&& (forall|j: int|
                0 <= j < list.len() ==> (#[trigger] list[j]).side_data_type@
                    != "DOVI configuration record"@) ==> vp.dv_profile is None
        }),
{
    lemma_first_video(value.streams@);
    let streams = value.streams@;
    assert(forall|j: int|
        0 <= j < streams.len() ==> ((#[trigger] streams[j]).is_video() <==> streams[j].codec_type
            is Video && streams[j].attached_pic != Some(1u8)));
    if let Some(s) = first_video(streams) {
        let n = choose|n: int|
            0 <= n < streams.len() && s == #[trigger] streams[n] && s.is_video() && forall|j: int|
                0 <= j < n ==> !(#[trigger] streams[j]).is_video();
        assert(streams[n].is_video());
    }
    lemma_dolby_vision(streams[i].side_data_list@);
}

/// What the container states of a file: its size, which must be a number other
/// than zero, its duration, which is dropped where it is none, and its bitrate,
/// which counts where the stream states none.
pub proof fn law_what_the_container_states(
    value: FfprobeOutput,
    r: Result<VideoProperties, FfprobeError>,
    i: int,
    n: u64,
    bitrate: Option<crate::models::video::Bitrate>,
)
    requires
        call_ensures(video_properties, (value,), r),
        0 <= i < value.streams@.len(),
        value.streams@[i].codec_type is Video && value.streams@[i].attached_pic != Some(1u8),
        forall|j: int|
            0 <= j < i ==> !((#[trigger] value.streams@[j]).codec_type is Video
                && value.streams@[j].attached_pic != Some(1u8)),
        value.streams@[i].height matches Some(h) && h != 0,
        value.streams@[i].width matches Some(w) && w != 0,
        call_ensures(
            read_bitrate,
            (&value.streams@[i].bit_rate, &value.format.bit_rate),
            bitrate,
        ),
    ensures
        value.format.size is None ==> r == Err::<VideoProperties, FfprobeError>(
            FfprobeError::MissingSizeBytes,
        ),
        value.format.size is Some && value.format.size->0@ == crate::decimal::digits(n as nat) ==> {
            &&& n == 0 ==> r == Err::<VideoProperties, FfprobeError>(
                FfprobeError::Domain(DomainError::InvalidSizeBytes),
            )
            &&& n > 0 ==> (r matches Ok(vp) && vp.size_bytes.bytes() == n)
        },
        r matches Ok(vp) ==> {
            &&& crate::models::video::bps_of(vp.bitrate) == crate::models::video::bps_of(bitrate)
            &&& value.format.duration is None ==> vp.duration is None
            &&& value.format.duration matches Some(d) ==> if 0 < d.bits < 0x7ff0_0000_0000_0000 {
                vp.duration is Some && vp.duration->0.secs() == d
            } else {
                vp.duration is None
            }
        },
{
    lemma_first_video(value.streams@);
    let streams = value.streams@;
    assert(forall|j: int|
        0 <= j < streams.len() ==> ((#[trigger] streams[j]).is_video() <==> streams[j].codec_type
            is Video && streams[j].attached_pic != Some(1u8)));
    if let Some(s) = first_video(streams) {
        let k = choose|k: int|
            0 <= k < streams.len() && s == #[trigger] streams[k] && s.is_video() && forall|j: int|
                0 <= j < k ==> !(#[trigger] streams[j]).is_video();
        assert(streams[k].is_video());
    }
    crate::decimal::lemma_unsigned_round_trip(n as nat, u64::MAX as int);
    if let Some(d) = value.format.duration {
        crate::rounding::lemma_zero();
        crate::binary::lemma_magnitude_zero(52);
        if d.unsigned_bits() > 0 {
            crate::binary::lemma_magnitude_order(0, d.unsigned_bits(), 52);
        }
    }
}

/// A run of ffprobe that gave no output is an error that tells how it went,
/// and one that did is what is made of its output.
pub proof fn law_probe_runs(
    e: String,
    code: Option<i32>,
    value: FfprobeOutput,
    not_started: Result<VideoProperties, FfprobeError>,
    failed: Result<VideoProperties, FfprobeError>,
    unreadable: Result<VideoProperties, FfprobeError>,
    probed: Result<VideoProperties, FfprobeError>,
    made: Result<VideoProperties, FfprobeError>,
)
    requires
        call_ensures(video_properties, (value,), made),
        call_ensures(probe_result, (ProbeRun::NotStarted(e),), not_started),
        call_ensures(probe_result, (ProbeRun::Failed(code),), failed),
        call_ensures(probe_result, (ProbeRun::BadOutput(e),), unreadable),
        call_ensures(probe_result, (ProbeRun::Probed(value),), probed),
    ensures
        not_started == Err::<VideoProperties, FfprobeError>(FfprobeError::SpawnFailed(e)),
        failed == Err::<VideoProperties, FfprobeError>(FfprobeError::ProcessFailed(code)),
        unreadable == Err::<VideoProperties, FfprobeError>(FfprobeError::InvalidOutput(e)),
        probed is Ok <==> made is Ok,
        probed matches Err(x) ==> made == Err::<VideoProperties, FfprobeError>(x),
        probed is Ok && made is Ok ==> crate::store::script::same_video(probed->Ok_0, made->Ok_0),
{
}

/// A stream is a still picture exactly where it is marked with 1.
pub proof fn law_still_pictures(s: FfprobeStream, r: bool)
    requires
        call_ensures(FfprobeStream::is_attached_pic, (&s,), r),
    ensures
        r <==> (s.attached_pic matches Some(n) && n == 1),
{
}

/// What is read of a fraction, whatever stands on its two sides: the number
/// before the first `/`, where that is one and the number behind it is the
/// denominator that is asked for, and nothing otherwise.
pub proof fn law_any_fraction(
    s: &str,
    denom: u32,
    a: &str,
    b: &str,
    x: Option<u32>,
    y: Option<u32>,
    r: Option<u32>,
)
    requires
        call_ensures(parse_fraction_num, (s, denom), r),
        s@ == a@ + seq!['/'] + b@,
        crate::text::lacks(a@, '/'),
        call_ensures(parse_u32, (a,), x),
        call_ensures(parse_u32, (b,), y),
    ensures
        y == Some(denom) ==> r == x,
        y != Some(denom) ==> r is None,
{
    crate::text::lemma_first_position(s@, '/');
    assert(s@[a@.len() as int] == '/');
    assert forall|j: int| 0 <= j < a@.len() implies s@[j] != '/' by {
        assert(s@[j] == a@[j]);
    }
    assert(crate::text::first_position(s@, '/') == Some(a@.len() as int));
    assert(s@.take(a@.len() as int) =~= a@);
    assert(s@.skip(a@.len() as int + 1) =~= b@);
}

/// A file whose container states no size that can be read is refused for that,
/// and one that states a size has that size.
pub proof fn law_any_stated_size(
    value: FfprobeOutput,
    r: Result<VideoProperties, FfprobeError>,
    text: &str,
    n: Option<u64>,
    i: int,
)
    requires
        call_ensures(video_properties, (value,), r),
        call_ensures(parse_u64, (text,), n),
        value.format.size is Some && value.format.size->0@ == text@,
        0 <= i < value.streams@.len(),
        value.streams@[i].codec_type is Video && value.streams@[i].attached_pic != Some(1u8),
        forall|j: int|
            0 <= j < i ==> !((#[trigger] value.streams@[j]).codec_type is Video
                && value.streams@[j].attached_pic != Some(1u8)),
        value.streams@[i].height matches Some(h) && h != 0,
        value.streams@[i].width matches Some(w) && w != 0,
    ensures
        n is None <==> r == Err::<VideoProperties, FfprobeError>(FfprobeError::MissingSizeBytes),
        n == Some(0u64) <==> r == Err::<VideoProperties, FfprobeError>(
            FfprobeError::Domain(DomainError::InvalidSizeBytes),
        ),
        r is Ok <==> n is Some && n->0 > 0,
        r matches Ok(vp) ==> vp.size_bytes.bytes() == n->0,
{
    lemma_first_video(value.streams@);
    let streams = value.streams@;
    assert(forall|j: int|
        0 <= j < streams.len() ==> ((#[trigger] streams[j]).is_video() <==> streams[j].codec_type
            is Video && streams[j].attached_pic != Some(1u8)));
    assert(streams[i].is_video());
    if let Some(s) = first_video(streams) {
        let n = choose|n: int|
            0 <= n < streams.len() && s == #[trigger] streams[n] && s.is_video() && forall|j: int|
                0 <= j < n ==> !(#[trigger] streams[j]).is_video();
        assert(streams[n].is_video());
        assert(n == i);
    }
}

} // verus!
