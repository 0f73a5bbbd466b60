//! What a probe tells of a video stream.
use vstd::prelude::*;
use vstd::string::*;

use crate::binary::Binary64;
use crate::decimal::{parse_u32, parse_u64, unsigned_text};
use crate::models::error::DomainError;
use crate::models::media_file::SizeBytes;
use crate::text::{same_text, split_once};

verus! {

/// What is known of a file's video stream.
#[derive(Debug)]
pub struct VideoProperties {
    pub video_codec: VideoCodec,
    pub resolution: Resolution,
    pub bitrate: Option<Bitrate>,
    pub framerate: Option<Framerate>,
    pub size_bytes: SizeBytes,
    pub duration: Option<DurationSecs>,
    pub color_metadata: Option<ColorMetadata>,
    pub dv_profile: Option<u8>,
}

/// The numbers that the bits per pixel are computed from:
/// `bits_per_second / (pixels * numerator / denominator)`.
#[derive(Clone, Copy, Debug, PartialEq, Eq, Structural)]
pub struct PixelRate {
    pub bits_per_second: u64,
    pub pixels: u64,
    pub numerator: u32,
    pub denominator: u32,
}

impl VideoProperties {
    /// What the bits per pixel are computed from, where both the bitrate and
    /// the framerate are known.
    pub open spec fn pixel_rate(self) -> Option<PixelRate> {
        match (self.bitrate, self.framerate) {
            (Some(b), Some(f)) => Some(
                PixelRate {
                    bits_per_second: b.bps(),
                    pixels: (self.resolution.rows() * self.resolution.columns()) as u64,
                    numerator: f.num(),
                    denominator: f.den(),
                },
            ),
            _ => None,
        }
    }

    /// The numbers that the bits per pixel are computed from.
    pub fn bits_per_pixel(&self) -> (r: Option<PixelRate>)
        ensures
            r == self.pixel_rate(),
            r matches Some(p) ==> p.bits_per_second > 0 && p.pixels > 0 && p.denominator > 0,
    {
        match (&self.bitrate, &self.framerate) {
            (Some(b), Some(f)) => {
                let bits_per_second: u64 = b.as_bps();
                let pixels: u64 = self.resolution.pixel_count();
                let (numerator, denominator) = f.parts();
                Some(PixelRate { bits_per_second, pixels, numerator, denominator })
            },
            _ => None,
        }
    }
}

/// The size of a picture; neither side is zero.
#[derive(Clone, Copy, Debug, PartialEq, Eq, Structural)]
pub struct Resolution {
    height: u32,
    width: u32,
}

impl Resolution {
    pub closed spec fn rows(self) -> u32 {
        self.height
    }

    pub closed spec fn columns(self) -> u32 {
        self.width
    }

    #[verifier::type_invariant]
    spec fn inv(self) -> bool {
        self.height > 0 && self.width > 0
    }

    pub fn new(height: u32, width: u32) -> (r: Result<Self, DomainError>)
        ensures
            match r {
                Ok(x) => height > 0 && width > 0 && x.rows() == height && x.columns() == width,
                Err(e) => (height == 0 || width == 0) && e == DomainError::InvalidResolution,
            },
    {
        if height == 0 || width == 0 {
            return Err(DomainError::InvalidResolution);
        }
        Ok(Resolution { height, width })
    }

    pub fn height(&self) -> (r: u32)
        ensures
            r == self.rows(),
            r > 0,
    {
        proof {
            use_type_invariant(self);
        }
        self.height
    }

    pub fn width(&self) -> (r: u32)
        ensures
            r == self.columns(),
            r > 0,
    {
        proof {
            use_type_invariant(self);
        }
        self.width
    }

    pub fn pixel_count(&self) -> (r: u64)
        ensures
            r == self.rows() * self.columns(),
            r > 0,
    {
        proof {
            use_type_invariant(self);
        }
        let (h, w) = (self.height as u64, self.width as u64);
        assert(0 < h * w <= u32::MAX * u32::MAX) by (nonlinear_arith)
            requires
                0 < h <= u32::MAX,
                0 < w <= u32::MAX,
        ;
        h * w
    }
}

/// How a video stream is encoded.
#[derive(Debug)]
pub enum VideoCodec {
    H264,
    Hevc,
    Av1,
    /// The probe named none.
    Missing,
    Unknown(String),
}

/// How a video stream is encoded, with the name of an unknown codec by its
/// characters.
pub enum CodecView {
    H264,
    Hevc,
    Av1,
    Missing,
    Unknown(Seq<char>),
}

impl View for VideoCodec {
    type V = CodecView;

    open spec fn view(&self) -> CodecView {
        match *self {
            VideoCodec::H264 => CodecView::H264,
            VideoCodec::Hevc => CodecView::Hevc,
            VideoCodec::Av1 => CodecView::Av1,
            VideoCodec::Missing => CodecView::Missing,
            VideoCodec::Unknown(s) => CodecView::Unknown(s@),
        }
    }
}

/// The codec of that name.
pub open spec fn codec_named(s: Seq<char>) -> CodecView {
    if s == "h264"@ {
        CodecView::H264
    } else if s == "hevc"@ {
        CodecView::Hevc
    } else if s == "av1"@ {
        CodecView::Av1
    } else {
        CodecView::Unknown(s)
    }
}

/// The name of a codec.
pub open spec fn codec_name(c: CodecView) -> Seq<char> {
    match c {
        CodecView::H264 => "h264"@,
        CodecView::Hevc => "hevc"@,
        CodecView::Av1 => "av1"@,
        CodecView::Missing => "missing"@,
        CodecView::Unknown(s) => s,
    }
}

impl VideoCodec {
    /// Whether files of this codec are candidates for a transcode. HEVC files
    /// are: those with clearly more bits than they need are worth an encode.
    pub fn needs_transcoding(&self) -> (r: bool)
        ensures
            r == !(self is Av1),
    {
        match self {
            VideoCodec::H264 => true,
            VideoCodec::Hevc => true,
            VideoCodec::Av1 => false,
            VideoCodec::Missing => true,
            VideoCodec::Unknown(_) => true,
        }
    }

    pub fn from_str(s: &str) -> (r: Self)
        ensures
            r@ == codec_named(s@),
    {
        if same_text(s, "h264") {
            VideoCodec::H264
        } else if same_text(s, "hevc") {
            VideoCodec::Hevc
        } else if same_text(s, "av1") {
            VideoCodec::Av1
        } else {
            VideoCodec::Unknown(s.to_owned())
        }
    }

    pub fn as_str(&self) -> (r: &str)
        ensures
            r@ == codec_name(self@),
    {
        match self {
            VideoCodec::H264 => "h264",
            VideoCodec::Hevc => "hevc",
            VideoCodec::Av1 => "av1",
            VideoCodec::Missing => "missing",
            VideoCodec::Unknown(other) => other.as_str(),
        }
    }
}

/// A codec read by name has that name.
pub proof fn law_codec_name_kept(s: Seq<char>)
    ensures
        codec_name(codec_named(s)) == s,
{
}

/// A codec that was read by name is read again from its name. (One that the
/// probe did not name is not: it comes back as an unknown codec.)
pub proof fn law_codec_round_trip(s: Seq<char>)
    ensures
        codec_named(codec_name(codec_named(s))) == codec_named(s),
{
}

/// Bits per second; never zero.
#[derive(Clone, Copy, Debug, PartialEq, Eq, Structural)]
pub struct Bitrate(u64);

impl Bitrate {
    pub closed spec fn bps(self) -> u64 {
        self.0
    }

    #[verifier::type_invariant]
    spec fn inv(self) -> bool {
        self.0 > 0
    }

    pub fn new(value: u64) -> (r: Result<Self, DomainError>)
        ensures
            match r {
                Ok(b) => value > 0 && b.bps() == value,
                Err(e) => value == 0 && e == DomainError::InvalidBitrate,
            },
    {
        if value == 0 {
            return Err(DomainError::InvalidBitrate);
        }
        Ok(Bitrate(value))
    }

    pub fn as_bps(&self) -> (r: u64)
        ensures
            r == self.bps(),
            r > 0,
    {
        proof {
            use_type_invariant(self);
        }
        self.0
    }
}

/// The bitrate that a text stands for: a number other than zero.
pub open spec fn bitrate_read(text: Option<Seq<char>>) -> Option<int> {
    match text {
        Some(s) => match crate::decimal::unsigned_value(s, u64::MAX as int) {
            Some(n) => if n > 0 {
                Some(n)
            } else {
                None
            },
            None => None,
        },
        None => None,
    }
}

/// The first of two optional texts that is there.
pub open spec fn first_text(a: Option<String>, b: Option<String>) -> Option<Seq<char>> {
    match a {
        Some(s) => Some(s@),
        None => crate::text::text_of(b),
    }
}

/// What an optional bitrate holds.
pub open spec fn bps_of(b: Option<Bitrate>) -> Option<int> {
    match b {
        Some(x) => Some(x.bps() as int),
        None => None,
    }
}

/// Reads a bitrate from the first of two texts that is there.
pub fn read_bitrate(text: &Option<String>, fallback: &Option<String>) -> (r: Option<Bitrate>)
    ensures
        bps_of(r) == bitrate_read(first_text(*text, *fallback)),
{
    let s = match text {
        Some(s) => s.as_str(),
        None => match fallback {
            Some(s) => s.as_str(),
            None => {
                return None;
            },
        },
    };
    match parse_u64(s) {
        Some(n) => match Bitrate::new(n) {
            Ok(b) => Some(b),
            Err(_) => None,
        },
        None => None,
    }
}

/// Frames per second as a fraction.
#[derive(Clone, Copy, Debug, PartialEq, Eq, Structural)]
pub struct Framerate {
    numerator: u32,
    denominator: u32,
}

/// The fraction that a text `n/d` stands for, with a denominator that is not
/// zero.
pub open spec fn fraction_of(s: Seq<char>) -> Option<(int, int)> {
    match crate::text::split_at_first(s, '/') {
        Some((n, d)) => match (
            crate::decimal::unsigned_value(n, u32::MAX as int),
            crate::decimal::unsigned_value(d, u32::MAX as int),
        ) {
            (Some(num), Some(den)) => if den != 0 {
                Some((num, den))
            } else {
                None
            },
            _ => None,
        },
        None => None,
    }
}

impl Framerate {
    pub closed spec fn num(self) -> u32 {
        self.numerator
    }

    pub closed spec fn den(self) -> u32 {
        self.denominator
    }

    #[verifier::type_invariant]
    spec fn inv(self) -> bool {
        self.denominator > 0
    }

    /// The text `n/d`.
    pub open spec fn text(self) -> Seq<char> {
        crate::decimal::digits(self.num() as nat) + seq!['/'] + crate::decimal::digits(
            self.den() as nat,
        )
    }

    pub fn new(numerator: u32, denominator: u32) -> (r: Result<Self, DomainError>)
        ensures
            match r {
                Ok(f) => denominator > 0 && f.num() == numerator && f.den() == denominator,
                Err(e) => denominator == 0 && e == DomainError::InvalidFramerate,
            },
    {
        if denominator == 0 {
            return Err(DomainError::InvalidFramerate);
        }
        Ok(Framerate { numerator, denominator })
    }

    /// Reads a framerate from `n/d`.
    pub fn from_str(s: &str) -> (r: Result<Self, DomainError>)
        ensures
            match r {
                Ok(f) => fraction_of(s@) == Some((f.num() as int, f.den() as int)),
                Err(e) => fraction_of(s@) is None && e == DomainError::InvalidFramerate,
            },
    {
        match split_once(s, '/') {
            Some((num, den)) => match (parse_u32(num), parse_u32(den)) {
                (Some(n), Some(d)) => Framerate::new(n, d),
                _ => Err(DomainError::InvalidFramerate),
            },
            None => Err(DomainError::InvalidFramerate),
        }
    }

    /// The numerator and the denominator.
    pub fn parts(&self) -> (r: (u32, u32))
        ensures
            r == (self.num(), self.den()),
            r.1 > 0,
    {
        proof {
            use_type_invariant(self);
        }
        (self.numerator, self.denominator)
    }

    /// The text `n/d`.
    pub fn to_text(&self) -> (r: String)
        ensures
            r@ == self.text(),
    {
        proof {
            reveal_strlit("/");
        }
        let mut r = unsigned_text(self.numerator as u64);
        r.append("/");
        let d = unsigned_text(self.denominator as u64);
        r.append(d.as_str());
        assert(r@ =~= self.text());
        r
    }
}

/// A framerate that is written down is read back as it was. (A zero
/// denominator, which no framerate holds, is refused.)
pub proof fn law_framerate_round_trip(f: Framerate)
    requires
        f.den() > 0,
    ensures
        fraction_of(f.text()) == Some((f.num() as int, f.den() as int)),
{
    let n = crate::decimal::digits(f.num() as nat);
    let d = crate::decimal::digits(f.den() as nat);
    let t = f.text();
    crate::decimal::lemma_digits(f.num() as nat);
    crate::text::lemma_first_position(t, '/');
    assert(t[n.len() as int] == '/');
    assert forall|j: int| 0 <= j < n.len() implies t[j] != '/' by {
        assert(t[j] == n[j]);
        assert(crate::decimal::is_digit(n[j]));
    }
    assert(crate::text::first_position(t, '/') == Some(n.len() as int));
    assert(t.take(n.len() as int) =~= n);
    assert(t.skip(n.len() as int + 1) =~= d);
    crate::decimal::lemma_unsigned_round_trip(f.num() as nat, u32::MAX as int);
    crate::decimal::lemma_unsigned_round_trip(f.den() as nat, u32::MAX as int);
}

/// A duration in seconds: a positive, finite number.
#[derive(Clone, Copy, Debug, PartialEq, Eq, Structural)]
pub struct DurationSecs(Binary64);

/// Whether a number can be a duration.
pub open spec fn is_duration(value: Binary64) -> bool {
    value.is_finite() && (Binary64 { bits: 0 }).below(value)
}

impl DurationSecs {
    pub closed spec fn secs(self) -> Binary64 {
        self.0
    }

    #[verifier::type_invariant]
    spec fn inv(self) -> bool {
        is_duration(self.0)
    }

    pub fn new(value: Binary64) -> (r: Result<Self, DomainError>)
        ensures
            match r {
                Ok(d) => is_duration(value) && d.secs() == value,
                Err(e) => !is_duration(value) && e == DomainError::InvalidDuration,
            },
    {
        let zero = Binary64 { bits: 0 };
        if !(value.finite() && zero.lt(value)) {
            return Err(DomainError::InvalidDuration);
        }
        Ok(DurationSecs(value))
    }

    pub fn as_secs(&self) -> (r: Binary64)
        ensures
            r == self.secs(),
            is_duration(r),
    {
        proof {
            use_type_invariant(self);
        }
        self.0
    }
}

/// How the colours of a picture are to be read.
#[derive(Debug)]
pub struct ColorMetadata {
    pub color_primaries: String,
    pub color_trc: String,
    pub colorspace: String,
    pub master_display: Option<String>,
    pub max_cll: Option<String>,
}

/// The characters of a file's colour metadata.
pub struct ColorView {
    pub color_primaries: Seq<char>,
    pub color_trc: Seq<char>,
    pub colorspace: Seq<char>,
    pub master_display: Option<Seq<char>>,
    pub max_cll: Option<Seq<char>>,
}

impl View for ColorMetadata {
    type V = ColorView;

    open spec fn view(&self) -> ColorView {
        ColorView {
            color_primaries: self.color_primaries@,
            color_trc: self.color_trc@,
            colorspace: self.colorspace@,
            master_display: crate::text::text_of(self.master_display),
            max_cll: crate::text::text_of(self.max_cll),
        }
    }
}

/// The colour volume of the display that a picture was mastered on: the
/// chromaticities in units of 1/50000, the luminances, greatest first, in
/// units of 1/10000.
#[derive(Clone, Copy, Debug)]
pub struct MasterDisplay {
    pub green: (u32, u32),
    pub blue: (u32, u32),
    pub red: (u32, u32),
    pub white_point: (u32, u32),
    pub luminance: (u32, u32),
}

/// The text `(a,b)` behind a label.
pub open spec fn labelled_pair(label: Seq<char>, p: (u32, u32)) -> Seq<char> {
    label + seq!['('] + crate::decimal::digits(p.0 as nat) + seq![','] + crate::decimal::digits(
        p.1 as nat,
    ) + seq![')']
}

/// Appends the text `(a,b)` behind a label.
fn append_pair(out: &mut String, label: &str, p: (u32, u32))
    ensures
        final(out)@ == old(out)@ + labelled_pair(label@, p),
{
    proof {
        reveal_strlit("(");
        reveal_strlit(",");
        reveal_strlit(")");
    }
    out.append(label);
    out.append("(");
    let a = unsigned_text(p.0 as u64);
    out.append(a.as_str());
    out.append(",");
    let b = unsigned_text(p.1 as u64);
    out.append(b.as_str());
    out.append(")");
    assert(out@ =~= old(out)@ + labelled_pair(label@, p));
}

impl MasterDisplay {
    /// The form in which x265 takes it.
    pub open spec fn x265_text(self) -> Seq<char> {
        labelled_pair("G"@, self.green) + labelled_pair("B"@, self.blue) + labelled_pair(
            "R"@,
            self.red,
        ) + labelled_pair("WP"@, self.white_point) + labelled_pair("L"@, self.luminance)
    }

    pub fn to_x265_string(&self) -> (r: String)
        ensures
            r@ == self.x265_text(),
    {
        let mut r = String::new();
        append_pair(&mut r, "G", self.green);
        append_pair(&mut r, "B", self.blue);
        append_pair(&mut r, "R", self.red);
        append_pair(&mut r, "WP", self.white_point);
        append_pair(&mut r, "L", self.luminance);
        assert(r@ =~= self.x265_text());
        r
    }
}

/// The greatest and the average light level of the content.
#[derive(Clone, Copy, Debug, PartialEq, Eq, Structural)]
pub struct MaxCll {
    pub max_content: u16,
    pub max_average: u16,
}

impl MaxCll {
    /// The form in which x265 takes it.
    pub open spec fn x265_text(self) -> Seq<char> {
        crate::decimal::digits(self.max_content as nat) + seq![','] + crate::decimal::digits(
            self.max_average as nat,
        )
    }

    pub fn to_x265_string(&self) -> (r: String)
        ensures
            r@ == self.x265_text(),
    {
        proof {
            reveal_strlit(",");
        }
        let mut r = unsigned_text(self.max_content as u64);
        r.append(",");
        let a = unsigned_text(self.max_average as u64);
        r.append(a.as_str());
        assert(r@ =~= self.x265_text());
        r
    }
}

/// Every codec but AV1 is a candidate for a transcode.
pub proof fn law_only_av1_is_no_candidate(codec: VideoCodec, r: bool)
    requires
        call_ensures(VideoCodec::needs_transcoding, (&codec,), r),
    ensures
        r <==> !(codec is Av1),
{
}

/// Three names stand for codecs, each for its own, and every other name for an
/// unknown codec of that name; a codec that was not named is called missing.
pub proof fn law_codec_names(s: &str, codec: VideoCodec, t: &str)
    requires
        call_ensures(VideoCodec::from_str, (s,), codec) || codec is Missing,
        call_ensures(VideoCodec::as_str, (&codec,), t),
    ensures
        codec is H264 ==> t@ == "h264"@,
        codec is Hevc ==> t@ == "hevc"@,
        codec is Av1 ==> t@ == "av1"@,
        codec is Missing ==> t@ == "missing"@,
        !(codec is Missing) ==> t@ == s@ && {
            &&& codec is H264 <==> s@ == "h264"@
            &&& codec is Hevc <==> s@ == "hevc"@
            &&& codec is Av1 <==> s@ == "av1"@
        },
{
    reveal_strlit("h264");
    reveal_strlit("hevc");
    reveal_strlit("av1");
    assert("h264"@[1] == '2' && "hevc"@[1] == 'e' && "av1"@.len() == 3);
    assert("h264"@.len() == 4 && "hevc"@.len() == 4);
}

/// A resolution is valid where neither side is zero, and holds the sides as
/// they were given; its pixels are their product.
pub proof fn law_resolution(
    height: u32,
    width: u32,
    r: Result<Resolution, DomainError>,
    h: u32,
    w: u32,
    pixels: u64,
)
    requires
        call_ensures(Resolution::new, (height, width), r),
        r matches Ok(x) ==> call_ensures(Resolution::height, (&x,), h) && call_ensures(
            Resolution::width,
            (&x,),
            w,
        ) && call_ensures(Resolution::pixel_count, (&x,), pixels),
    ensures
        r is Ok <==> height != 0 && width != 0,
        r matches Err(e) ==> e is InvalidResolution,
        r is Ok ==> h == height && w == width && pixels == height * width,
{
}

/// A bitrate is valid where it is not zero, and is kept as it was given.
pub proof fn law_bitrate(value: u64, r: Result<Bitrate, DomainError>, bps: u64)
    requires
        call_ensures(Bitrate::new, (value,), r),
        r matches Ok(b) ==> call_ensures(Bitrate::as_bps, (&b,), bps),
    ensures
        r is Ok <==> value != 0,
        r matches Err(e) ==> e is InvalidBitrate,
        r is Ok ==> bps == value,
{
}

/// A framerate is valid where its denominator is not zero, and is kept as it
/// was given; a text with a number on each side of a `/` is read as that
/// fraction, and one without a `/` is refused.
pub proof fn law_framerate(
    n: u32,
    d: u32,
    made: Result<Framerate, DomainError>,
    s: &str,
    read: Result<Framerate, DomainError>,
    parts: (u32, u32),
)
    requires
        call_ensures(Framerate::new, (n, d), made),
        call_ensures(Framerate::from_str, (s,), read),
        made matches Ok(f) ==> call_ensures(Framerate::parts, (&f,), parts),
    ensures
        made is Ok <==> d != 0,
        made is Ok ==> parts == (n, d),
        made matches Err(e) ==> e is InvalidFramerate,
        read matches Err(e) ==> e is InvalidFramerate,
        s@ == crate::decimal::digits(n as nat) + seq!['/'] + crate::decimal::digits(d as nat) ==> {
            &&& read is Ok <==> d != 0
            &&& read matches Ok(f) ==> f.num() == n && f.den() == d
        },
        crate::text::lacks(s@, '/') ==> read is Err,
{
    crate::text::lemma_first_position(s@, '/');
    let (a, b) = (crate::decimal::digits(n as nat), crate::decimal::digits(d as nat));
    if s@ == a + seq!['/'] + b {
        crate::decimal::lemma_digits(n as nat);
        assert(s@[a.len() as int] == '/');
        assert forall|j: int| 0 <= j < a.len() implies s@[j] != '/' by {
            assert(s@[j] == a[j]);
            assert(crate::decimal::is_digit(a[j]));
        }
        assert(crate::text::first_position(s@, '/') == Some(a.len() as int));
        assert(s@.take(a.len() as int) =~= a);
        assert(s@.skip(a.len() as int + 1) =~= b);
        crate::decimal::lemma_unsigned_round_trip(n as nat, u32::MAX as int);
        crate::decimal::lemma_unsigned_round_trip(d as nat, u32::MAX as int);
    }
}

/// A duration is a positive, finite number: its bits lie between those of zero
/// and those of infinity. It is kept as it was given.
pub proof fn law_duration(value: Binary64, r: Result<DurationSecs, DomainError>, secs: Binary64)
    requires
        call_ensures(DurationSecs::new, (value,), r),
        r matches Ok(d) ==> call_ensures(DurationSecs::as_secs, (&d,), secs),
    ensures
        r is Ok <==> 0 < value.bits < 0x7ff0_0000_0000_0000,
        r is Ok ==> secs == value,
        r matches Err(e) ==> e is InvalidDuration,
{
    crate::rounding::lemma_zero();
    let m = value.unsigned_bits();
    crate::binary::lemma_magnitude_zero(52);
    if m > 0 {
        crate::binary::lemma_magnitude_order(0, m, 52);
    }
}

/// The bitrate of a stream is read where it states one, and that of the
/// container otherwise; what is read is a number other than zero.
pub proof fn law_bitrate_is_the_streams(
    stream: Option<String>,
    container: Option<String>,
    r: Option<Bitrate>,
    n: u64,
)
    requires
        call_ensures(read_bitrate, (&stream, &container), r),
    ensures
        stream is None && container is None ==> r is None,
        stream matches Some(t) ==> t@ == crate::decimal::digits(n as nat) ==> {
            &&& r is Some <==> n != 0
            &&& r matches Some(b) ==> b.bps() == n
        },
        stream is None && container is Some && container->0@ == crate::decimal::digits(n as nat)
            ==> {
            &&& r is Some <==> n != 0
            &&& r matches Some(b) ==> b.bps() == n
        },
{
    crate::decimal::lemma_unsigned_round_trip(n as nat, u64::MAX as int);
}

/// The bits per pixel are computed from the bitrate, the product of the sides
/// and the framerate as they are, and from nothing where one is missing.
pub proof fn law_what_bits_per_pixel_come_from(vp: VideoProperties, r: Option<PixelRate>)
    requires
        call_ensures(VideoProperties::bits_per_pixel, (&vp,), r),
    ensures
        r is Some <==> vp.bitrate is Some && vp.framerate is Some,
        r matches Some(p) ==> p.bits_per_second == vp.bitrate->0.bps() && p.pixels
            == vp.resolution.rows() * vp.resolution.columns() && p.numerator
            == vp.framerate->0.num() && p.denominator == vp.framerate->0.den(),
{
    let (h, w) = (vp.resolution.rows() as int, vp.resolution.columns() as int);
    assert(0 <= h * w <= u32::MAX * u32::MAX) by (nonlinear_arith)
        requires
            0 <= h <= u32::MAX,
            0 <= w <= u32::MAX,
    ;
}

/// x265 is told of a mastering display with the green, the blue and the red
/// point, the white point and the luminances, in this order, and of the light
/// levels with the greatest before the average.
pub proof fn law_x265_texts(d: MasterDisplay, l: MaxCll, display: String, levels: String)
    requires
        call_ensures(MasterDisplay::to_x265_string, (&d,), display),
        call_ensures(MaxCll::to_x265_string, (&l,), levels),
    ensures
        ({
            let pair = |label: Seq<char>, p: (u32, u32)|
                label + seq!['('] + crate::decimal::digits(p.0 as nat) + seq![',']
                    + crate::decimal::digits(p.1 as nat) + seq![')'];
            display@ == pair("G"@, d.green) + pair("B"@, d.blue) + pair("R"@, d.red) + pair(
                "WP"@,
                d.white_point,
            ) + pair("L"@, d.luminance)
        }),
        levels@ == crate::decimal::digits(l.max_content as nat) + seq![',']
            + crate::decimal::digits(l.max_average as nat),
{
}

/// What is read as a framerate, whatever stands on the two sides of the first
/// `/`: the fraction of the two numbers, where both are such and the second is
/// not zero.
pub proof fn law_any_framerate(
    s: &str,
    a: &str,
    b: &str,
    x: Option<u32>,
    y: Option<u32>,
    r: Result<Framerate, DomainError>,
)
    requires
        call_ensures(Framerate::from_str, (s,), r),
        s@ == a@ + seq!['/'] + b@,
        crate::text::lacks(a@, '/'),
        call_ensures(parse_u32, (a,), x),
        call_ensures(parse_u32, (b,), y),
    ensures
        r is Ok <==> x is Some && y is Some && y->0 != 0,
        r matches Ok(f) ==> f.num() == x->0 && f.den() == y->0,
{
    crate::text::lemma_first_position(s@, '/');
    assert(s@[a@.len() as int] == '/');
    assert forall|j: int| 0 <= j < a@.len() implies s@[j] != '/' by {
        assert(s@[j] == a@[j]);
    }
    assert(crate::text::first_position(s@, '/') == Some(a@.len() as int));
    assert(s@.take(a@.len() as int) =~= a@);
    assert(s@.skip(a@.len() as int + 1) =~= b@);
}

/// A bitrate is read from whatever text counts: that of the stream where there
/// is one, also where it cannot be read, and that of the container otherwise.
pub proof fn law_any_bitrate(
    stream: Option<String>,
    container: Option<String>,
    text: &str,
    n: Option<u64>,
    r: Option<Bitrate>,
)
    requires
        call_ensures(read_bitrate, (&stream, &container), r),
        call_ensures(crate::decimal::parse_u64, (text,), n),
        stream is Some ==> text@ == stream->0@,
        stream is None && container is Some ==> text@ == container->0@,
    ensures
        r is Some <==> (stream is Some || container is Some) && n is Some && n->0 != 0,
        r matches Some(b) ==> b.bps() == n->0,
{
}

/// A framerate is written as its numerator, a `/` and its denominator.
pub proof fn law_framerates_are_written(f: Framerate, t: String)
    requires
        call_ensures(Framerate::to_text, (&f,), t),
    ensures
        t@ == crate::decimal::digits(f.num() as nat) + seq!['/'] + crate::decimal::digits(
            f.den() as nat,
        ),
{
    reveal_strlit("/");
    assert("/"@ =~= seq!['/']);
}

} // verus!
