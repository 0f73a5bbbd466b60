//! Whether a file is worth a transcode, and at which quality.
use vstd::prelude::*;

use crate::binary::{Binary32, Binary64};
use crate::models::media_file::MediaFile;
use crate::models::transcode::{SkipReason, TranscodeDecision};
use crate::models::video::{VideoCodec, VideoProperties};
use crate::store::error::StoreError;

verus! {

/// The bits of 7.5.
pub const RATING_HIGH: u32 = 0x40f0_0000;

/// The bits of 6.
pub const RATING_GOOD: u32 = 0x40c0_0000;

/// The bits of 4.
pub const RATING_FAIR: u32 = 0x4080_0000;

/// The bits of the number nearest to 0.15.
pub const BPP_HIGH: u64 = 0x3fc3_3333_3333_3333;

/// The bits of the number nearest to 0.08.
pub const BPP_MIDDLE: u64 = 0x3fb4_7ae1_47ae_147b;

/// The bits of the number nearest to 0.05.
pub const BPP_LOW: u64 = 0x3fa9_9999_9999_999a;

/// The bits of 10, by which a potential is scaled.
pub const SCALE: u64 = 0x4024_0000_0000_0000;

/// The bits of 1.
pub const ONE: u64 = 0x3ff0_0000_0000_0000;

/// What files have to come to.
#[derive(Clone, Copy, Debug, PartialEq, Eq, Structural)]
pub struct TakeTranscodeDecisionService {
    pub min_size_per_hour_gb: Binary64,
    pub min_bpp: Binary64,
    pub min_bpp_hevc: Binary64,
    pub min_compression_potential: Binary64,
}

/// What was computed of a file. A number is read only where the file holds
/// what it is computed from.
#[derive(Clone, Copy, Debug, PartialEq, Eq, Structural)]
pub struct Measures {
    /// The size in GB per hour of the duration.
    pub size_per_hour_gb: Binary64,
    /// The bits per pixel.
    pub bpp: Binary64,
    /// What the bits per pixel exceed the minimum by, times ten, times the
    /// factor for the resolution.
    pub compression_potential: Binary64,
    /// What the bits per pixel exceed the minimum by, over the bits per pixel.
    pub saving_ratio: Binary64,
}

/// A number brought into the range from 0 to 1.
pub open spec fn clamped(x: Binary64) -> Binary64 {
    if x.below(Binary64 { bits: 0 }) {
        Binary64 { bits: 0 }
    } else if (Binary64 { bits: ONE }).below(x) {
        Binary64 { bits: ONE }
    } else {
        x
    }
}

/// Brings a number into the range from 0 to 1.
fn clamp_unit(x: Binary64) -> (r: Binary64)
    ensures
        r == clamped(x),
{
    let zero = Binary64 { bits: 0 };
    let one = Binary64 { bits: ONE };
    if x.lt(zero) {
        zero
    } else if one.lt(x) {
        one
    } else {
        x
    }
}

/// The rate factor that a rating stands for: the better the rating the better
/// the quality, and a middle one where there is no rating.
pub open spec fn base_crf(rating: Option<Binary32>) -> int {
    match rating {
        Some(r) => if (Binary32 { bits: RATING_HIGH }).at_most(r) {
            22
        } else if (Binary32 { bits: RATING_GOOD }).at_most(r) {
            24
        } else if (Binary32 { bits: RATING_FAIR }).at_most(r) {
            26
        } else {
            28
        },
        None => 24,
    }
}

/// What the bits per pixel change of the rate factor.
pub open spec fn crf_adjustment(bpp: Binary64) -> int {
    if (Binary64 { bits: BPP_HIGH }).at_most(bpp) {
        -1
    } else if (Binary64 { bits: BPP_MIDDLE }).at_most(bpp) {
        0
    } else if (Binary64 { bits: BPP_LOW }).at_most(bpp) {
        1
    } else {
        2
    }
}

/// The rate factor for a file.
pub fn crf_from_rating_and_bpp(bpp: Binary64, rating: Option<Binary32>) -> (r: u8)
    ensures
        r == base_crf(rating) + crf_adjustment(bpp),
        20 <= r <= 30,
{
    let base: i8 = match rating {
        Some(r) => {
            if (Binary32 { bits: RATING_HIGH }).le(r) {
                22
            } else if (Binary32 { bits: RATING_GOOD }).le(r) {
                24
            } else if (Binary32 { bits: RATING_FAIR }).le(r) {
                26
            } else {
                28
            }
        },
        None => 24,
    };
    let adjustment: i8 = if (Binary64 { bits: BPP_HIGH }).le(bpp) {
        -1
    } else if (Binary64 { bits: BPP_MIDDLE }).le(bpp) {
        0
    } else if (Binary64 { bits: BPP_LOW }).le(bpp) {
        1
    } else {
        2
    };
    let crf: i8 = base + adjustment;
    if crf < 20 {
        20
    } else if crf > 30 {
        30
    } else {
        crf as u8
    }
}

/// The number of pixels, as far as 32 bits hold it.
pub open spec fn pixels(height: u32, width: u32) -> int {
    if height * width > u32::MAX {
        u32::MAX as int
    } else {
        height * width
    }
}

/// How much more a reduction is worth at a greater resolution: the bits of 3,
/// 1.5, 1 or the number nearest to 0.6.
pub open spec fn factor_of(height: u32, width: u32) -> Binary32 {
    Binary32 {
        bits: if pixels(height, width) >= 3840 * 2160 {
            0x4040_0000
        } else if pixels(height, width) >= 1920 * 1080 {
            0x3fc0_0000
        } else if pixels(height, width) >= 1280 * 720 {
            0x3f80_0000
        } else {
            0x3f19_999a
        },
    }
}

/// How much more a reduction is worth at a greater resolution.
pub fn resolution_factor(height: u32, width: u32) -> (r: Binary32)
    ensures
        r == factor_of(height, width),
{
    assert(0 <= height * width <= u32::MAX * u32::MAX) by (nonlinear_arith)
        requires
            0 <= height <= u32::MAX,
            0 <= width <= u32::MAX,
    ;
    let product: u64 = height as u64 * width as u64;
    let p: u64 = if product > u32::MAX as u64 {
        u32::MAX as u64
    } else {
        product
    };
    if p >= 3840 * 2160 {
        Binary32 { bits: 0x4040_0000 }
    } else if p >= 1920 * 1080 {
        Binary32 { bits: 0x3fc0_0000 }
    } else if p >= 1280 * 720 {
        Binary32 { bits: 0x3f80_0000 }
    } else {
        Binary32 { bits: 0x3f19_999a }
    }
}

impl TakeTranscodeDecisionService {
    pub fn new(
        min_size_per_hour_gb: Binary64,
        min_bpp: Binary64,
        min_bpp_hevc: Binary64,
        min_compression_potential: Binary64,
    ) -> (r: Self)
        ensures
            r.min_size_per_hour_gb == min_size_per_hour_gb,
            r.min_bpp == min_bpp,
            r.min_bpp_hevc == min_bpp_hevc,
            r.min_compression_potential == min_compression_potential,
    {
        TakeTranscodeDecisionService {
            min_size_per_hour_gb,
            min_bpp,
            min_bpp_hevc,
            min_compression_potential,
        }
    }

    /// The bits per pixel from which on a file of a codec is worth an encode.
    /// HEVC is efficient already and has a minimum of its own.
    pub open spec fn min_bpp_for(self, codec: VideoCodec) -> Binary64 {
        if codec is Hevc {
            self.min_bpp_hevc
        } else {
            self.min_bpp
        }
    }

    /// The bits per pixel from which on a file of a codec is worth an encode.
    pub fn effective_min_bpp(&self, codec: &VideoCodec) -> (r: Binary64)
        ensures
            r == self.min_bpp_for(*codec),
    {
        match codec {
            VideoCodec::Hevc => self.min_bpp_hevc,
            _ => self.min_bpp,
        }
    }

    /// What is decided of a file, by the first of these that applies.
    pub open spec fn decided(
        self,
        file: MediaFile,
        tmdb_rating: Option<Binary32>,
        m: Measures,
    ) -> TranscodeDecision {
        match file.video_properties {
            None => TranscodeDecision::Skip(SkipReason::MissingProbeData),
            Some(vp) => if vp.dv_profile is Some {
                TranscodeDecision::Skip(SkipReason::DolbyVision)
            } else if vp.video_codec is Av1 {
                TranscodeDecision::Skip(SkipReason::ExcludedCodec)
            } else if vp.duration is None {
                TranscodeDecision::Skip(SkipReason::MissingProbeData)
            } else if m.size_per_hour_gb.below(self.min_size_per_hour_gb) {
                TranscodeDecision::Skip(SkipReason::FileTooSmall)
            } else if vp.pixel_rate() is None {
                TranscodeDecision::Skip(SkipReason::MissingProbeData)
            } else if m.bpp.below(self.min_bpp_for(vp.video_codec)) {
                TranscodeDecision::Skip(SkipReason::AlreadyCompressed)
            } else if m.compression_potential.at_most(self.min_compression_potential) {
                TranscodeDecision::SkipWithAnalysis {
                    reason: SkipReason::InsufficientCompressionPotential,
                    bpp: m.bpp,
                    compression_potential: m.compression_potential,
                }
            } else {
                TranscodeDecision::Encode {
                    bpp: m.bpp,
                    compression_potential: m.compression_potential,
                    crf: (base_crf(tmdb_rating) + crf_adjustment(m.bpp)) as u8,
                    estimated_saving_ratio: clamped(m.saving_ratio),
                }
            },
        }
    }

    pub fn execute(&self, file: &MediaFile, tmdb_rating: Option<Binary32>, m: &Measures) -> (r:
        TranscodeDecision)
        ensures
            r == self.decided(*file, tmdb_rating, *m),
    {
        let vp = match &file.video_properties {
            Some(vp) => vp,
            None => {
                return TranscodeDecision::Skip(SkipReason::MissingProbeData);
            },
        };
        if vp.dv_profile.is_some() {
            return TranscodeDecision::Skip(SkipReason::DolbyVision);
        }
        if !vp.video_codec.needs_transcoding() {
            return TranscodeDecision::Skip(SkipReason::ExcludedCodec);
        }
        if vp.duration.is_none() {
            return TranscodeDecision::Skip(SkipReason::MissingProbeData);
        }
        if m.size_per_hour_gb.lt(self.min_size_per_hour_gb) {
            return TranscodeDecision::Skip(SkipReason::FileTooSmall);
        }
        if vp.bits_per_pixel().is_none() {
            return TranscodeDecision::Skip(SkipReason::MissingProbeData);
        }
        if m.bpp.lt(self.effective_min_bpp(&vp.video_codec)) {
            return TranscodeDecision::Skip(SkipReason::AlreadyCompressed);
        }
        if m.compression_potential.le(self.min_compression_potential) {
            return TranscodeDecision::SkipWithAnalysis {
                reason: SkipReason::InsufficientCompressionPotential,
                bpp: m.bpp,
                compression_potential: m.compression_potential,
            };
        }
        TranscodeDecision::Encode {
            bpp: m.bpp,
            compression_potential: m.compression_potential,
            crf: crf_from_rating_and_bpp(m.bpp, tmdb_rating),
            estimated_saving_ratio: clamp_unit(m.saving_ratio),
        }
    }
}

/// A file with Dolby Vision is never encoded, and always skipped for that
/// reason.
pub proof fn law_dolby_vision_is_skipped(
    service: TakeTranscodeDecisionService,
    file: MediaFile,
    tmdb_rating: Option<Binary32>,
    m: Measures,
)
    requires
        file.video_properties matches Some(vp) && vp.dv_profile is Some,
    ensures
        service.decided(file, tmdb_rating, m) == TranscodeDecision::Skip(SkipReason::DolbyVision),
{
}

/// A file is encoded only where its bits per pixel are known and are not below
/// the minimum, and the potential is not at or below its own.
pub proof fn law_encode_means_worth_it(
    service: TakeTranscodeDecisionService,
    file: MediaFile,
    tmdb_rating: Option<Binary32>,
    m: Measures,
)
    requires
        service.decided(file, tmdb_rating, m) is Encode,
    ensures
        file.video_properties matches Some(vp) && vp.dv_profile is None && vp.duration is Some
            && vp.bitrate is Some && vp.framerate is Some && !m.bpp.below(
            service.min_bpp_for(vp.video_codec),
        ),
        !m.compression_potential.at_most(service.min_compression_potential),
{
}

/// An HEVC file without Dolby Vision that is large enough and of which all is
/// known is encoded exactly where its bits per pixel are not below the minimum
/// for HEVC and the potential is not at or below its own; the minimum for the
/// other codecs plays no part.
pub proof fn law_hevc_has_its_own_minimum(
    service: TakeTranscodeDecisionService,
    file: MediaFile,
    tmdb_rating: Option<Binary32>,
    m: Measures,
)
    requires
        file.video_properties matches Some(vp) && vp.video_codec is Hevc,
    ensures
        service.decided(file, tmdb_rating, m) is Encode <==> {
            &&& file.video_properties->0.dv_profile is None
            &&& file.video_properties->0.duration is Some
            &&& !m.size_per_hour_gb.below(service.min_size_per_hour_gb)
            &&& file.video_properties->0.pixel_rate() is Some
            &&& !m.bpp.below(service.min_bpp_hevc)
            &&& !m.compression_potential.at_most(service.min_compression_potential)
        },
        service.decided(file, tmdb_rating, m) is Encode && !m.bpp.is_nan()
            && !service.min_bpp_hevc.is_nan() ==> service.min_bpp_hevc.at_most(m.bpp),
{
}

/// A decision with its rate factor left out.
pub open spec fn without_crf(d: TranscodeDecision) -> TranscodeDecision {
    match d {
        TranscodeDecision::Encode { bpp, compression_potential, crf, estimated_saving_ratio } =>
            TranscodeDecision::Encode { bpp, compression_potential, crf: 0, estimated_saving_ratio },
        _ => d,
    }
}

/// A rating changes nothing of a decision but the rate factor.
pub proof fn law_rating_changes_only_the_quality(
    service: TakeTranscodeDecisionService,
    file: MediaFile,
    a: Option<Binary32>,
    b: Option<Binary32>,
    m: Measures,
)
    ensures
        without_crf(service.decided(file, a, m)) == without_crf(service.decided(file, b, m)),
{
}

/// The numbers on the way to what is computed of a file.
pub struct Workings {
    /// The bits per second.
    pub bits: Binary64,
    /// The pixels of a picture.
    pub pixels: Binary64,
    /// The pictures per second.
    pub frames: Binary64,
    /// The pixels per second.
    pub rate: Binary64,
    /// What the bits per pixel exceed the minimum by.
    pub excess: Binary64,
    /// Ten times that.
    pub tenfold: Binary64,
    /// The factor for the resolution.
    pub factor: Binary64,
}

/// Whether the bits per pixel, the potential and the ratio are those of a
/// file: each number on the way is the exact result of its step, rounded. The
/// bits per pixel are the bits per second over the pixels per second, the
/// potential is what they exceed the minimum by, times ten, times the factor
/// for the resolution, and the ratio is that excess over the bits per pixel.
pub open spec fn is_measured(
    m: Measures,
    w: Workings,
    vp: VideoProperties,
    min_bpp: Binary64,
) -> bool {
    let p = vp.pixel_rate()->0;
    &&& vp.pixel_rate() is Some
    &&& crate::rounding::is_converted(w.bits, p.bits_per_second as int)
    &&& crate::rounding::is_converted(w.pixels, p.pixels as int)
    &&& crate::rounding::is_rounded(
        w.frames,
        p.numerator * crate::rounding::one(),
        p.denominator as int,
    )
    &&& crate::rounding::is_product(w.rate, w.pixels, w.frames)
    &&& crate::rounding::is_quotient(m.bpp, w.bits, w.rate)
    &&& crate::rounding::is_difference(w.excess, m.bpp, min_bpp)
    &&& crate::rounding::is_product(w.tenfold, w.excess, Binary64 { bits: SCALE })
    &&& w.factor.is_finite()
    &&& w.factor.scaled() == factor_of(vp.resolution.rows(), vp.resolution.columns()).scaled()
        * vstd::arithmetic::power2::pow2(925)
    &&& crate::rounding::is_product(m.compression_potential, w.tenfold, w.factor)
    &&& crate::rounding::is_quotient(m.saving_ratio, w.excess, m.bpp)
}

/// The bits per pixel of a file that moves are a positive, finite number.
proof fn lemma_bpp_is_positive(
    m: Measures,
    w: Workings,
    vp: VideoProperties,
    min_bpp: Binary64,
)
    requires
        is_measured(m, w, vp, min_bpp),
        vp.pixel_rate() matches Some(p) && p.bits_per_second > 0 && p.pixels > 0 && p.numerator > 0
            && p.denominator > 0,
    ensures
        m.bpp.is_finite(),
        m.bpp.scaled() > 0,
{
    let p = vp.pixel_rate()->0;
    let u = crate::rounding::one();
    vstd::arithmetic::power2::lemma2_to64();
    vstd::arithmetic::power2::lemma2_to64_rest();
    vstd::arithmetic::power2::lemma_pow2_adds(1074, 64);
    vstd::arithmetic::power2::lemma_pow2_adds(1042, 32);
    vstd::arithmetic::power2::lemma_pow2_adds(1074, 32);
    vstd::arithmetic::power2::lemma_pow2_adds(1074, 1042);
    vstd::arithmetic::power2::lemma_pow2_adds(1138, 1106);
    vstd::arithmetic::power2::lemma_pow2_adds(1170, 1074);
    vstd::arithmetic::power2::lemma_pow2_adds(978, 1170);
    vstd::arithmetic::power2::lemma_pow2_adds(1074, 1074);
    vstd::arithmetic::power2::lemma_pow2_adds(1170, 1042);
    vstd::arithmetic::power2::lemma_pow2_adds(1138, 1074);
    vstd::arithmetic::power2::lemma_pow2_pos(1074);
    vstd::arithmetic::power2::lemma_pow2_pos(1042);
    vstd::arithmetic::power2::lemma_pow2_pos(978);
    crate::rounding::lemma_power(0);
    crate::rounding::lemma_power(64);
    crate::rounding::lemma_power(-32);
    crate::rounding::lemma_power(32);
    crate::rounding::lemma_power(96);
    crate::rounding::lemma_power(-96);
    let one = crate::rounding::power(0);
    let much = crate::rounding::power(64);
    let small = crate::rounding::power(-32);
    let large = crate::rounding::power(96);
    lemma_between(p.bits_per_second as int, u);
    lemma_between(p.pixels as int, u);
    crate::rounding::lemma_rounded_between(w.bits, one, much, p.bits_per_second * u, 1);
    crate::rounding::lemma_rounded_between(w.pixels, one, much, p.pixels * u, 1);
    let (n, d) = (p.numerator as int, p.denominator as int);
    let low = small.scaled();
    assert(u == low * 0x1_0000_0000);
    assert(low * d <= n * u) by (nonlinear_arith)
        requires
            u == low * 0x1_0000_0000,
            0 < d <= 0x1_0000_0000,
            n >= 1,
            low > 0,
    ;
    let high = crate::rounding::power(32).scaled();
    assert(high == u * 0x1_0000_0000);
    assert(n * u <= high * d) by (nonlinear_arith)
        requires
            high == u * 0x1_0000_0000,
            0 < n <= 0x1_0000_0000,
            d >= 1,
            u > 0,
    ;
    crate::rounding::lemma_rounded_between(
        w.frames,
        small,
        crate::rounding::power(32),
        n * u,
        d,
    );
    let (x, f) = (w.pixels.scaled(), w.frames.scaled());
    assert(u * low <= x * f <= much.scaled() * high) by (nonlinear_arith)
        requires
            0 < u <= x <= much.scaled(),
            0 < low <= f <= high,
    ;
    assert(low * u == u * low) by (nonlinear_arith);
    assert(large.scaled() * u == much.scaled() * high);
    crate::rounding::lemma_rounded_between(w.rate, small, large, x * f, u);
    let (b, r) = (w.bits.scaled(), w.rate.scaled());
    let least = crate::rounding::power(-96).scaled();
    assert(least * large.scaled() == u * u);
    assert(large.scaled() * low == much.scaled() * u);
    assert(least * r <= b * u <= large.scaled() * r) by (nonlinear_arith)
        requires
            least * large.scaled() == u * u,
            large.scaled() * low == much.scaled() * u,
            0 < u <= b <= much.scaled(),
            0 < low <= r <= large.scaled(),
            least > 0,
            large.scaled() > 0,
    ;
    crate::rounding::lemma_rounded_between(
        m.bpp,
        crate::rounding::power(-96),
        large,
        b * u,
        r,
    );
}

/// A positive number of 64 bits lies between 1 and 2 to the 64th.
proof fn lemma_between(n: int, u: int)
    requires
        0 < n <= u64::MAX,
        u > 0,
    ensures
        u * 1 <= n * u <= (u * 0x1_0000_0000_0000_0000) * 1,
{
    assert(u <= n * u <= u * 0x1_0000_0000_0000_0000) by (nonlinear_arith)
        requires
            0 < n <= 0x1_0000_0000_0000_0000,
            u > 0,
    ;
}

/// What is computed of a file that moves, against a positive minimum: the
/// potential is positive only where the bits per pixel exceed the minimum, and
/// the ratio lies between 0 and 1 there.
pub proof fn law_measures_are_sound(
    m: Measures,
    w: Workings,
    vp: VideoProperties,
    min_bpp: Binary64,
)
    requires
        is_measured(m, w, vp, min_bpp),
        vp.pixel_rate() matches Some(p) && p.bits_per_second > 0 && p.pixels > 0 && p.numerator > 0
            && p.denominator > 0,
        min_bpp.is_finite(),
        (Binary64 { bits: 0 }).below(min_bpp),
    ensures
        !m.bpp.is_nan() && !m.compression_potential.is_nan() && !m.saving_ratio.is_nan(),
        (Binary64 { bits: 0 }).below(m.bpp),
        (Binary64 { bits: 0 }).below(m.compression_potential) ==> min_bpp.below(m.bpp),
        min_bpp.below(m.bpp) ==> (Binary64 { bits: 0 }).at_most(m.saving_ratio)
            && m.saving_ratio.at_most(Binary64 { bits: ONE }),
{
    let zero = Binary64 { bits: 0 };
    let scale = Binary64 { bits: SCALE };
    let u = crate::rounding::one();
    lemma_bpp_is_positive(m, w, vp, min_bpp);
    crate::rounding::lemma_zero();
    crate::rounding::lemma_power(0);
    vstd::arithmetic::power2::lemma_pow2_pos(1074);
    vstd::arithmetic::power2::lemma_pow2_pos(925);
    crate::rounding::lemma_finite(m.bpp);
    crate::rounding::lemma_finite(min_bpp);
    crate::binary::lemma_magnitude_order(0, scale.unsigned_bits(), 52);
    crate::binary::lemma_magnitude_zero(52);
    let given = factor_of(vp.resolution.rows(), vp.resolution.columns());
    crate::binary::lemma_magnitude_order(0, given.unsigned_bits(), 23);
    crate::binary::lemma_magnitude_zero(23);
    let f = w.factor.scaled();
    assert(f > 0) by (nonlinear_arith)
        requires
            f == given.scaled() * vstd::arithmetic::power2::pow2(925),
            given.scaled() > 0,
            vstd::arithmetic::power2::pow2(925) > 0,
    ;
    let e = w.excess.scaled();
    let top = m.bpp.scaled() - min_bpp.scaled();
    assert(w.excess.is_finite());
    crate::rounding::lemma_finite(w.excess);
    if !min_bpp.below(m.bpp) {
        crate::rounding::lemma_rounded_at_most(w.excess, zero, top, 1);
        let s = scale.scaled();
        assert(e * s <= 0) by (nonlinear_arith)
            requires
                e <= 0,
                s > 0,
        ;
        crate::rounding::lemma_rounded_at_most(w.tenfold, zero, e * s, u);
        let t = w.tenfold.scaled();
        if w.tenfold.is_finite() {
            assert(t * f <= 0) by (nonlinear_arith)
                requires
                    t <= 0,
                    f > 0,
            ;
            crate::rounding::lemma_rounded_at_most(m.compression_potential, zero, t * f, u);
        }
    } else {
        crate::rounding::lemma_rounded_between(w.excess, zero, m.bpp, top, 1);
        let b = m.bpp.scaled();
        assert(0 <= e * u <= u * b) by (nonlinear_arith)
            requires
                0 <= e <= b,
                u > 0,
        ;
        crate::rounding::lemma_rounded_between(
            m.saving_ratio,
            zero,
            crate::rounding::power(0),
            e * u,
            b,
        );
        assert(crate::rounding::power(0) == (Binary64 { bits: ONE }));
    }
}

/// What an encode of a file that moves states, where the minima are a positive
/// number and one that is not negative: the bits per pixel exceed the minimum
/// of the codec, the potential exceeds its own, the rate factor is that of the
/// rating and the bits per pixel, and the ratio is the one that was computed,
/// which lies between 0 and 1.
pub proof fn law_encode_states_what_was_computed(
    service: TakeTranscodeDecisionService,
    file: MediaFile,
    tmdb_rating: Option<Binary32>,
    m: Measures,
    w: Workings,
)
    requires
        file.video_properties matches Some(vp) && is_measured(
            m,
            w,
            vp,
            service.min_bpp_for(vp.video_codec),
        ) && service.min_bpp_for(vp.video_codec).is_finite() && (Binary64 { bits: 0 }).below(
            service.min_bpp_for(vp.video_codec),
        ) && (vp.pixel_rate() matches Some(p) && p.bits_per_second > 0 && p.pixels > 0
            && p.numerator > 0 && p.denominator > 0),
        (Binary64 { bits: 0 }).at_most(service.min_compression_potential),
        service.decided(file, tmdb_rating, m) is Encode,
    ensures
        service.min_bpp_for(file.video_properties->0.video_codec).below(m.bpp),
        service.min_compression_potential.below(m.compression_potential),
        (Binary64 { bits: 0 }).at_most(m.saving_ratio),
        m.saving_ratio.at_most(Binary64 { bits: ONE }),
        service.decided(file, tmdb_rating, m) == (TranscodeDecision::Encode {
            bpp: m.bpp,
            compression_potential: m.compression_potential,
            crf: (base_crf(tmdb_rating) + crf_adjustment(m.bpp)) as u8,
            estimated_saving_ratio: m.saving_ratio,
        }),
{
    let vp = file.video_properties->0;
    law_measures_are_sound(m, w, vp, service.min_bpp_for(vp.video_codec));
}

/// A better rating never leads to a lower quality.
pub proof fn law_better_rating_better_quality(bpp: Binary64, a: Binary32, b: Binary32)
    requires
        a.at_most(b),
    ensures
        base_crf(Some(b)) + crf_adjustment(bpp) <= base_crf(Some(a)) + crf_adjustment(bpp),
{
}

/// More bits per pixel never lead to a lower quality.
pub proof fn law_more_bits_better_quality(rating: Option<Binary32>, a: Binary64, b: Binary64)
    requires
        a.at_most(b),
    ensures
        base_crf(rating) + crf_adjustment(b) <= base_crf(rating) + crf_adjustment(a),
{
}

/// What is to be made of the result of storing a decision: one that another
/// worker has stored already is no error.
pub fn analysis_stored(result: Result<(), StoreError>) -> (r: Result<(), StoreError>)
    ensures
        r == (match result {
            Err(StoreError::StaleState { .. }) => Ok(()),
            other => other,
        }),
{
    match result {
        Err(StoreError::StaleState { .. }) => Ok(()),
        other => other,
    }
}

/// When each decision is made, for every file and codec. A file is encoded
/// exactly where it has no Dolby Vision profile, is not AV1, its duration, its
/// bitrate and its framerate are known, its size per hour and its bits per
/// pixel are not below their minima, and the potential is not at or below its
/// own; the minimum of bits per pixel is that for HEVC for an HEVC file, and
/// the common one for any other. Of what else a file holds, its resolution for
/// one, nothing enters but through the numbers.
pub proof fn law_when_a_file_is_encoded(
    service: TakeTranscodeDecisionService,
    file: MediaFile,
    tmdb_rating: Option<Binary32>,
    m: Measures,
    r: TranscodeDecision,
)
    requires
        call_ensures(
            TakeTranscodeDecisionService::execute,
            (&service, &file, tmdb_rating, &m),
            r,
        ),
    ensures
        file.video_properties is None ==> r == TranscodeDecision::Skip(
            SkipReason::MissingProbeData,
        ),
        file.video_properties matches Some(vp) ==> {
            let plain = vp.dv_profile is None && !(vp.video_codec is Av1);
            let small = m.size_per_hour_gb.below(service.min_size_per_hour_gb);
            let lean = if vp.video_codec is Hevc {
                m.bpp.below(service.min_bpp_hevc)
            } else {
                m.bpp.below(service.min_bpp)
            };
            let known = vp.bitrate is Some && vp.framerate is Some;
            let poor = m.compression_potential.at_most(service.min_compression_potential);
            &&& r == TranscodeDecision::Skip(SkipReason::DolbyVision) <==> vp.dv_profile is Some
            &&& r == TranscodeDecision::Skip(SkipReason::ExcludedCodec) <==> vp.dv_profile is None
                && vp.video_codec is Av1
            &&& r == TranscodeDecision::Skip(SkipReason::FileTooSmall) <==> plain
                && vp.duration is Some && small
            &&& r == TranscodeDecision::Skip(SkipReason::MissingProbeData) <==> plain && (
            vp.duration is None || (!small && !known))
            &&& r == TranscodeDecision::Skip(SkipReason::AlreadyCompressed) <==> plain
                && vp.duration is Some && !small && known && lean
            &&& r is SkipWithAnalysis <==> plain && vp.duration is Some && !small && known && !lean
                && poor
            &&& r is Encode <==> plain && vp.duration is Some && !small && known && !lean && !poor
        },
{
}

/// What a decision states beside its kind: the numbers that were measured, the
/// rate factor that the rating and the bits per pixel lead to, and the ratio,
/// which is the measured one where that lies between 0 and 1, and the nearer
/// of the two otherwise.
pub proof fn law_what_a_decision_states(
    service: TakeTranscodeDecisionService,
    file: MediaFile,
    tmdb_rating: Option<Binary32>,
    m: Measures,
    r: TranscodeDecision,
    factor: u8,
)
    requires
        call_ensures(
            TakeTranscodeDecisionService::execute,
            (&service, &file, tmdb_rating, &m),
            r,
        ),
        call_ensures(crf_from_rating_and_bpp, (m.bpp, tmdb_rating), factor),
    ensures
        r matches TranscodeDecision::SkipWithAnalysis { reason, bpp, compression_potential } ==> {
            &&& reason == SkipReason::InsufficientCompressionPotential
            &&& bpp == m.bpp
            &&& compression_potential == m.compression_potential
        },
        r matches TranscodeDecision::Encode {
            bpp,
            compression_potential,
            crf,
            estimated_saving_ratio,
        } ==> {
            let zero = Binary64 { bits: 0 };
            let one = Binary64 { bits: 0x3ff0_0000_0000_0000 };
            &&& bpp == m.bpp
            &&& compression_potential == m.compression_potential
            &&& crf == factor
            &&& zero.at_most(m.saving_ratio) && m.saving_ratio.at_most(one)
                ==> estimated_saving_ratio == m.saving_ratio
            &&& m.saving_ratio.below(zero) ==> estimated_saving_ratio == zero
            &&& one.below(m.saving_ratio) ==> estimated_saving_ratio == one
            &&& m.saving_ratio.is_nan() ==> estimated_saving_ratio == m.saving_ratio
        },
{
    crate::rounding::lemma_zero();
    crate::rounding::lemma_power(0);
    vstd::arithmetic::power2::lemma_pow2_pos(1074);
    assert(crate::rounding::power(0) == (Binary64 { bits: 0x3ff0_0000_0000_0000 }));
}

/// The rate factor is made up of two parts that do not depend on each other: a
/// rating from 7.5, 6 and 4 on, or a lesser one, counts 22, 24, 26 and 28, and
/// none counts 24; bits per pixel from 0.15, 0.08 and 0.05 on take 1 off, leave
/// it, and add 1, and fewer add 2.
pub proof fn law_rate_factor(bpp: Binary64, rating: Option<Binary32>, r: u8)
    requires
        call_ensures(crf_from_rating_and_bpp, (bpp, rating), r),
    ensures
        ({
            let rich = (Binary64 { bits: 0x3fc3_3333_3333_3333 }).at_most(bpp);
            let fair = (Binary64 { bits: 0x3fb4_7ae1_47ae_147b }).at_most(bpp);
            let lean = (Binary64 { bits: 0x3fa9_9999_9999_999a }).at_most(bpp);
            let part = if rich {
                r + 1
            } else if fair {
                r as int
            } else if lean {
                r - 1
            } else {
                r - 2
            };
            &&& rating is None ==> part == 24
            &&& rating matches Some(x) ==> {
                let high = (Binary32 { bits: 0x40f0_0000 }).at_most(x);
                let good = (Binary32 { bits: 0x40c0_0000 }).at_most(x);
                let middling = (Binary32 { bits: 0x4080_0000 }).at_most(x);
                &&& high ==> part == 22
                &&& !high && good ==> part == 24
                &&& !high && !good && middling ==> part == 26
                &&& !high && !good && !middling ==> part == 28
            }
        }),
{
}

/// The factor depends on the number of pixels alone: it is 3 from that of 4K
/// on, 1.5 from that of 1080p on, 1 from that of 720p on and 0.6 below.
pub proof fn law_resolution_factor(height: u32, width: u32, r: Binary32)
    requires
        call_ensures(resolution_factor, (height, width), r),
    ensures
        height * width >= 8_294_400 ==> r.bits == 0x4040_0000,
        2_073_600 <= height * width < 8_294_400 ==> r.bits == 0x3fc0_0000,
        921_600 <= height * width < 2_073_600 ==> r.bits == 0x3f80_0000,
        height * width < 921_600 ==> r.bits == 0x3f19_999a,
{
}

/// The minima are the ones that the service was made with, and the one for
/// HEVC counts for HEVC alone.
pub proof fn law_minima_are_as_given(
    size: Binary64,
    bpp: Binary64,
    hevc: Binary64,
    potential: Binary64,
    service: TakeTranscodeDecisionService,
    codec: VideoCodec,
    least: Binary64,
)
    requires
        call_ensures(TakeTranscodeDecisionService::new, (size, bpp, hevc, potential), service),
        call_ensures(TakeTranscodeDecisionService::effective_min_bpp, (&service, &codec), least),
    ensures
        service.min_size_per_hour_gb == size,
        service.min_compression_potential == potential,
        least == (if codec is Hevc {
            hevc
        } else {
            bpp
        }),
{
}

/// A decision that another worker stored already is no error; every other
/// result stays.
pub proof fn law_only_a_stale_state_is_forgiven(
    result: Result<(), StoreError>,
    r: Result<(), StoreError>,
)
    requires
        call_ensures(analysis_stored, (result,), r),
    ensures
        r is Err <==> (result matches Err(e) && !(e is StaleState)),
        r is Err ==> r == result,
{
}

} // verus!
