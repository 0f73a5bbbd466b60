//! Media files as rows.
use vstd::prelude::*;
use vstd::string::*;

use crate::binary::Binary64;
use crate::models::common::AbsoluteFilePath;
use crate::models::error::DomainError;
use crate::models::library::{EpisodeId, MediaFileId, MovieId};
use crate::models::media_file::{MediaFile, SizeBytes};
use crate::models::video::{
    Bitrate, ColorMetadata, DurationSecs, Framerate, Resolution, VideoCodec, VideoProperties,
};
use crate::models::workflow::WorkflowStateTag;
use crate::record::ReadMember;

verus! {

/// The 64-bit two's complement number with the bits of `n`.
pub open spec fn signed_64(n: u64) -> int {
    if n < 0x8000_0000_0000_0000 {
        n as int
    } else {
        n - 0x1_0000_0000_0000_0000
    }
}

/// The number with the 64 bits of `i`.
pub open spec fn unsigned_64(i: int) -> int {
    if i < 0 {
        i + 0x1_0000_0000_0000_0000
    } else {
        i
    }
}

/// The 32-bit two's complement number with the low 32 bits of `n`.
pub open spec fn signed_32(n: int) -> int {
    let low = n % 0x1_0000_0000;
    if low < 0x8000_0000 {
        low
    } else {
        low - 0x1_0000_0000
    }
}

/// The number with the 32 bits of `i`.
pub open spec fn unsigned_32(i: int) -> int {
    if i < 0 {
        i + 0x1_0000_0000
    } else {
        i
    }
}

/// A size as the store's signed column holds it.
pub fn size_column(n: u64) -> (r: i64)
    ensures
        r == signed_64(n),
{
    if n < 0x8000_0000_0000_0000 {
        n as i64
    } else {
        (n as i128 - 0x1_0000_0000_0000_0000) as i64
    }
}

/// A number as the store's signed column of 32 bits holds it.
pub fn int_column(n: u64) -> (r: i32)
    ensures
        r == signed_32(n as int),
{
    let low: u64 = n % 0x1_0000_0000;
    if low < 0x8000_0000 {
        low as i32
    } else {
        (low as i64 - 0x1_0000_0000) as i32
    }
}

/// A number from a signed column of 64 bits.
fn from_i64(i: i64) -> (r: u64)
    ensures
        r == unsigned_64(i as int),
{
    if i < 0 {
        (i as i128 + 0x1_0000_0000_0000_0000) as u64
    } else {
        i as u64
    }
}

/// A number from a signed column of 32 bits.
fn from_i32(i: i32) -> (r: u32)
    ensures
        r == unsigned_32(i as int),
{
    if i < 0 {
        (i as i64 + 0x1_0000_0000) as u32
    } else {
        i as u32
    }
}

/// A row of media files.
#[derive(Debug)]
pub struct MediaFileRow {
    pub id: u128,
    pub workflow_state: WorkflowStateTag,
    pub episode_id: Option<u128>,
    pub movie_id: Option<u128>,
    pub file_path: String,
    pub size_bytes: Option<i64>,
    pub video_codec: Option<String>,
    pub height: Option<i32>,
    pub width: Option<i32>,
    pub bitrate_kbps: Option<i32>,
    pub framerate: Option<String>,
    pub duration_seconds: Option<Binary64>,
    pub dv_profile: Option<i16>,
    pub transcode_spec: Option<Vec<ReadMember>>,
}

/// A row of colour metadata.
#[derive(Debug)]
pub struct ColorMetadataRow {
    pub color_primaries: Option<String>,
    pub color_trc: Option<String>,
    pub colorspace: Option<String>,
    pub master_display: Option<String>,
    pub max_cll: Option<String>,
}

/// The colour metadata that a row holds, where the three that count are there.
pub open spec fn color_of_row(row: ColorMetadataRow) -> Option<crate::models::video::ColorView> {
    match (row.color_primaries, row.color_trc, row.colorspace) {
        (Some(cp), Some(ct), Some(cs)) => Some(
            crate::models::video::ColorView {
                color_primaries: cp@,
                color_trc: ct@,
                colorspace: cs@,
                master_display: crate::text::text_of(row.master_display),
                max_cll: crate::text::text_of(row.max_cll),
            },
        ),
        _ => None,
    }
}

/// What optional colour metadata holds.
pub open spec fn color_view(c: Option<ColorMetadata>) -> Option<crate::models::video::ColorView> {
    match c {
        Some(x) => Some(x@),
        None => None,
    }
}

/// A copy of an optional string.
pub fn copy_text(s: &Option<String>) -> (r: Option<String>)
    ensures
        r == *s,
{
    match s {
        Some(t) => Some(t.clone()),
        None => None,
    }
}

pub fn color_md_from_row(row: &ColorMetadataRow) -> (r: Option<ColorMetadata>)
    ensures
        color_view(r) == color_of_row(*row),
{
    match (&row.color_primaries, &row.color_trc, &row.colorspace) {
        (Some(cp), Some(ct), Some(cs)) => Some(
            ColorMetadata {
                color_primaries: cp.clone(),
                color_trc: ct.clone(),
                colorspace: cs.clone(),
                master_display: copy_text(&row.master_display),
                max_cll: copy_text(&row.max_cll),
            },
        ),
        _ => None,
    }
}

/// Why a row holds no media file.
pub enum RowFault {
    Path,
    Size,
    Resolution,
    Bitrate,
    Framerate,
}

/// What makes a row invalid: the first of these that holds no valid value.
/// Columns that are empty are valid.
pub open spec fn row_fault(row: MediaFileRow) -> Option<RowFault> {
    if !crate::models::common::is_absolute(row.file_path@) {
        Some(RowFault::Path)
    } else if row.size_bytes == Some(0i64) {
        Some(RowFault::Size)
    } else if (row.height matches Some(h) && row.width matches Some(w) && (h == 0 || w == 0)) {
        Some(RowFault::Resolution)
    } else if row.bitrate_kbps == Some(0i32) {
        Some(RowFault::Bitrate)
    } else if (row.framerate matches Some(f) && crate::models::video::fraction_of(f@) is None) {
        Some(RowFault::Framerate)
    } else {
        None
    }
}

/// The error for an invalid row.
pub open spec fn is_fault(row: MediaFileRow, fault: RowFault, e: DomainError) -> bool {
    match fault {
        RowFault::Path => e matches DomainError::InvalidPath(p) && p@ == row.file_path@,
        RowFault::Size => e is InvalidSizeBytes,
        RowFault::Resolution => e is InvalidResolution,
        RowFault::Bitrate => e is InvalidBitrate,
        RowFault::Framerate => e is InvalidFramerate,
    }
}

/// The bitrate that a column stands for: a negative number as one with its 64
/// bits.
pub open spec fn bitrate_of_column(b: i32) -> int {
    unsigned_64(b as int)
}

/// The low eight bits of a number.
pub open spec fn low_8_bits(n: int) -> int {
    n % 256
}

/// Whether video properties are those of a row.
pub open spec fn is_video_of(
    vp: VideoProperties,
    row: MediaFileRow,
    color: Option<ColorMetadataRow>,
) -> bool {
    &&& row.size_bytes matches Some(s) && vp.size_bytes.bytes() == unsigned_64(s as int)
    &&& row.video_codec matches Some(c) && vp.video_codec@ == crate::models::video::codec_named(c@)
    &&& row.height matches Some(h) && vp.resolution.rows() == unsigned_32(h as int)
    &&& row.width matches Some(w) && vp.resolution.columns() == unsigned_32(w as int)
    &&& match (row.bitrate_kbps, vp.bitrate) {
        (Some(b), Some(v)) => v.bps() == bitrate_of_column(b),
        (None, None) => true,
        _ => false,
    }
    &&& match (row.framerate, vp.framerate) {
        (Some(f), Some(v)) => crate::models::video::fraction_of(f@) == Some(
            (v.num() as int, v.den() as int),
        ),
        (None, None) => true,
        _ => false,
    }
    &&& match (row.duration_seconds, vp.duration) {
        (Some(d), Some(v)) => crate::models::video::is_duration(d) && v.secs() == d,
        (Some(d), None) => !crate::models::video::is_duration(d),
        (None, None) => true,
        _ => false,
    }
    &&& color_view(vp.color_metadata) == (match color {
        Some(c) => color_of_row(c),
        None => None,
    })
    &&& match (row.dv_profile, vp.dv_profile) {
        (Some(p), Some(v)) => v == low_8_bits(p as int),
        (None, None) => true,
        _ => false,
    }
}

/// Whether a row holds what video properties are made of.
pub open spec fn has_video(row: MediaFileRow) -> bool {
    row.video_codec is Some && row.height is Some && row.width is Some && row.size_bytes is Some
}

/// An identifier from a column.
fn episode_id(id: Option<u128>) -> (r: Option<EpisodeId>)
    ensures
        r == (match id {
            Some(x) => Some(EpisodeId(x)),
            None => None,
        }),
{
    match id {
        Some(x) => Some(EpisodeId(x)),
        None => None,
    }
}

/// An identifier from a column.
fn movie_id(id: Option<u128>) -> (r: Option<MovieId>)
    ensures
        r == (match id {
            Some(x) => Some(MovieId(x)),
            None => None,
        }),
{
    match id {
        Some(x) => Some(MovieId(x)),
        None => None,
    }
}

/// The media file that a row holds, with its row of colour metadata.
pub fn media_file_from_row(value: MediaFileRow, color_row: Option<ColorMetadataRow>) -> (r: Result<
    MediaFile,
    DomainError,
>)
    ensures
        match r {
            Err(e) => row_fault(value) matches Some(fault) && is_fault(value, fault, e),
            Ok(f) => {
                &&& row_fault(value) is None
                &&& f.id == MediaFileId(value.id)
                &&& f.episode_id == (match value.episode_id {
                    Some(x) => Some(EpisodeId(x)),
                    None => None,
                })
                &&& f.movie_id == (match value.movie_id {
                    Some(x) => Some(MovieId(x)),
                    None => None,
                })
                &&& f.path@ == value.file_path@
                &&& f.transcode_spec == value.transcode_spec
                &&& f.workflow_state == value.workflow_state
                &&& match f.video_properties {
                    Some(vp) => has_video(value) && is_video_of(vp, value, color_row),
                    None => !has_video(value),
                }
            },
        },
{
    let path = match AbsoluteFilePath::new(value.file_path.as_str()) {
        Ok(p) => p,
        Err(e) => {
            return Err(e);
        },
    };
    let size_bytes = match value.size_bytes {
        Some(s) => match SizeBytes::new(from_i64(s)) {
            Ok(x) => Some(x),
            Err(e) => {
                return Err(e);
            },
        },
        None => None,
    };
    let video_codec = match &value.video_codec {
        Some(s) => Some(VideoCodec::from_str(s.as_str())),
        None => None,
    };
    let resolution = match (value.height, value.width) {
        (Some(h), Some(w)) => match Resolution::new(from_i32(h), from_i32(w)) {
            Ok(x) => Some(x),
            Err(e) => {
                return Err(e);
            },
        },
        _ => None,
    };
    let bitrate = match value.bitrate_kbps {
        Some(b) => match Bitrate::new(from_i64(b as i64)) {
            Ok(x) => Some(x),
            Err(e) => {
                return Err(e);
            },
        },
        None => None,
    };
    let framerate = match &value.framerate {
        Some(s) => match Framerate::from_str(s.as_str()) {
            Ok(x) => Some(x),
            Err(e) => {
                return Err(e);
            },
        },
        None => None,
    };
    let duration = match value.duration_seconds {
        Some(d) => match DurationSecs::new(d) {
            Ok(x) => Some(x),
            Err(_) => None,
        },
        None => None,
    };
    let color_metadata = match &color_row {
        Some(c) => color_md_from_row(c),
        None => None,
    };
    let dv_profile = match value.dv_profile {
        Some(p) => {
            let n: i32 = if p < 0 {
                p as i32 + 0x1_0000
            } else {
                p as i32
            };
            let low: u8 = (n % 256) as u8;
            Some(low)
        },
        None => None,
    };
    let video_properties = match (video_codec, resolution, size_bytes) {
        (Some(video_codec), Some(resolution), Some(size_bytes)) => Some(
            VideoProperties {
                video_codec,
                resolution,
                size_bytes,
                bitrate,
                framerate,
                duration,
                color_metadata,
                dv_profile,
            },
        ),
        _ => None,
    };
    Ok(
        MediaFile {
            id: MediaFileId(value.id),
            episode_id: episode_id(value.episode_id),
            movie_id: movie_id(value.movie_id),
            path,
            video_properties,
            transcode_spec: value.transcode_spec,
            workflow_state: value.workflow_state,
        },
    )
}

/// What columns hold: a number of 64 bits is stored as the signed one that
/// differs from it by a multiple of 2 to the 64th, and in a column of 32 bits
/// as the signed one that differs by a multiple of 2 to the 32nd. A copied text
/// is the text.
pub proof fn law_columns(n: u64, size: i64, int_of: i32, text: Option<String>, copy: Option<String>)
    requires
        call_ensures(size_column, (n,), size),
        call_ensures(int_column, (n,), int_of),
        call_ensures(copy_text, (&text,), copy),
    ensures
        size == n || size == n - 0x1_0000_0000_0000_0000,
        (n - int_of) % 0x1_0000_0000 == 0,
        n < 0x8000_0000_0000_0000 ==> size == n,
        n < 0x8000_0000 ==> int_of == n,
        copy == text,
{
    let m = n as int;
    assert((m - m % 0x1_0000_0000) % 0x1_0000_0000 == 0) by (nonlinear_arith);
    assert((m - (m % 0x1_0000_0000 - 0x1_0000_0000)) % 0x1_0000_0000 == 0) by (nonlinear_arith);
}

/// The colours of a row: there are some exactly where the primaries, the
/// transfer and the space are all there, and each is the text of its own
/// column.
pub proof fn law_colors_of_a_row(row: ColorMetadataRow, r: Option<ColorMetadata>)
    requires
        call_ensures(color_md_from_row, (&row,), r),
    ensures
        r is Some <==> row.color_primaries is Some && row.color_trc is Some && row.colorspace is Some,
        r matches Some(c) ==> {
            &&& c.color_primaries@ == row.color_primaries->0@
            &&& c.color_trc@ == row.color_trc->0@
            &&& c.colorspace@ == row.colorspace->0@
            &&& c.master_display is Some <==> row.master_display is Some
            &&& c.master_display is Some ==> c.master_display->0@ == row.master_display->0@
            &&& c.max_cll is Some <==> row.max_cll is Some
            &&& c.max_cll is Some ==> c.max_cll->0@ == row.max_cll->0@
        },
{
    if let Some(c) = r {
        assert(c@ == color_of_row(row)->0);
    }
}

/// When a row is no media file: its path is not absolute, its size or its
/// bitrate is 0, one side of its picture is 0, or its frame rate cannot be
/// read. The first of these is told, in the order path, size, picture, bitrate
/// and frame rate.
pub proof fn law_invalid_rows(
    row: MediaFileRow,
    color: Option<ColorMetadataRow>,
    r: Result<MediaFile, DomainError>,
    text: &str,
    rate: Result<Framerate, DomainError>,
)
    requires
        call_ensures(media_file_from_row, (row, color), r),
        call_ensures(Framerate::from_str, (text,), rate),
        row.framerate matches Some(f) ==> text@ == f@,
    ensures
        ({
            let path = !(row.file_path@.len() > 0 && row.file_path@[0] == '/');
            let size = row.size_bytes == Some(0i64);
            let sides = row.height is Some && row.width is Some && (row.height->0 == 0
                || row.width->0 == 0);
            let bits = row.bitrate_kbps == Some(0i32);
            let frames = row.framerate is Some && rate is Err;
            &&& r is Err <==> path || size || sides || bits || frames
            &&& path ==> (r matches Err(DomainError::InvalidPath(p)) && p@ == row.file_path@)
            &&& !path && size ==> (r matches Err(e) && e is InvalidSizeBytes)
            &&& !path && !size && sides ==> (r matches Err(e) && e is InvalidResolution)
            &&& !path && !size && !sides && bits ==> (r matches Err(e) && e is InvalidBitrate)
            &&& !path && !size && !sides && !bits && frames ==> (r matches Err(e)
                && e is InvalidFramerate)
        }),
{
}

/// What a media file has of its row: its own identifiers, path, state and
/// transcode spec, and video properties exactly where codec, height, width and
/// size are there. Each of these is what its own column holds, as a number of
/// the same bits.
pub proof fn law_files_of_rows(
    row: MediaFileRow,
    color: Option<ColorMetadataRow>,
    f: MediaFile,
    name: &str,
    codec: VideoCodec,
    text: &str,
    rate: Result<Framerate, DomainError>,
    secs: Binary64,
    duration: Result<DurationSecs, DomainError>,
)
    requires
        call_ensures(media_file_from_row, (row, color), Ok(f)),
        call_ensures(VideoCodec::from_str, (name,), codec),
        row.video_codec matches Some(c) ==> name@ == c@,
        call_ensures(Framerate::from_str, (text,), rate),
        row.framerate matches Some(t) ==> text@ == t@,
        call_ensures(DurationSecs::new, (secs,), duration),
        row.duration_seconds matches Some(s) ==> secs == s,
    ensures
        f.id.0 == row.id,
        f.episode_id is Some <==> row.episode_id is Some,
        f.episode_id matches Some(e) ==> e.0 == row.episode_id->0,
        f.movie_id is Some <==> row.movie_id is Some,
        f.movie_id matches Some(m) ==> m.0 == row.movie_id->0,
        f.path@ == row.file_path@,
        f.transcode_spec == row.transcode_spec,
        f.workflow_state == row.workflow_state,
        f.video_properties is Some <==> row.video_codec is Some && row.height is Some
            && row.width is Some && row.size_bytes is Some,
        f.video_properties matches Some(vp) ==> {
            &&& vp.size_bytes.bytes() == row.size_bytes->0 || vp.size_bytes.bytes()
                == row.size_bytes->0 + 0x1_0000_0000_0000_0000
            &&& vp.video_codec@ == codec@
            &&& vp.resolution.rows() == row.height->0 || vp.resolution.rows() == row.height->0
                + 0x1_0000_0000
            &&& vp.resolution.columns() == row.width->0 || vp.resolution.columns() == row.width->0
                + 0x1_0000_0000
            &&& vp.bitrate is Some <==> row.bitrate_kbps is Some
            &&& vp.bitrate is Some ==> vp.bitrate->0.bps() == row.bitrate_kbps->0
                || vp.bitrate->0.bps() == row.bitrate_kbps->0 + 0x1_0000_0000_0000_0000
            &&& vp.framerate is Some <==> row.framerate is Some
            &&& vp.framerate is Some ==> rate is Ok && vp.framerate->0.num() == rate->Ok_0.num()
                && vp.framerate->0.den() == rate->Ok_0.den()
            &&& vp.duration is Some <==> row.duration_seconds is Some && duration is Ok
            &&& vp.duration is Some ==> vp.duration->0.secs() == secs
            &&& vp.dv_profile is Some <==> row.dv_profile is Some
            &&& vp.dv_profile is Some ==> (row.dv_profile->0 - vp.dv_profile->0) % 256 == 0
        },
{
    if let Some(vp) = f.video_properties {
        assert(is_video_of(vp, row, color));
        if let Some(p) = row.dv_profile {
            let n = p as int;
            assert((n - n % 256) % 256 == 0) by (nonlinear_arith);
        }
    }
}

/// The colours of a media file are those of the row that stands beside its
/// own, and there are none without such a row.
pub proof fn law_files_have_their_colors(
    row: MediaFileRow,
    color: ColorMetadataRow,
    f: MediaFile,
    plain: MediaFile,
    c: Option<ColorMetadata>,
)
    requires
        call_ensures(media_file_from_row, (row, Some(color)), Ok(f)),
        call_ensures(media_file_from_row, (row, None), Ok(plain)),
        call_ensures(color_md_from_row, (&color,), c),
    ensures
        f.video_properties matches Some(vp) ==> (vp.color_metadata is Some <==> c is Some) && (
        vp.color_metadata is Some ==> vp.color_metadata->0@ == c->0@),
        plain.video_properties matches Some(vp) ==> vp.color_metadata is None,
{
    if let Some(vp) = f.video_properties {
        assert(is_video_of(vp, row, Some(color)));
        assert(color_view(vp.color_metadata) == color_view(c));
    }
    if let Some(vp) = plain.video_properties {
        assert(is_video_of(vp, row, None));
    }
}

} // verus!
