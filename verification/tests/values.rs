use rankoder::binary::{Binary32, Binary64};
use rankoder::decimal::{
    describe_signed, describe_unsigned, parse_i16, parse_i32, parse_u32, parse_u64,
    signed_text, unsigned_text, IntFault,
};
use rankoder::ids::parse_uuid;
use rankoder::models::batch::{BatchKey, BatchKeyError};
use rankoder::models::common::{AbsoluteFilePath, EpisodeNumber, Rating, SeasonNumber, TmdbId};
use rankoder::models::drafts::Provider;
use rankoder::models::error::DomainError;
use rankoder::models::library::{
    EpisodeId, MediaFileId, MovieId, RetentionFileId, SeriesId,
};
use rankoder::models::media_file::SizeBytes;
use rankoder::models::video::{
    Bitrate, DurationSecs, Framerate, MasterDisplay, MaxCll, Resolution, VideoCodec,
};
use rankoder::text::{contains, is_blank, same_text, split_once};

fn b64(x: f64) -> Binary64 {
    Binary64 { bits: x.to_bits() }
}

fn b32(x: f32) -> Binary32 {
    Binary32 { bits: x.to_bits() }
}

#[test]
fn comparison_agrees_with_floats() {
    let samples = [
        0.0,
        -0.0,
        1.0,
        -1.0,
        0.1,
        -0.1,
        1e-320,
        -1e-320,
        f64::MIN_POSITIVE,
        f64::MAX,
        f64::MIN,
        f64::INFINITY,
        f64::NEG_INFINITY,
        f64::NAN,
        7.5,
        1023.9999,
    ];
    for a in samples {
        for b in samples {
            assert_eq!(b64(a).lt(b64(b)), a < b, "{a} < {b}");
            assert_eq!(b64(a).le(b64(b)), a <= b, "{a} <= {b}");
            assert_eq!(b32(a as f32).le(b32(b as f32)), (a as f32) <= (b as f32), "{a} <= {b}");
        }
        assert_eq!(b64(a).nan(), a.is_nan());
        assert_eq!(b64(a).finite(), a.is_finite());
    }
}

#[test]
fn tmdb_ids() {
    assert_eq!(TmdbId::new(603).unwrap().as_i32(), 603);
    assert_eq!(TmdbId::new(0).unwrap().as_i32(), 0);
    assert!(matches!(TmdbId::new(-5), Err(DomainError::InvalidTmdbId(s)) if s == "-5"));
    assert_eq!(TmdbId::from_str("+27").unwrap().as_i32(), 27);
    assert!(matches!(TmdbId::from_str("tt1"), Err(DomainError::InvalidTmdbId(s)) if s == "tt1"));
    assert!(matches!(TmdbId::from_str("-07"), Err(DomainError::InvalidTmdbId(s)) if s == "-7"));
    assert!(matches!(
        TmdbId::from_str("2147483648"),
        Err(DomainError::InvalidTmdbId(s)) if s == "2147483648"
    ));
}

#[test]
fn ratings() {
    for ok in [0.0f32, -0.0, 10.0, 7.3] {
        assert_eq!(Rating::new(b32(ok)).unwrap().as_binary(), b32(ok));
    }
    for bad in [-0.1f32, 10.001, f32::NAN, f32::INFINITY] {
        assert!(matches!(Rating::new(b32(bad)), Err(DomainError::InvalidRating(x)) if x == b32(bad)));
    }
}

#[test]
fn absolute_paths() {
    assert_eq!(AbsoluteFilePath::new("/a/b.mkv").unwrap().as_path(), "/a/b.mkv");
    assert!(matches!(AbsoluteFilePath::new("a/b"), Err(DomainError::InvalidPath(s)) if s == "a/b"));
    assert!(matches!(AbsoluteFilePath::new(""), Err(DomainError::InvalidPath(_))));
}

#[test]
fn season_and_episode_numbers() {
    assert_eq!(SeasonNumber::new(3).unwrap().as_i16(), 3);
    assert_eq!(SeasonNumber::new(40000).unwrap().as_i16(), 40000u32 as i16);
    assert_eq!(SeasonNumber::new(i32::MAX).unwrap().as_i16(), -1);
    assert!(matches!(SeasonNumber::new(-1), Err(DomainError::InvalidSeasonNumber(-1))));
    assert_eq!(EpisodeNumber::new(65536).unwrap().as_i16(), 0);
    assert!(matches!(EpisodeNumber::new(-7), Err(DomainError::InvalidEpisodeNumber(-7))));
}

#[test]
fn sizes() {
    assert_eq!(SizeBytes::new(1).unwrap().as_u64(), 1);
    assert!(matches!(SizeBytes::new(0), Err(DomainError::InvalidSizeBytes)));
    assert_eq!(SizeBytes::from_str("18446744073709551615").unwrap().as_u64(), u64::MAX);
    assert!(SizeBytes::from_str("18446744073709551616").is_err());
    assert!(SizeBytes::from_str("0").is_err());
    assert!(SizeBytes::from_str("many").is_err());
}

#[test]
fn resolutions() {
    let r = Resolution::new(2160, 3840).unwrap();
    assert_eq!((r.height(), r.width(), r.pixel_count()), (2160, 3840, 8_294_400));
    assert_eq!(
        Resolution::new(u32::MAX, u32::MAX).unwrap().pixel_count(),
        u32::MAX as u64 * u32::MAX as u64
    );
    assert!(matches!(Resolution::new(0, 1), Err(DomainError::InvalidResolution)));
    assert!(matches!(Resolution::new(1, 0), Err(DomainError::InvalidResolution)));
}

#[test]
fn codecs() {
    assert!(matches!(VideoCodec::from_str("h264"), VideoCodec::H264));
    assert!(matches!(VideoCodec::from_str("hevc"), VideoCodec::Hevc));
    assert!(matches!(VideoCodec::from_str("av1"), VideoCodec::Av1));
    assert!(matches!(VideoCodec::from_str("H264"), VideoCodec::Unknown(s) if s == "H264"));
    for name in ["h264", "hevc", "av1", "vp9", "missing"] {
        assert_eq!(VideoCodec::from_str(name).as_str(), name);
    }
    assert_eq!(VideoCodec::Missing.as_str(), "missing");
    assert!(VideoCodec::H264.needs_transcoding());
    assert!(VideoCodec::Hevc.needs_transcoding());
    assert!(!VideoCodec::Av1.needs_transcoding());
    assert!(VideoCodec::Missing.needs_transcoding());
    assert!(VideoCodec::Unknown("vc1".into()).needs_transcoding());
}

#[test]
fn bitrates_and_durations() {
    assert_eq!(Bitrate::new(5).unwrap().as_bps(), 5);
    assert!(matches!(Bitrate::new(0), Err(DomainError::InvalidBitrate)));
    assert_eq!(DurationSecs::new(b64(1.5)).unwrap().as_secs(), b64(1.5));
    for bad in [0.0, -1.0, f64::NAN, f64::INFINITY] {
        assert!(matches!(DurationSecs::new(b64(bad)), Err(DomainError::InvalidDuration)));
    }
}

#[test]
fn framerates_are_read_back() {
    for (n, d) in [(24000, 1001), (25, 1), (0, 7), (u32::MAX, u32::MAX)] {
        let f = Framerate::new(n, d).unwrap();
        let text = f.to_text();
        assert_eq!(text, format!("{n}/{d}"));
        assert_eq!(Framerate::from_str(&text).unwrap().parts(), (n, d));
    }
    for bad in ["24", "a/1", "1/a", "0/0", "1/", "/1", "1/2/3", "4294967296/1", ""] {
        assert!(matches!(Framerate::from_str(bad), Err(DomainError::InvalidFramerate)), "{bad}");
    }
    assert!(matches!(Framerate::new(1, 0), Err(DomainError::InvalidFramerate)));
    assert_eq!(Framerate::from_str("+30/+1").unwrap().parts(), (30, 1));
}

#[test]
fn x265_texts() {
    let display = MasterDisplay {
        green: (13250, 34500),
        blue: (7500, 3000),
        red: (34000, 16000),
        white_point: (15635, 16450),
        luminance: (10000000, 1),
    };
    assert_eq!(
        display.to_x265_string(),
        "G(13250,34500)B(7500,3000)R(34000,16000)WP(15635,16450)L(10000000,1)"
    );
    assert_eq!(MaxCll { max_content: 1000, max_average: 400 }.to_x265_string(), "1000,400");
}

#[test]
fn numbers_agree_with_std() {
    let samples = [
        "", "+", "-", "0", "-0", "+0", "007", "1", "-1", "255", "65535", "65536", "32767", "32768",
        "-32768", "-32769", "2147483647", "2147483648", "-2147483648", "-2147483649",
        "4294967295", "4294967296", "18446744073709551615", "18446744073709551616",
        "99999999999999999999999", "1a", "a1", " 1", "1 ", "--1", "+-1", "１", "12x99999999999999999999",
        "99999999999999999999x",
    ];
    for s in samples {
        assert_eq!(parse_u64(s), s.parse::<u64>().ok(), "{s}");
        assert_eq!(parse_u32(s), s.parse::<u32>().ok(), "{s}");
        assert_eq!(parse_i32(s), s.parse::<i32>().ok(), "{s}");
        assert_eq!(parse_i16(s), s.parse::<i16>().ok(), "{s}");
        if let Err(e) = s.parse::<u64>() {
            assert_eq!(describe_unsigned(s, u64::MAX).message(), e.to_string(), "{s}");
        }
        if let Err(e) = s.parse::<u16>() {
            assert_eq!(describe_unsigned(s, u16::MAX as u64).message(), e.to_string(), "{s}");
        }
        if let Err(e) = s.parse::<i32>() {
            assert_eq!(
                describe_signed(s, 0x8000_0000, 0x7fff_ffff).message(),
                e.to_string(),
                "{s}"
            );
        }
    }
    for n in [0, 9, 10, 99, 100, 1234567890, u64::MAX] {
        assert_eq!(unsigned_text(n), n.to_string());
    }
    for n in [0, -1, 7, -10, i64::MAX, i64::MIN] {
        assert_eq!(signed_text(n), n.to_string());
    }
}

#[test]
fn texts() {
    assert!(same_text("é", "é"));
    assert!(!same_text("a", "ab"));
    assert_eq!(split_once("a/b/c", '/'), Some(("a", "b/c")));
    assert_eq!(split_once("é/", '/'), Some(("é", "")));
    assert_eq!(split_once("abc", '/'), None);
    for (hay, needle) in [("abcabd", "abd"), ("abc", ""), ("", ""), ("", "a"), ("ab", "abc"), ("aé", "é")] {
        assert_eq!(contains(hay, needle), hay.contains(needle));
    }
    for s in ["", " ", "\t\n\u{a0}\u{3000}\u{2029}", "\u{200b}", " x "] {
        assert_eq!(is_blank(s), s.trim().is_empty(), "{s:?}");
    }
    for c in '\0'..='\u{ffff}' {
        assert_eq!(is_blank(&c.to_string()), c.is_whitespace(), "{c:?}");
    }
}

#[test]
fn new_ids_are_of_version_7() {
    let ids = [
        MediaFileId::new().as_uuid(),
        MovieId::new().as_uuid(),
        SeriesId::new().as_uuid(),
        EpisodeId::new().as_uuid(),
        RetentionFileId::new().as_uuid(),
    ];
    for id in ids {
        let id = uuid::Uuid::from_u128(id);
        assert_eq!(id.get_version_num(), 7);
        assert_eq!(id.get_variant(), uuid::Variant::RFC4122);
    }
    assert_ne!(ids[0], ids[1]);
}

#[test]
fn uuids_are_read() {
    let id = 0x936da01f_9abd_4d9d_80c7_02af85c822a8u128;
    for s in [
        "936da01f-9abd-4d9d-80c7-02af85c822a8",
        "936DA01F-9ABD-4D9D-80C7-02AF85C822A8",
        "936da01f9abd4d9d80c702af85c822a8",
        "{936da01f-9abd-4d9d-80c7-02af85c822a8}",
        "URN:uuid:936da01f-9abd-4d9d-80c7-02af85c822a8",
    ] {
        assert_eq!(parse_uuid(s), Some(id), "{s}");
    }
    for s in [
        "",
        "936da01f-9abd-4d9d-80c7-02af85c822a",
        "936da01f-9abd-4d9d-80c7-02af85c822ag",
        "936da01f-9abd-4d9d-80c702af85c822a8-",
        "{936da01f9abd4d9d80c702af85c822a8}",
        "(936da01f-9abd-4d9d-80c7-02af85c822a8)",
        "urn;uuid:936da01f-9abd-4d9d-80c7-02af85c822a8",
        "é36da01f-9abd-4d9d-80c7-02af85c822a",
    ] {
        assert_eq!(parse_uuid(s), None, "{s}");
    }
}

#[test]
fn batch_keys_are_read_back() {
    let id = 0x0192_0000_0000_7000_8000_0000_0000_00ffu128;
    for season in [0, 1, -1, i16::MAX, i16::MIN] {
        let key = BatchKey::Season { series_id: SeriesId(id), season };
        let text = key.encode();
        assert_eq!(text, format!("series:{}:s{}", uuid::Uuid::from_u128(id), season));
        assert_eq!(BatchKey::decode(&text).unwrap(), key);
    }
    let key = BatchKey::Movie { movie_id: MovieId(u128::MAX) };
    assert_eq!(key.encode(), "movie:ffffffff-ffff-ffff-ffff-ffffffffffff");
    assert_eq!(BatchKey::decode(&key.encode()).unwrap(), key);
}

#[test]
fn batch_keys_that_are_none() {
    let id = "01920000-0000-7000-8000-0000000000ff";
    for s in ["", "movie", "season:x:y", "series", &format!("series:{id}"), &format!("movie:{id}:s1"),
        &format!("series:{id}:s1:"), &format!("Movie:{id}")]
    {
        assert!(
            matches!(BatchKey::decode(s), Err(BatchKeyError::InvalidFormat(t)) if t == s),
            "{s}"
        );
    }
    let cause = "x".parse::<uuid::Uuid>().unwrap_err().to_string();
    assert!(matches!(
        BatchKey::decode("movie:x"),
        Err(BatchKeyError::InvalidUuid(e)) if e.to_string() == cause
    ));
    assert!(matches!(BatchKey::decode("series:x:sx"), Err(BatchKeyError::InvalidUuid(_))));
    assert!(matches!(
        BatchKey::decode(&format!("series:{id}:s")),
        Err(BatchKeyError::InvalidSeason(IntFault::Empty))
    ));
    assert!(matches!(
        BatchKey::decode(&format!("series:{id}:s99999")),
        Err(BatchKeyError::InvalidSeason(IntFault::TooLarge))
    ));
    assert!(matches!(
        BatchKey::decode(&format!("series:{id}:1s")),
        Err(BatchKeyError::InvalidSeason(IntFault::InvalidDigit))
    ));
    assert_eq!(
        BatchKey::decode(&format!("series:{id}:sss12")).unwrap(),
        BatchKey::decode(&format!("series:{id}:12")).unwrap()
    );
}

#[test]
fn provider_name() {
    assert_eq!(Provider::Jellyfin.as_str(), "jellyfin");
}
