//! Values shared by series, movies and episodes.
use vstd::prelude::*;
use vstd::string::*;

use crate::binary::Binary32;
use crate::decimal::{parse_i32, signed_text};
use crate::models::error::DomainError;
use crate::text::chars_of;

verus! {

/// An identifier in The Movie Database: never negative.
#[derive(Clone, Copy, Debug, PartialEq, Eq, Structural)]
pub struct TmdbId(i32);

impl TmdbId {
    /// The identifier as a number.
    pub closed spec fn value(self) -> int {
        self.0 as int
    }

    #[verifier::type_invariant]
    spec fn inv(self) -> bool {
        0 <= self.0
    }

    pub fn new(value: i32) -> (r: Result<Self, DomainError>)
        ensures
            match r {
                Ok(id) => value >= 0 && id.value() == value,
                Err(e) => value < 0 && e is InvalidTmdbId && e->InvalidTmdbId_0@
                    == crate::decimal::signed_digits(value as int),
            },
    {
        if value < 0 {
            return Err(DomainError::InvalidTmdbId(signed_text(value as i64)));
        }
        Ok(TmdbId(value))
    }

    /// Reads an identifier. A text that is no number is named in the error as
    /// it stands, a negative number in decimal notation.
    pub fn from_str(s: &str) -> (r: Result<Self, DomainError>)
        ensures
            match (r, crate::decimal::signed_value(s@, i32::MIN as int, i32::MAX as int)) {
                (Ok(id), Some(n)) => n >= 0 && id.value() == n,
                (Ok(_), None) => false,
                (Err(e), Some(n)) => n < 0 && e is InvalidTmdbId && e->InvalidTmdbId_0@
                    == crate::decimal::signed_digits(n),
                (Err(e), None) => e is InvalidTmdbId && e->InvalidTmdbId_0@ == s@,
            },
    {
        match parse_i32(s) {
            Some(n) => TmdbId::new(n),
            None => Err(DomainError::InvalidTmdbId(s.to_owned())),
        }
    }

    pub fn as_i32(&self) -> (r: i32)
        ensures
            r == self.value(),
            r >= 0,
    {
        proof {
            use_type_invariant(self);
        }
        self.0
    }
}

/// The bits of the number ten.
pub const TEN: u32 = 0x4120_0000;

/// Whether a number lies between zero and ten.
pub open spec fn in_rating_range(value: Binary32) -> bool {
    (Binary32 { bits: 0 }).at_most(value) && value.at_most(Binary32 { bits: TEN })
}

/// A rating between zero and ten.
#[derive(Clone, Copy, Debug, PartialEq, Eq, Structural)]
pub struct Rating(Binary32);

impl Rating {
    /// The rating as a number.
    pub closed spec fn value(self) -> Binary32 {
        self.0
    }

    #[verifier::type_invariant]
    spec fn inv(self) -> bool {
        in_rating_range(self.0)
    }

    pub fn new(value: Binary32) -> (r: Result<Self, DomainError>)
        ensures
            match r {
                Ok(rating) => in_rating_range(value) && rating.value() == value,
                Err(e) => !in_rating_range(value) && e == DomainError::InvalidRating(value),
            },
    {
        let zero = Binary32 { bits: 0 };
        let ten = Binary32 { bits: TEN };
        if !(zero.le(value) && value.le(ten)) {
            return Err(DomainError::InvalidRating(value));
        }
        Ok(Rating(value))
    }

    pub fn as_binary(&self) -> (r: Binary32)
        ensures
            r == self.value(),
            in_rating_range(r),
    {
        proof {
            use_type_invariant(self);
        }
        self.0
    }
}

/// A path that begins at the root.
#[derive(Debug)]
pub struct AbsoluteFilePath(String);

/// Whether a path begins at the root.
pub open spec fn is_absolute(path: Seq<char>) -> bool {
    path.len() > 0 && path[0] == '/'
}

impl View for AbsoluteFilePath {
    type V = Seq<char>;

    closed spec fn view(&self) -> Seq<char> {
        self.0@
    }
}

impl AbsoluteFilePath {
    #[verifier::type_invariant]
    spec fn inv(self) -> bool {
        is_absolute(self.0@)
    }

    pub fn new(path: &str) -> (r: Result<Self, DomainError>)
        ensures
            match r {
                Ok(p) => is_absolute(path@) && p@ == path@,
                Err(e) => !is_absolute(path@) && e is InvalidPath && e->InvalidPath_0@ == path@,
            },
    {
        let v = chars_of(path);
        if v.len() == 0 || v[0] != '/' {
            return Err(DomainError::InvalidPath(path.to_owned()));
        }
        Ok(AbsoluteFilePath(path.to_owned()))
    }

    pub fn as_path(&self) -> (r: &str)
        ensures
            r@ == self@,
            is_absolute(r@),
    {
        proof {
            use_type_invariant(self);
        }
        self.0.as_str()
    }
}

/// What the low sixteen bits of a number stand for in two's complement.
pub open spec fn low_16_bits(n: int) -> int {
    if n % 0x1_0000 < 0x8000 {
        n % 0x1_0000
    } else {
        n % 0x1_0000 - 0x1_0000
    }
}

/// The low sixteen bits of a number as a signed one.
fn truncate_to_i16(n: u32) -> (r: i16)
    ensures
        r == low_16_bits(n as int),
{
    let low: u32 = n % 0x1_0000;
    if low < 0x8000 {
        low as i16
    } else {
        (low as i32 - 0x1_0000) as i16
    }
}

/// The number of a season: never negative.
#[derive(Clone, Copy, Debug, PartialEq, Eq, Structural)]
pub struct SeasonNumber(u32);

impl SeasonNumber {
    /// The number.
    pub closed spec fn value(self) -> int {
        self.0 as int
    }

    #[verifier::type_invariant]
    spec fn inv(self) -> bool {
        self.0 <= i32::MAX
    }

    pub fn new(value: i32) -> (r: Result<Self, DomainError>)
        ensures
            match r {
                Ok(n) => value >= 0 && n.value() == value,
                Err(e) => value < 0 && e == DomainError::InvalidSeasonNumber(value),
            },
    {
        if value < 0 {
            return Err(DomainError::InvalidSeasonNumber(value));
        }
        Ok(SeasonNumber(value as u32))
    }

    /// The number cut to sixteen bits.
    pub fn as_i16(&self) -> (r: i16)
        ensures
            r == low_16_bits(self.value()),
    {
        truncate_to_i16(self.0)
    }
}

/// The number of an episode in its season: never negative.
#[derive(Clone, Copy, Debug, PartialEq, Eq, Structural)]
pub struct EpisodeNumber(u32);

impl EpisodeNumber {
    /// The number.
    pub closed spec fn value(self) -> int {
        self.0 as int
    }

    #[verifier::type_invariant]
    spec fn inv(self) -> bool {
        self.0 <= i32::MAX
    }

    pub fn new(value: i32) -> (r: Result<Self, DomainError>)
        ensures
            match r {
                Ok(n) => value >= 0 && n.value() == value,
                Err(e) => value < 0 && e == DomainError::InvalidEpisodeNumber(value),
            },
    {
        if value < 0 {
            return Err(DomainError::InvalidEpisodeNumber(value));
        }
        Ok(EpisodeNumber(value as u32))
    }

    /// The number cut to sixteen bits.
    pub fn as_i16(&self) -> (r: i16)
        ensures
            r == low_16_bits(self.value()),
    {
        truncate_to_i16(self.0)
    }
}

/// An identifier in The Movie Database is any number that is not negative, and
/// is kept; read from its decimal notation it is the same.
pub proof fn law_tmdb_id(
    value: i32,
    r: Result<TmdbId, DomainError>,
    s: &str,
    read: Result<TmdbId, DomainError>,
    n: i32,
)
    requires
        call_ensures(TmdbId::new, (value,), r),
        call_ensures(TmdbId::from_str, (s,), read),
        r matches Ok(id) ==> call_ensures(TmdbId::as_i32, (&id,), n),
    ensures
        r is Ok <==> value >= 0,
        r is Ok ==> n == value,
        r matches Err(e) ==> e is InvalidTmdbId,
        s@ == crate::decimal::signed_digits(value as int) ==> {
            &&& read is Ok <==> value >= 0
            &&& read matches Ok(id) ==> id.value() == value
        },
{
    crate::decimal::lemma_signed_round_trip(value as int, i32::MIN as int, i32::MAX as int);
}

/// A rating is a number from 0 to 10, as its bits tell: it has none of the sign,
/// or is the other zero. It is kept.
pub proof fn law_rating(value: Binary32, r: Result<Rating, DomainError>, kept: Binary32)
    requires
        call_ensures(Rating::new, (value,), r),
        r matches Ok(x) ==> call_ensures(Rating::as_binary, (&x,), kept),
    ensures
        r is Ok <==> value.bits <= 0x4120_0000 || value.bits == 0x8000_0000,
        r is Ok ==> kept == value,
        r matches Err(e) ==> e == DomainError::InvalidRating(value),
{
    let m = value.unsigned_bits();
    let ten = 0x4120_0000nat;
    crate::binary::lemma_magnitude_zero(23);
    if m > 0 {
        crate::binary::lemma_magnitude_order(0, m, 23);
    }
    if m < ten {
        crate::binary::lemma_magnitude_order(m, ten, 23);
    } else if m > ten {
        crate::binary::lemma_magnitude_order(ten, m, 23);
    }
    crate::binary::lemma_magnitude_order(0, ten, 23);
}

/// A path is accepted where it begins with `/`, and kept.
pub proof fn law_absolute_path(path: &str, r: Result<AbsoluteFilePath, DomainError>, kept: &str)
    requires
        call_ensures(AbsoluteFilePath::new, (path,), r),
        r matches Ok(p) ==> call_ensures(AbsoluteFilePath::as_path, (&p,), kept),
    ensures
        r is Ok <==> path@.len() > 0 && path@[0] == '/',
        r is Ok ==> kept@ == path@,
        r matches Err(e) ==> (e matches DomainError::InvalidPath(p) && p@ == path@),
{
}

/// The numbers of seasons and of episodes are those that are not negative. One
/// that sixteen bits hold is stored as it is, and two that differ by a multiple
/// of 2 to the 16th are stored alike.
pub proof fn law_season_and_episode_numbers(
    value: i32,
    season: Result<SeasonNumber, DomainError>,
    episode: Result<EpisodeNumber, DomainError>,
    s: i16,
    e: i16,
)
    requires
        call_ensures(SeasonNumber::new, (value,), season),
        call_ensures(EpisodeNumber::new, (value,), episode),
        season matches Ok(n) ==> call_ensures(SeasonNumber::as_i16, (&n,), s),
        episode matches Ok(n) ==> call_ensures(EpisodeNumber::as_i16, (&n,), e),
    ensures
        season is Ok <==> value >= 0,
        episode is Ok <==> value >= 0,
        season matches Err(x) ==> x == DomainError::InvalidSeasonNumber(value),
        episode matches Err(x) ==> x == DomainError::InvalidEpisodeNumber(value),
        value >= 0 ==> (value - s) % 0x1_0000 == 0 && (value - e) % 0x1_0000 == 0,
        0 <= value <= i16::MAX ==> s == value && e == value,
{
}

/// What is read as an identifier in The Movie Database: a text that is a number
/// of 32 bits and not negative.
pub proof fn law_any_tmdb_id(s: &str, n: Option<i32>, r: Result<TmdbId, DomainError>)
    requires
        call_ensures(TmdbId::from_str, (s,), r),
        call_ensures(crate::decimal::parse_i32, (s,), n),
    ensures
        r is Ok <==> n is Some && n->0 >= 0,
        r matches Ok(id) ==> id.value() == n->0,
        r matches Err(e) ==> e is InvalidTmdbId,
{
}

} // verus!
