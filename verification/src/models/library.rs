//! Series, movies, episodes and the identifiers of everything that is stored.
use vstd::prelude::*;

use crate::ids::new_uuid;
use crate::models::common::{AbsoluteFilePath, EpisodeNumber, Rating, SeasonNumber, TmdbId};

verus! {

/// Identifies a media file.
#[derive(Clone, Copy, Debug, PartialEq, Eq, Hash, Structural)]
pub struct MediaFileId(pub u128);

impl MediaFileId {
    /// A new identifier, of version 7.
    pub fn new() -> (r: Self)
        ensures
            crate::ids::is_version_7(r.0),
    {
        MediaFileId(new_uuid())
    }

    pub fn as_uuid(&self) -> (r: u128)
        ensures
            r == self.0,
    {
        self.0
    }
}

/// Identifies a movie.
#[derive(Clone, Copy, Debug, PartialEq, Eq, Hash, Structural)]
pub struct MovieId(pub u128);

impl MovieId {
    /// A new identifier, of version 7.
    pub fn new() -> (r: Self)
        ensures
            crate::ids::is_version_7(r.0),
    {
        MovieId(new_uuid())
    }

    pub fn as_uuid(&self) -> (r: u128)
        ensures
            r == self.0,
    {
        self.0
    }
}

/// Identifies a series.
#[derive(Clone, Copy, Debug, PartialEq, Eq, Hash, Structural)]
pub struct SeriesId(pub u128);

impl SeriesId {
    /// A new identifier, of version 7.
    pub fn new() -> (r: Self)
        ensures
            crate::ids::is_version_7(r.0),
    {
        SeriesId(new_uuid())
    }

    pub fn as_uuid(&self) -> (r: u128)
        ensures
            r == self.0,
    {
        self.0
    }
}

/// Identifies an episode.
#[derive(Clone, Copy, Debug, PartialEq, Eq, Hash, Structural)]
pub struct EpisodeId(pub u128);

impl EpisodeId {
    /// A new identifier, of version 7.
    pub fn new() -> (r: Self)
        ensures
            crate::ids::is_version_7(r.0),
    {
        EpisodeId(new_uuid())
    }

    pub fn as_uuid(&self) -> (r: u128)
        ensures
            r == self.0,
    {
        self.0
    }
}

/// Identifies a file kept in retention.
#[derive(Clone, Copy, Debug, PartialEq, Eq, Hash, Structural)]
pub struct RetentionFileId(pub u128);

impl RetentionFileId {
    /// A new identifier, of version 7.
    pub fn new() -> (r: Self)
        ensures
            crate::ids::is_version_7(r.0),
    {
        RetentionFileId(new_uuid())
    }

    pub fn as_uuid(&self) -> (r: u128)
        ensures
            r == self.0,
    {
        self.0
    }
}

/// The identifiers under which the providers know an item.
#[derive(Debug)]
pub struct ProviderIds {
    pub jellyfin: Option<String>,
}

/// A series.
#[derive(Debug)]
pub struct Series {
    pub id: SeriesId,
    pub title: String,
    pub tmdb_id: Option<TmdbId>,
    pub rating: Option<Rating>,
    pub path: Option<AbsoluteFilePath>,
    pub provider_ids: ProviderIds,
}

/// A movie.
#[derive(Debug)]
pub struct Movie {
    pub id: MovieId,
    pub title: String,
    pub tmdb_id: Option<TmdbId>,
    pub rating: Option<Rating>,
    pub path: Option<AbsoluteFilePath>,
    pub provider_ids: ProviderIds,
}

/// An episode of a series.
#[derive(Debug)]
pub struct Episode {
    pub id: EpisodeId,
    pub series_id: SeriesId,
    pub season_number: Option<SeasonNumber>,
    pub episode_number: Option<EpisodeNumber>,
    pub title: String,
    pub path: Option<AbsoluteFilePath>,
    pub tmdb_id: Option<TmdbId>,
    pub rating: Option<Rating>,
    pub provider_ids: ProviderIds,
}

/// An identifier is the number that it holds, and a new one is of version 7.
pub proof fn law_identifiers(
    file: MediaFileId,
    movie: MovieId,
    series: SeriesId,
    episode: EpisodeId,
    retained: RetentionFileId,
    a: u128,
    b: u128,
    c: u128,
    d: u128,
    e: u128,
)
    requires
        call_ensures(MediaFileId::as_uuid, (&file,), a),
        call_ensures(MovieId::as_uuid, (&movie,), b),
        call_ensures(SeriesId::as_uuid, (&series,), c),
        call_ensures(EpisodeId::as_uuid, (&episode,), d),
        call_ensures(RetentionFileId::as_uuid, (&retained,), e),
    ensures
        a == file.0 && b == movie.0 && c == series.0 && d == episode.0 && e == retained.0,
        forall|r: MediaFileId| #[trigger]
            call_ensures(MediaFileId::new, (), r) ==> (r.0 / 0x1000_0000_0000_0000_0000) % 16 == 7,
        forall|r: MovieId| #[trigger]
            call_ensures(MovieId::new, (), r) ==> (r.0 / 0x1000_0000_0000_0000_0000) % 16 == 7,
        forall|r: SeriesId| #[trigger]
            call_ensures(SeriesId::new, (), r) ==> (r.0 / 0x1000_0000_0000_0000_0000) % 16 == 7,
        forall|r: EpisodeId| #[trigger]
            call_ensures(EpisodeId::new, (), r) ==> (r.0 / 0x1000_0000_0000_0000_0000) % 16 == 7,
        forall|r: RetentionFileId| #[trigger]
            call_ensures(RetentionFileId::new, (), r) ==> (r.0 / 0x1000_0000_0000_0000_0000) % 16
                == 7,
{
}

} // verus!
