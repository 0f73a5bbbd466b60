//! Items as a provider describes them, before they are stored.
use vstd::prelude::*;
use vstd::string::*;

use crate::models::common::{AbsoluteFilePath, EpisodeNumber, Rating, SeasonNumber, TmdbId};
use crate::models::library::SeriesId;

verus! {

/// Where an item comes from.
#[derive(Clone, Copy, Debug, PartialEq, Eq, Structural)]
pub enum Provider {
    Jellyfin,
}

impl Provider {
    /// The name under which a provider is recorded.
    pub open spec fn name(self) -> Seq<char> {
        "jellyfin"@
    }

    pub fn as_str(&self) -> (r: &'static str)
        ensures
            r@ == self.name(),
    {
        match self {
            Provider::Jellyfin => "jellyfin",
        }
    }
}

/// A series that a provider lists.
#[derive(Debug)]
pub struct SeriesDraft {
    pub title: String,
    pub tmdb_id: Option<TmdbId>,
    pub tvdb_id: Option<i32>,
    pub rating: Option<Rating>,
    pub jellyfin_id: String,
    pub provider: Provider,
}

/// A file that a provider lists.
#[derive(Debug)]
pub struct MediaFileDraft {
    pub jellyfin_id: String,
    pub path: AbsoluteFilePath,
    pub size_bytes: Option<i64>,
}

/// A movie that a provider lists.
#[derive(Debug)]
pub struct MovieDraft {
    pub title: String,
    pub tmdb_id: Option<TmdbId>,
    pub rating: Option<Rating>,
    pub jellyfin_id: String,
    pub media_file: MediaFileDraft,
    pub provider: Provider,
}

/// An episode that a provider lists.
#[derive(Debug)]
pub struct EpisodeDraft {
    pub title: String,
    pub series_id: SeriesId,
    pub season_number: SeasonNumber,
    pub episode_number: EpisodeNumber,
    pub tmdb_id: Option<TmdbId>,
    pub rating: Option<Rating>,
    pub provider: Provider,
    pub media_file: MediaFileDraft,
}

/// The name under which the provider is recorded.
pub proof fn law_provider_name(p: Provider, r: &'static str)
    requires
        call_ensures(Provider::as_str, (&p,), r),
    ensures
        r@ == "jellyfin"@,
{
}

} // verus!
