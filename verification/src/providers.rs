//! Items as Jellyfin lists them, and what is made of them.
use vstd::prelude::*;
use vstd::string::*;

use crate::binary::Binary32;
use crate::decimal::parse_i32;
use crate::models::common::{AbsoluteFilePath, EpisodeNumber, Rating, SeasonNumber, TmdbId};
use crate::models::drafts::{EpisodeDraft, MediaFileDraft, MovieDraft, Provider, SeriesDraft};
use crate::models::library::{
    Episode, EpisodeId, Movie, MovieId, ProviderIds, Series, SeriesId,
};
use crate::text_map::TextMap;

verus! {

/// Why a provider gave nothing that can be used.
#[derive(Debug)]
pub enum ProviderError {
    RequestError(String),
    TmdbIdNotFound,
    TvdbIdNotFound,
    InvalidUrl,
    InvalidApiKey(String),
    MissingProviderId(&'static str),
    MissingPath,
    InvalidPath(String),
    MissingSeasonNumber,
    MissingEpisodeNumber,
}

/// An item as Jellyfin lists it, with its identifiers at other providers by
/// their names.
#[derive(Debug)]
pub struct JellyfinItem {
    pub id: String,
    pub name: String,
    pub path: Option<String>,
    pub community_rating: Option<Binary32>,
    pub provider_ids: TextMap<String>,
    pub index_number: Option<i32>,
    pub parent_index_number: Option<i32>,
    pub series_id: Option<String>,
}

/// Something that belongs to a parent.
pub trait ParentId {
    fn parent_id(&self) -> Option<&str>;
}

impl ParentId for JellyfinItem {
    /// The series that an episode belongs to.
    fn parent_id(&self) -> (r: Option<&str>)
        ensures
            match r {
                Some(s) => self.series_id is Some && s@ == self.series_id->0@,
                None => self.series_id is None,
            },
    {
        match &self.series_id {
            Some(s) => Some(s.as_str()),
            None => None,
        }
    }
}

/// The identifier at a provider.
pub open spec fn id_at(ids: Map<Seq<char>, String>, name: Seq<char>) -> Option<Seq<char>> {
    if ids.contains_key(name) {
        Some(ids[name]@)
    } else {
        None
    }
}

/// What an optional rating holds.
pub open spec fn rating_value(r: Option<Rating>) -> Option<Binary32> {
    match r {
        Some(x) => Some(x.value()),
        None => None,
    }
}

/// A rating that lies in its range.
pub open spec fn usable_rating(r: Option<Binary32>) -> Option<Binary32> {
    match r {
        Some(x) => if crate::models::common::in_rating_range(x) {
            Some(x)
        } else {
            None
        },
        None => None,
    }
}

/// The rating of an item; one out of range is dropped.
pub fn map_to_rating(rating: Option<Binary32>) -> (r: Option<Rating>)
    ensures
        rating_value(r) == usable_rating(rating),
{
    match rating {
        Some(x) => match Rating::new(x) {
            Ok(r) => Some(r),
            Err(_) => None,
        },
        None => None,
    }
}

/// What an optional identifier in The Movie Database holds.
pub open spec fn tmdb_value(r: Option<TmdbId>) -> Option<int> {
    match r {
        Some(x) => Some(x.value()),
        None => None,
    }
}

/// The identifier in The Movie Database, where it is a number that is not
/// negative.
pub open spec fn usable_tmdb(ids: Map<Seq<char>, String>) -> Option<int> {
    match id_at(ids, "Tmdb"@) {
        Some(s) => match crate::decimal::signed_value(s, i32::MIN as int, i32::MAX as int) {
            Some(n) => if n >= 0 {
                Some(n)
            } else {
                None
            },
            None => None,
        },
        None => None,
    }
}

/// The identifier of an item in The Movie Database; one that is none is
/// dropped.
pub fn map_to_tmdb_id(ids: &TextMap<String>) -> (r: Option<TmdbId>)
    ensures
        tmdb_value(r) == usable_tmdb(ids@),
{
    match ids.get("Tmdb") {
        Some(s) => match TmdbId::from_str(s.as_str()) {
            Ok(id) => Some(id),
            Err(_) => None,
        },
        None => None,
    }
}

/// The identifier in TheTVDB, where it is a number.
pub open spec fn usable_tvdb(ids: Map<Seq<char>, String>) -> Option<int> {
    match id_at(ids, "Tvdb"@) {
        Some(s) => crate::decimal::signed_value(s, i32::MIN as int, i32::MAX as int),
        None => None,
    }
}

/// The identifier of an item in TheTVDB; one that is no number is dropped.
pub fn map_to_tvdb_id(ids: &TextMap<String>) -> (r: Option<i32>)
    ensures
        match r {
            Some(n) => usable_tvdb(ids@) == Some(n as int),
            None => usable_tvdb(ids@) is None,
        },
{
    match ids.get("Tvdb") {
        Some(s) => parse_i32(s.as_str()),
        None => None,
    }
}

/// The path of an item's file.
pub fn map_to_absolute_file_path(path: &Option<String>) -> (r: Result<
    AbsoluteFilePath,
    ProviderError,
>)
    ensures
        match r {
            Ok(p) => usable_path(*path) == Some(p@),
            Err(e) => usable_path(*path) is None && e == (match *path {
                Some(p) => ProviderError::InvalidPath(p),
                None => ProviderError::MissingPath,
            }),
        },
{
    match path {
        Some(p) => match AbsoluteFilePath::new(p.as_str()) {
            Ok(x) => Ok(x),
            Err(_) => Err(ProviderError::InvalidPath(p.clone())),
        },
        None => Err(ProviderError::MissingPath),
    }
}

/// The path of an item's file, dropped where it is not absolute.
fn optional_path(path: &Option<String>) -> (r: Option<AbsoluteFilePath>)
    ensures
        path_value(r) == usable_path(*path),
{
    match map_to_absolute_file_path(path) {
        Ok(p) => Some(p),
        Err(_) => None,
    }
}

/// What an optional path holds.
pub open spec fn path_value(p: Option<AbsoluteFilePath>) -> Option<Seq<char>> {
    match p {
        Some(x) => Some(x@),
        None => None,
    }
}

/// A path that is absolute.
pub open spec fn usable_path(path: Option<String>) -> Option<Seq<char>> {
    match path {
        Some(p) => if crate::models::common::is_absolute(p@) {
            Some(p@)
        } else {
            None
        },
        None => None,
    }
}

/// A season or an episode number that is not negative.
pub open spec fn usable_number(n: Option<i32>) -> Option<int> {
    match n {
        Some(x) => if x >= 0 {
            Some(x as int)
        } else {
            None
        },
        None => None,
    }
}

/// What an optional season number holds.
pub open spec fn season_value(n: Option<SeasonNumber>) -> Option<int> {
    match n {
        Some(x) => Some(x.value()),
        None => None,
    }
}

/// What an optional episode number holds.
pub open spec fn episode_value(n: Option<EpisodeNumber>) -> Option<int> {
    match n {
        Some(x) => Some(x.value()),
        None => None,
    }
}

/// The season of an episode; a negative number is dropped.
fn map_to_season(n: Option<i32>) -> (r: Option<SeasonNumber>)
    ensures
        season_value(r) == usable_number(n),
{
    match n {
        Some(x) => match SeasonNumber::new(x) {
            Ok(s) => Some(s),
            Err(_) => None,
        },
        None => None,
    }
}

/// The number of an episode; a negative number is dropped.
fn map_to_episode_number(n: Option<i32>) -> (r: Option<EpisodeNumber>)
    ensures
        episode_value(r) == usable_number(n),
{
    match n {
        Some(x) => match EpisodeNumber::new(x) {
            Ok(s) => Some(s),
            Err(_) => None,
        },
        None => None,
    }
}

/// Whether a draft is that of a series.
pub open spec fn is_series_draft(d: SeriesDraft, item: JellyfinItem) -> bool {
    &&& d.title@ == item.name@
    &&& d.jellyfin_id@ == item.id@
    &&& d.provider == Provider::Jellyfin
    &&& tmdb_value(d.tmdb_id) == usable_tmdb(item.provider_ids@)
    &&& match d.tvdb_id {
        Some(n) => usable_tvdb(item.provider_ids@) == Some(n as int),
        None => usable_tvdb(item.provider_ids@) is None,
    }
    &&& rating_value(d.rating) == usable_rating(item.community_rating)
}

/// The draft of a series.
pub fn map_to_series_draft(item: &JellyfinItem) -> (r: SeriesDraft)
    ensures
        is_series_draft(r, *item),
{
    SeriesDraft {
        title: item.name.clone(),
        tmdb_id: map_to_tmdb_id(&item.provider_ids),
        tvdb_id: map_to_tvdb_id(&item.provider_ids),
        rating: map_to_rating(item.community_rating),
        jellyfin_id: item.id.clone(),
        provider: Provider::Jellyfin,
    }
}

/// Why an item can be no draft with a file, in the order in which it is looked
/// at.
pub open spec fn path_fault(item: JellyfinItem) -> Option<ProviderError> {
    match item.path {
        None => Some(ProviderError::MissingPath),
        Some(p) => if crate::models::common::is_absolute(p@) {
            None
        } else {
            Some(ProviderError::InvalidPath(p))
        },
    }
}

/// Why an item can be no episode, in the order in which it is looked at.
pub open spec fn episode_fault(item: JellyfinItem) -> Option<ProviderError> {
    if path_fault(item) is Some {
        path_fault(item)
    } else if usable_number(item.parent_index_number) is None {
        Some(ProviderError::MissingSeasonNumber)
    } else if usable_number(item.index_number) is None {
        Some(ProviderError::MissingEpisodeNumber)
    } else {
        None
    }
}

/// Whether a file draft is that of an item.
pub open spec fn is_file_draft(f: MediaFileDraft, item: JellyfinItem) -> bool {
    f.jellyfin_id@ == item.id@ && usable_path(item.path) == Some(f.path@) && f.size_bytes is None
}

/// Whether a draft is that of an episode of a series.
pub open spec fn is_episode_draft(d: EpisodeDraft, item: JellyfinItem, series_id: SeriesId) -> bool {
    &&& d.title@ == item.name@
    &&& d.series_id == series_id
    &&& Some(d.season_number.value()) == usable_number(item.parent_index_number)
    &&& Some(d.episode_number.value()) == usable_number(item.index_number)
    &&& tmdb_value(d.tmdb_id) == usable_tmdb(item.provider_ids@)
    &&& rating_value(d.rating) == usable_rating(item.community_rating)
    &&& d.provider == Provider::Jellyfin
    &&& is_file_draft(d.media_file, item)
}

/// The draft of an episode. A wrong rating or identifier is dropped; without a
/// path, a season and a number there is no draft.
pub fn map_to_episode_draft(item: &JellyfinItem, series_id: SeriesId) -> (r: Result<
    EpisodeDraft,
    ProviderError,
>)
    ensures
        match r {
            Ok(d) => episode_fault(*item) is None && is_episode_draft(d, *item, series_id),
            Err(e) => episode_fault(*item) == Some(e),
        },
{
    let path = match map_to_absolute_file_path(&item.path) {
        Ok(p) => p,
        Err(e) => {
            return Err(e);
        },
    };
    let season_number = match map_to_season(item.parent_index_number) {
        Some(n) => n,
        None => {
            return Err(ProviderError::MissingSeasonNumber);
        },
    };
    let episode_number = match map_to_episode_number(item.index_number) {
        Some(n) => n,
        None => {
            return Err(ProviderError::MissingEpisodeNumber);
        },
    };
    Ok(
        EpisodeDraft {
            title: item.name.clone(),
            series_id,
            season_number,
            episode_number,
            tmdb_id: map_to_tmdb_id(&item.provider_ids),
            rating: map_to_rating(item.community_rating),
            provider: Provider::Jellyfin,
            media_file: MediaFileDraft { jellyfin_id: item.id.clone(), path, size_bytes: None },
        },
    )
}

/// Whether a draft is that of a movie.
pub open spec fn is_movie_draft(d: MovieDraft, item: JellyfinItem) -> bool {
    &&& d.title@ == item.name@
    &&& d.jellyfin_id@ == item.id@
    &&& tmdb_value(d.tmdb_id) == usable_tmdb(item.provider_ids@)
    &&& rating_value(d.rating) == usable_rating(item.community_rating)
    &&& d.provider == Provider::Jellyfin
    &&& is_file_draft(d.media_file, item)
}

/// The draft of a movie. A wrong rating or identifier is dropped; without a
/// path there is no draft.
pub fn map_to_movie_draft(item: &JellyfinItem) -> (r: Result<MovieDraft, ProviderError>)
    ensures
        match r {
            Ok(d) => path_fault(*item) is None && is_movie_draft(d, *item),
            Err(e) => path_fault(*item) == Some(e),
        },
{
    let path = match map_to_absolute_file_path(&item.path) {
        Ok(p) => p,
        Err(e) => {
            return Err(e);
        },
    };
    Ok(
        MovieDraft {
            title: item.name.clone(),
            tmdb_id: map_to_tmdb_id(&item.provider_ids),
            rating: map_to_rating(item.community_rating),
            jellyfin_id: item.id.clone(),
            media_file: MediaFileDraft { jellyfin_id: item.id.clone(), path, size_bytes: None },
            provider: Provider::Jellyfin,
        },
    )
}

/// The series that an item describes, under a new identifier. What is wrong
/// with it is dropped.
pub fn series_from_item(item: JellyfinItem) -> (r: Series)
    ensures
        crate::ids::is_version_7(r.id.0),
        r.title == item.name,
        tmdb_value(r.tmdb_id) == usable_tmdb(item.provider_ids@),
        rating_value(r.rating) == usable_rating(item.community_rating),
        path_value(r.path) == usable_path(item.path),
        r.provider_ids.jellyfin == Some(item.id),
{
    Series {
        id: SeriesId::new(),
        tmdb_id: map_to_tmdb_id(&item.provider_ids),
        rating: map_to_rating(item.community_rating),
        path: optional_path(&item.path),
        title: item.name,
        provider_ids: ProviderIds { jellyfin: Some(item.id) },
    }
}

/// The movie that an item describes, under a new identifier. What is wrong
/// with it is dropped.
pub fn movie_from_item(item: JellyfinItem) -> (r: Movie)
    ensures
        crate::ids::is_version_7(r.id.0),
        r.title == item.name,
        tmdb_value(r.tmdb_id) == usable_tmdb(item.provider_ids@),
        rating_value(r.rating) == usable_rating(item.community_rating),
        path_value(r.path) == usable_path(item.path),
        r.provider_ids.jellyfin == Some(item.id),
{
    Movie {
        id: MovieId::new(),
        tmdb_id: map_to_tmdb_id(&item.provider_ids),
        rating: map_to_rating(item.community_rating),
        path: optional_path(&item.path),
        title: item.name,
        provider_ids: ProviderIds { jellyfin: Some(item.id) },
    }
}

/// The episode that an item describes, under a new identifier. What is wrong
/// with it is dropped.
pub fn map_to_episode(item: JellyfinItem, series_id: SeriesId) -> (r: Episode)
    ensures
        crate::ids::is_version_7(r.id.0),
        r.series_id == series_id,
        r.title == item.name,
        season_value(r.season_number) == usable_number(item.parent_index_number),
        episode_value(r.episode_number) == usable_number(item.index_number),
        tmdb_value(r.tmdb_id) == usable_tmdb(item.provider_ids@),
        rating_value(r.rating) == usable_rating(item.community_rating),
        path_value(r.path) == usable_path(item.path),
        r.provider_ids.jellyfin == Some(item.id),
{
    Episode {
        id: EpisodeId::new(),
        series_id,
        season_number: map_to_season(item.parent_index_number),
        episode_number: map_to_episode_number(item.index_number),
        tmdb_id: map_to_tmdb_id(&item.provider_ids),
        rating: map_to_rating(item.community_rating),
        path: optional_path(&item.path),
        title: item.name,
        provider_ids: ProviderIds { jellyfin: Some(item.id) },
    }
}

/// How many items a page holds.
pub const PAGE_SIZE: i32 = 200;

/// The number of items that a provider states, as a signed number of 32 bits.
pub open spec fn signed_total(total: u32) -> int {
    if total < 0x8000_0000 {
        total as int
    } else {
        total - 0x1_0000_0000
    }
}

/// Where the pages after the first begin, given how many items there are in
/// all: at every multiple of the page size up to that number.
pub fn remaining_starts(total: u32) -> (r: Vec<i32>)
    ensures
        forall|i: int| 0 <= i < r@.len() ==> #[trigger] r@[i] == (i + 1) * PAGE_SIZE,
        forall|i: int| 0 <= i < r@.len() ==> (#[trigger] r@[i] as int) < signed_total(total),
        (r@.len() + 1) * PAGE_SIZE >= signed_total(total),
{
    let mut r: Vec<i32> = Vec::new();
    if total >= 0x8000_0000 {
        return r;
    }
    let mut start: u32 = 200;
    while start < total
        invariant
            total < 0x8000_0000,
            start == (r@.len() + 1) * 200,
            start <= total + 200,
            forall|i: int| 0 <= i < r@.len() ==> #[trigger] r@[i] == (i + 1) * 200,
            forall|i: int| 0 <= i < r@.len() ==> (#[trigger] r@[i] as int) < total,
        decreases total + 200 - start,
    {
        r.push(start as i32);
        start = start + 200;
    }
    r
}

/// Whether the page that begins at `start` holds a position.
pub open spec fn on_page(start: int, position: int) -> bool {
    start <= position < start + PAGE_SIZE
}

/// Every item is on exactly one page: for each position among the items there
/// is a page that holds it, and pages do not overlap.
pub proof fn law_pages_cover_all_items(starts: Seq<i32>, total: u32, position: int)
    requires
        forall|i: int| 0 <= i < starts.len() ==> #[trigger] starts[i] == (i + 1) * PAGE_SIZE,
        (starts.len() + 1) * PAGE_SIZE >= signed_total(total),
        0 <= position < signed_total(total),
    ensures
        on_page(0, position) || exists|i: int|
            0 <= i < starts.len() && on_page(#[trigger] starts[i] as int, position),
        forall|i: int|
            0 <= i < starts.len() && on_page(#[trigger] starts[i] as int, position) ==> !on_page(
                0,
                position,
            ),
        forall|i: int, j: int|
            0 <= i < j < starts.len() && on_page(#[trigger] starts[i] as int, position)
                ==> !on_page(#[trigger] starts[j] as int, position),
{
    if position >= PAGE_SIZE {
        let i = position / 200 - 1;
        assert(0 <= i < starts.len());
        assert(on_page(starts[i] as int, position));
    }
}

/// The first of the items that a media manager knows under an identifier.
pub fn managed_item(ids: &Vec<i64>, missing: ProviderError) -> (r: Result<i64, ProviderError>)
    ensures
        r == (if ids@.len() > 0 {
            Ok(ids@[0])
        } else {
            Err(missing)
        }),
{
    if ids.len() > 0 {
        Ok(ids[0])
    } else {
        Err(missing)
    }
}

/// A rating is kept exactly where it is one that a rating may be.
pub proof fn law_usable_ratings(
    x: Binary32,
    made: Result<Rating, crate::models::error::DomainError>,
    r: Option<Rating>,
    none: Option<Rating>,
)
    requires
        call_ensures(Rating::new, (x,), made),
        call_ensures(map_to_rating, (Some(x),), r),
        call_ensures(map_to_rating, (None,), none),
    ensures
        none is None,
        r is Some <==> made is Ok,
        r is Some ==> r->0.value() == x,
{
}

/// An identifier in The Movie Database is what is listed under `Tmdb`, kept
/// exactly where it reads as one, and one in TheTVDB what is listed under
/// `Tvdb`, kept exactly where it reads as a number of 32 bits.
pub proof fn law_usable_identifiers(
    ids: TextMap<String>,
    tmdb: &str,
    tvdb: &str,
    made: Result<TmdbId, crate::models::error::DomainError>,
    n: Option<i32>,
    a: Option<TmdbId>,
    b: Option<i32>,
)
    requires
        call_ensures(map_to_tmdb_id, (&ids,), a),
        call_ensures(map_to_tvdb_id, (&ids,), b),
        call_ensures(TmdbId::from_str, (tmdb,), made),
        call_ensures(parse_i32, (tvdb,), n),
    ensures
        !ids@.contains_key("Tmdb"@) ==> a is None,
        !ids@.contains_key("Tvdb"@) ==> b is None,
        ids@.contains_key("Tmdb"@) && ids@["Tmdb"@]@ == tmdb@ ==> (a is Some <==> made is Ok) && (
        a is Some ==> a->0.value() == made->Ok_0.value()),
        ids@.contains_key("Tvdb"@) && ids@["Tvdb"@]@ == tvdb@ ==> b == n,
{
}

/// A path is usable exactly where it is there and begins with `/`, and then it
/// is kept as it is; otherwise what is wrong with it is told.
pub proof fn law_usable_paths(path: Option<String>, r: Result<AbsoluteFilePath, ProviderError>)
    requires
        call_ensures(map_to_absolute_file_path, (&path,), r),
    ensures
        r is Ok <==> path is Some && path->0@.len() > 0 && path->0@[0] == '/',
        r is Ok ==> r->Ok_0@ == path->0@,
        path is None ==> r == Err::<AbsoluteFilePath, ProviderError>(ProviderError::MissingPath),
        path is Some && r is Err ==> r == Err::<AbsoluteFilePath, ProviderError>(
            ProviderError::InvalidPath(path->0),
        ),
{
}

/// Whether a path is there and begins with `/`.
pub open spec fn has_file(item: JellyfinItem) -> bool {
    item.path is Some && item.path->0@.len() > 0 && item.path->0@[0] == '/'
}

/// What the drafts of an item hold: its own name and identifiers, its rating
/// and its identifier in The Movie Database as they are read from it, and its
/// file.
pub proof fn law_drafts_of_an_item(
    item: JellyfinItem,
    series_id: SeriesId,
    tmdb: Option<TmdbId>,
    tvdb: Option<i32>,
    rating: Option<Rating>,
    series: SeriesDraft,
    movie: Result<MovieDraft, ProviderError>,
    episode: Result<EpisodeDraft, ProviderError>,
)
    requires
        call_ensures(map_to_tmdb_id, (&item.provider_ids,), tmdb),
        call_ensures(map_to_tvdb_id, (&item.provider_ids,), tvdb),
        call_ensures(map_to_rating, (item.community_rating,), rating),
        call_ensures(map_to_series_draft, (&item,), series),
        call_ensures(map_to_movie_draft, (&item,), movie),
        call_ensures(map_to_episode_draft, (&item, series_id), episode),
    ensures
        series.title@ == item.name@ && series.jellyfin_id@ == item.id@,
        tmdb_value(series.tmdb_id) == tmdb_value(tmdb),
        series.tvdb_id == tvdb,
        rating_value(series.rating) == rating_value(rating),
        movie is Ok <==> has_file(item),
        movie matches Ok(m) ==> m.title@ == item.name@ && m.jellyfin_id@ == item.id@ && tmdb_value(
            m.tmdb_id,
        ) == tmdb_value(tmdb) && rating_value(m.rating) == rating_value(rating)
            && m.media_file.jellyfin_id@ == item.id@ && m.media_file.path@ == item.path->0@
            && m.media_file.size_bytes is None,
        episode is Ok <==> has_file(item) && item.parent_index_number is Some
            && item.parent_index_number->0 >= 0 && item.index_number is Some && item.index_number->0
            >= 0,
        episode matches Ok(e) ==> e.title@ == item.name@ && e.series_id == series_id
            && e.season_number.value() == item.parent_index_number->0 && e.episode_number.value()
            == item.index_number->0 && tmdb_value(e.tmdb_id) == tmdb_value(tmdb) && rating_value(
            e.rating,
        ) == rating_value(rating) && e.media_file.jellyfin_id@ == item.id@ && e.media_file.path@
            == item.path->0@ && e.media_file.size_bytes is None,
{
}

/// What is wrong with an item is told: first that it has no file or that its
/// path is not absolute, then that it has no season, then that it has no
/// number.
pub proof fn law_what_is_wrong_with_an_item(
    item: JellyfinItem,
    series_id: SeriesId,
    movie: Result<MovieDraft, ProviderError>,
    episode: Result<EpisodeDraft, ProviderError>,
)
    requires
        call_ensures(map_to_movie_draft, (&item,), movie),
        call_ensures(map_to_episode_draft, (&item, series_id), episode),
    ensures
        item.path is None ==> movie == Err::<MovieDraft, ProviderError>(ProviderError::MissingPath)
            && episode == Err::<EpisodeDraft, ProviderError>(ProviderError::MissingPath),
        item.path is Some && !has_file(item) ==> movie == Err::<MovieDraft, ProviderError>(
            ProviderError::InvalidPath(item.path->0),
        ) && episode == Err::<EpisodeDraft, ProviderError>(
            ProviderError::InvalidPath(item.path->0),
        ),
        has_file(item) && !(item.parent_index_number is Some && item.parent_index_number->0 >= 0)
            ==> episode == Err::<EpisodeDraft, ProviderError>(ProviderError::MissingSeasonNumber),
        has_file(item) && item.parent_index_number is Some && item.parent_index_number->0 >= 0 && !(
        item.index_number is Some && item.index_number->0 >= 0) ==> episode == Err::<
            EpisodeDraft,
            ProviderError,
        >(ProviderError::MissingEpisodeNumber),
{
}

/// What an item becomes in the library: its name and identifier, and of its
/// rating, its identifier in The Movie Database, its path and its numbers what
/// is usable.
pub proof fn law_items_in_the_library(
    item: JellyfinItem,
    series_id: SeriesId,
    tmdb: Option<TmdbId>,
    rating: Option<Rating>,
    series: Series,
    movie: Movie,
    episode: Episode,
)
    requires
        call_ensures(map_to_tmdb_id, (&item.provider_ids,), tmdb),
        call_ensures(map_to_rating, (item.community_rating,), rating),
        call_ensures(series_from_item, (item,), series),
        call_ensures(movie_from_item, (item,), movie),
        call_ensures(map_to_episode, (item, series_id), episode),
    ensures
        series.title == item.name && movie.title == item.name && episode.title == item.name,
        series.provider_ids.jellyfin == Some(item.id) && movie.provider_ids.jellyfin == Some(
            item.id,
        ) && episode.provider_ids.jellyfin == Some(item.id),
        tmdb_value(series.tmdb_id) == tmdb_value(tmdb) && tmdb_value(movie.tmdb_id) == tmdb_value(
            tmdb,
        ) && tmdb_value(episode.tmdb_id) == tmdb_value(tmdb),
        rating_value(series.rating) == rating_value(rating) && rating_value(movie.rating)
            == rating_value(rating) && rating_value(episode.rating) == rating_value(rating),
        series.path is Some <==> has_file(item),
        movie.path is Some <==> has_file(item),
        episode.path is Some <==> has_file(item),
        series.path matches Some(p) ==> p@ == item.path->0@,
        movie.path matches Some(p) ==> p@ == item.path->0@,
        episode.path matches Some(p) ==> p@ == item.path->0@,
        episode.series_id == series_id,
        episode.season_number is Some <==> item.parent_index_number is Some
            && item.parent_index_number->0 >= 0,
        episode.season_number matches Some(n) ==> n.value() == item.parent_index_number->0,
        episode.episode_number is Some <==> item.index_number is Some && item.index_number->0 >= 0,
        episode.episode_number matches Some(n) ==> n.value() == item.index_number->0,
{
}

/// The pages after the first begin at the multiples of 200, one after the
/// other, each before the end of the items and the last no further than 200
/// from it. None is fetched where there are no more than 200 items. A total of
/// 2 to the 31st or more counts as none.
pub proof fn law_starts_of_pages(total: u32, r: Vec<i32>, i: int)
    requires
        call_ensures(remaining_starts, (total,), r),
    ensures
        0 <= i < r@.len() ==> r@[i] == 200 * (i + 1) && 0 < r@[i] < total,
        total < 0x8000_0000 ==> 200 * (r@.len() + 1) >= total,
        total <= 200 || total >= 0x8000_0000 ==> r@.len() == 0,
        200 < total < 0x8000_0000 ==> r@.len() > 0 && r@.last() + 200 >= total,
{
    if r@.len() > 0 {
        assert(r@[0] == (0 + 1) * PAGE_SIZE);
        assert(r@[r@.len() - 1] == (r@.len() - 1 + 1) * PAGE_SIZE);
    }
}

/// Of the items that a media manager knows under an identifier the first is
/// taken, and that there is none is told as it was asked for.
pub proof fn law_first_managed_item(ids: Vec<i64>, missing: ProviderError, r: Result<i64, ProviderError>)
    requires
        call_ensures(managed_item, (&ids, missing), r),
    ensures
        r is Ok <==> ids@.len() > 0,
        r is Ok ==> r->Ok_0 == ids@.first(),
        r is Err ==> r->Err_0 == missing,
{
}

/// An episode belongs to the series that its item names.
pub proof fn law_parent_of_an_item(item: JellyfinItem, r: Option<&str>)
    requires
        call_ensures(<JellyfinItem as ParentId>::parent_id, (&item,), r),
    ensures
        r is Some <==> item.series_id is Some,
        r matches Some(s) ==> s@ == item.series_id->0@,
{
}

} // verus!
