//! Batches as rows, and what is told of them.
use vstd::prelude::*;
use vstd::string::*;

use crate::binary::Binary32;
use crate::decimal::signed_text;
use crate::models::batch::BatchKey;
use crate::models::library::{MediaFileId, MovieId, SeriesId};
use crate::text::same_text;

verus! {

/// A row that names a batch.
#[derive(Debug)]
pub struct BatchKeyRow {
    pub kind: Option<String>,
    pub series_id: Option<u128>,
    pub season: Option<i16>,
    pub movie_id: Option<u128>,
}

/// The batch that a row names: a season where its kind says so, and a movie
/// otherwise. There is none where the columns of that kind are empty.
pub open spec fn key_of_row(row: BatchKeyRow) -> Option<BatchKey> {
    if crate::text::text_of(row.kind) == Some("season"@) {
        match (row.series_id, row.season) {
            (Some(id), Some(season)) => Some(
                BatchKey::Season { series_id: SeriesId(id), season },
            ),
            _ => None,
        }
    } else {
        match row.movie_id {
            Some(id) => Some(BatchKey::Movie { movie_id: MovieId(id) }),
            None => None,
        }
    }
}

/// The batch that a row names.
pub fn batch_key(row: &BatchKeyRow) -> (r: Option<BatchKey>)
    ensures
        r == key_of_row(*row),
{
    let is_season = match &row.kind {
        Some(kind) => same_text(kind.as_str(), "season"),
        None => false,
    };
    if is_season {
        match (row.series_id, row.season) {
            (Some(id), Some(season)) => Some(BatchKey::Season { series_id: SeriesId(id), season }),
            _ => None,
        }
    } else {
        match row.movie_id {
            Some(id) => Some(BatchKey::Movie { movie_id: MovieId(id) }),
            None => None,
        }
    }
}

/// A row that sums up a batch.
#[derive(Debug)]
pub struct BatchSums {
    pub title: String,
    pub rating: Option<Binary32>,
    pub file_count: Option<i64>,
    pub total_size_bytes: Option<i64>,
    pub saved_bytes: Option<i64>,
}

/// What is told of a batch when it is put up for approval.
#[derive(Debug)]
pub struct BatchApprovalInfo {
    pub title: String,
    pub tmdb_rating: Option<Binary32>,
    pub file_count: i64,
    pub total_size_bytes: i64,
    pub total_space_saved_bytes: i64,
}

/// The title of a batch: a season's names the series and the season.
pub open spec fn batch_title(key: BatchKey, title: Seq<char>) -> Seq<char> {
    match key {
        BatchKey::Season { season, .. } => title + " — Saison "@ + crate::decimal::signed_digits(
            season as int,
        ),
        BatchKey::Movie { .. } => title,
    }
}

/// A sum, where none stands for nothing to sum up.
pub open spec fn sum_of(n: Option<i64>) -> i64 {
    match n {
        Some(x) => x,
        None => 0,
    }
}

/// What is told of a batch.
pub fn batch_request_info(key: &BatchKey, sums: BatchSums) -> (r: BatchApprovalInfo)
    ensures
        r.title@ == batch_title(*key, sums.title@),
        r.tmdb_rating == sums.rating,
        r.file_count == sum_of(sums.file_count),
        r.total_size_bytes == sum_of(sums.total_size_bytes),
        r.total_space_saved_bytes == sum_of(sums.saved_bytes),
{
    let title = match key {
        BatchKey::Season { season, .. } => {
            let n = signed_text(*season as i64);
            sums.title.concat(" — Saison ").concat(n.as_str())
        },
        BatchKey::Movie { .. } => sums.title,
    };
    BatchApprovalInfo {
        title,
        tmdb_rating: sums.rating,
        file_count: sums.file_count.unwrap_or(0),
        total_size_bytes: sums.total_size_bytes.unwrap_or(0),
        total_space_saved_bytes: sums.saved_bytes.unwrap_or(0),
    }
}

/// What becomes of a batch's transaction once its files were moved.
#[derive(Debug)]
pub enum BatchCommit {
    /// No file was moved; nothing is recorded.
    Rollback,
    /// The event is recorded for these files.
    Record(Vec<MediaFileId>),
}

/// What becomes of a batch's transaction, given the files that were moved.
pub fn transition_batch(moved: Vec<MediaFileId>) -> (r: BatchCommit)
    ensures
        r == (if moved@.len() == 0 {
            BatchCommit::Rollback
        } else {
            BatchCommit::Record(moved)
        }),
{
    if moved.len() == 0 {
        BatchCommit::Rollback
    } else {
        BatchCommit::Record(moved)
    }
}

/// The batch that a row names: a row of the kind `season` names the season of
/// its series, and any other row its movie; without these there is none.
pub proof fn law_batch_of_a_row(row: BatchKeyRow, r: Option<BatchKey>)
    requires
        call_ensures(batch_key, (&row,), r),
    ensures
        ({
            let season = row.kind is Some && row.kind->0@ == "season"@;
            &&& r is Some <==> (season && row.series_id is Some && row.season is Some) || (!season
                && row.movie_id is Some)
            &&& season && r is Some ==> r == Some(
                BatchKey::Season { series_id: SeriesId(row.series_id->0), season: row.season->0 },
            )
            &&& !season && r is Some ==> r == Some(
                BatchKey::Movie { movie_id: MovieId(row.movie_id->0) },
            )
        }),
{
}

/// What is told of a batch: its own sums, where a missing one counts as 0, its
/// rating, and its title, behind which the season's number stands for a season.
pub proof fn law_what_is_told_of_a_batch(
    key: BatchKey,
    sums: BatchSums,
    r: BatchApprovalInfo,
    n: i64,
    number: String,
)
    requires
        call_ensures(batch_request_info, (&key, sums), r),
        call_ensures(signed_text, (n,), number),
        key matches BatchKey::Season { season, .. } ==> n == season,
    ensures
        r.tmdb_rating == sums.rating,
        r.file_count == (if sums.file_count is Some {
            sums.file_count->0
        } else {
            0
        }),
        r.total_size_bytes == (if sums.total_size_bytes is Some {
            sums.total_size_bytes->0
        } else {
            0
        }),
        r.total_space_saved_bytes == (if sums.saved_bytes is Some {
            sums.saved_bytes->0
        } else {
            0
        }),
        key is Movie ==> r.title@ == sums.title@,
        key is Season ==> r.title@ == sums.title@ + " — Saison "@ + number@,
{
}

/// An event is recorded for exactly the files that were moved, and nothing is
/// where none was.
pub proof fn law_moved_files_are_recorded(moved: Vec<MediaFileId>, r: BatchCommit)
    requires
        call_ensures(transition_batch, (moved,), r),
    ensures
        r is Rollback <==> moved@.len() == 0,
        r matches BatchCommit::Record(ids) ==> ids@ == moved@,
{
}

} // verus!
