//! Bringing the library up to date with what the provider lists.
use vstd::prelude::*;
use vstd::string::*;

use crate::models::drafts::{EpisodeDraft, MovieDraft, SeriesDraft};
use crate::models::library::SeriesId;
use crate::providers::{
    map_to_episode_draft, map_to_movie_draft, map_to_series_draft, JellyfinItem, ParentId,
    ProviderError,
};
use crate::text_map::TextMap;

verus! {

/// How many drafts are stored in one transaction.
pub const BATCH_SIZE: usize = 500;

/// The drafts of listed series.
pub fn sync_series(raw: &Vec<JellyfinItem>) -> (r: Vec<SeriesDraft>)
    ensures
        r@.len() == raw@.len(),
        forall|i: int|
            0 <= i < raw@.len() ==> crate::providers::is_series_draft(#[trigger] r@[i], raw@[i]),
{
    let mut drafts: Vec<SeriesDraft> = Vec::new();
    let mut i: usize = 0;
    while i < raw.len()
        invariant
            i <= raw@.len(),
            drafts@.len() == i,
            forall|j: int|
                0 <= j < i ==> crate::providers::is_series_draft(#[trigger] drafts@[j], raw@[j]),
        decreases raw@.len() - i,
    {
        drafts.push(map_to_series_draft(&raw[i]));
        i = i + 1;
    }
    drafts
}

/// The series that an episode can be stored under: one that is known, where
/// nothing is wrong with the episode.
pub open spec fn series_for(
    item: JellyfinItem,
    index: Map<Seq<char>, SeriesId>,
) -> Option<SeriesId> {
    match item.series_id {
        Some(parent) => if index.contains_key(parent@) && crate::providers::episode_fault(item)
            is None {
            Some(index[parent@])
        } else {
            None
        },
        None => None,
    }
}

/// Whether drafts are those of the listed episodes that can be stored, in
/// order; the others are passed over.
pub open spec fn are_episode_drafts(
    drafts: Seq<EpisodeDraft>,
    raw: Seq<JellyfinItem>,
    index: Map<Seq<char>, SeriesId>,
) -> bool
    decreases raw.len(),
{
    if raw.len() == 0 {
        drafts.len() == 0
    } else {
        match series_for(raw.last(), index) {
            Some(series_id) => drafts.len() > 0 && crate::providers::is_episode_draft(
                drafts.last(),
                raw.last(),
                series_id,
            ) && are_episode_drafts(drafts.drop_last(), raw.drop_last(), index),
            None => are_episode_drafts(drafts, raw.drop_last(), index),
        }
    }
}

/// The drafts of listed episodes, given the stored series by the provider's
/// identifiers. One without a series, of a series that is
/// not known, or with something wrong is passed over.
pub fn sync_episodes(raw: &Vec<JellyfinItem>, series_map: &TextMap<SeriesId>) -> (r: Vec<EpisodeDraft>)
    ensures
        are_episode_drafts(r@, raw@, series_map@),
{
    let mut drafts: Vec<EpisodeDraft> = Vec::new();
    let mut i: usize = 0;
    assert(raw@.take(0) =~= Seq::<JellyfinItem>::empty());
    while i < raw.len()
        invariant
            i <= raw@.len(),
            are_episode_drafts(drafts@, raw@.take(i as int), series_map@),
        decreases raw@.len() - i,
    {
        let item = &raw[i];
        proof {
            assert(raw@.take(i + 1).drop_last() =~= raw@.take(i as int));
            assert(raw@.take(i + 1).last() == raw@[i as int]);
        }
        if let Some(parent) = item.parent_id() {
            if let Some(series_id) = series_map.get(parent) {
                if let Ok(draft) = map_to_episode_draft(item, *series_id) {
                    let ghost before = drafts@;
                    drafts.push(draft);
                    assert(drafts@.drop_last() =~= before);
                }
            }
        }
        i = i + 1;
    }
    assert(raw@.take(raw@.len() as int) =~= raw@);
    drafts
}

/// The drafts of listed movies; one with something wrong spoils all of them.
pub fn sync_movies(raw: &Vec<JellyfinItem>) -> (r: Result<Vec<MovieDraft>, ProviderError>)
    ensures
        match r {
            Ok(drafts) => drafts@.len() == raw@.len() && forall|i: int|
                #![trigger raw@[i]]
                0 <= i < raw@.len() ==> crate::providers::path_fault(raw@[i]) is None
                    && crate::providers::is_movie_draft(drafts@[i], raw@[i]),
            Err(e) => exists|i: int|
                #![trigger raw@[i]]
                0 <= i < raw@.len() && crate::providers::path_fault(raw@[i]) == Some(e) && forall|
                    j: int,
                |
                    0 <= j < i ==> crate::providers::path_fault(#[trigger] raw@[j]) is None,
        },
{
    let mut drafts: Vec<MovieDraft> = Vec::new();
    let mut i: usize = 0;
    while i < raw.len()
        invariant
            i <= raw@.len(),
            drafts@.len() == i,
            forall|j: int|
                #![trigger raw@[j]]
                0 <= j < i ==> crate::providers::path_fault(raw@[j]) is None
                    && crate::providers::is_movie_draft(drafts@[j], raw@[j]),
        decreases raw@.len() - i,
    {
        match map_to_movie_draft(&raw[i]) {
            Ok(draft) => {
                drafts.push(draft);
            },
            Err(e) => {
                assert(crate::providers::path_fault(raw@[i as int]) == Some(e));
                return Err(e);
            },
        }
        i = i + 1;
    }
    Ok(drafts)
}

/// Where the transactions begin and end when `len` drafts are stored in
/// batches of `size`: one after the other, all of them full but the last.
pub fn batches(len: usize, size: usize) -> (r: Vec<(usize, usize)>)
    requires
        size > 0,
    ensures
        forall|i: int|
            0 <= i < r@.len() ==> (#[trigger] r@[i]).0 == i * size && r@[i].0 < r@[i].1 && r@[i].1
                == (if (i + 1) * size <= len {
                (i + 1) * size
            } else {
                len as int
            }),
        r@.len() == 0 <==> len == 0,
        r@.len() > 0 ==> r@.last().1 == len,
{
    let mut r: Vec<(usize, usize)> = Vec::new();
    let mut start: usize = 0;
    assert(0 * size == 0) by (nonlinear_arith);
    while start < len
        invariant
            size > 0,
            start <= len,
            start < len ==> start == r@.len() * size,
            r@.len() == 0 <==> start == 0,
            r@.len() > 0 ==> r@.last().1 == start,
            forall|i: int|
                0 <= i < r@.len() ==> (#[trigger] r@[i]).0 == i * size && r@[i].0 < r@[i].1
                    && r@[i].1 == (if (i + 1) * size <= len {
                    (i + 1) * size
                } else {
                    len as int
                }),
        decreases len - start,
    {
        let ghost n = r@.len();
        let end: usize = if len - start <= size {
            len
        } else {
            start + size
        };
        assert((n + 1) * size == n * size + size) by (nonlinear_arith);
        r.push((start, end));
        start = end;
    }
    r
}

/// Every listed series is stored, in order, with its own name and identifiers.
pub proof fn law_every_series_is_stored(
    raw: Vec<JellyfinItem>,
    r: Vec<SeriesDraft>,
    i: int,
    alone: SeriesDraft,
)
    requires
        call_ensures(sync_series, (&raw,), r),
        0 <= i < raw@.len(),
        call_ensures(map_to_series_draft, (&raw@[i],), alone),
    ensures
        r@.len() == raw@.len(),
        r@[i].title@ == raw@[i].name@ && r@[i].jellyfin_id@ == raw@[i].id@,
        crate::providers::tmdb_value(r@[i].tmdb_id) == crate::providers::tmdb_value(alone.tmdb_id),
        r@[i].tvdb_id == alone.tvdb_id,
        crate::providers::rating_value(r@[i].rating) == crate::providers::rating_value(
            alone.rating,
        ),
{
    assert(crate::providers::is_series_draft(r@[i], raw@[i]));
}

/// Movies are stored where every one of them has a file with an absolute path,
/// and then each is, in order. Otherwise none is, and what is wrong with the
/// first that has none is told.
pub proof fn law_all_movies_or_none(
    raw: Vec<JellyfinItem>,
    r: Result<Vec<MovieDraft>, ProviderError>,
    i: int,
    alone: Result<MovieDraft, ProviderError>,
)
    requires
        call_ensures(sync_movies, (&raw,), r),
        0 <= i < raw@.len(),
        call_ensures(map_to_movie_draft, (&raw@[i],), alone),
    ensures
        r is Ok <==> (forall|j: int|
            0 <= j < raw@.len() ==> crate::providers::has_file(#[trigger] raw@[j])),
        r matches Ok(drafts) ==> drafts@.len() == raw@.len() && alone is Ok && drafts@[i].title@
            == raw@[i].name@ && drafts@[i].jellyfin_id@ == raw@[i].id@
            && drafts@[i].media_file.path@ == raw@[i].path->0@
            && drafts@[i].media_file.jellyfin_id@ == raw@[i].id@ && crate::providers::tmdb_value(
            drafts@[i].tmdb_id,
        ) == crate::providers::tmdb_value(alone->Ok_0.tmdb_id) && crate::providers::rating_value(
            drafts@[i].rating,
        ) == crate::providers::rating_value(alone->Ok_0.rating),
        !crate::providers::has_file(raw@[i]) && (forall|j: int|
            0 <= j < i ==> crate::providers::has_file(#[trigger] raw@[j])) ==> r == Err::<
            Vec<MovieDraft>,
            ProviderError,
        >(
            match raw@[i].path {
                None => ProviderError::MissingPath,
                Some(p) => ProviderError::InvalidPath(p),
            },
        ),
{
    assert(forall|j: int|
        0 <= j < raw@.len() ==> (crate::providers::has_file(#[trigger] raw@[j])
            <==> crate::providers::path_fault(raw@[j]) is None));
}

/// Whether an episode can be stored: its series is known, it has a file with
/// an absolute path, and its season and number are there and not negative.
pub open spec fn can_be_stored(item: JellyfinItem, index: Map<Seq<char>, SeriesId>) -> bool {
    &&& item.series_id is Some && index.contains_key(item.series_id->0@)
    &&& crate::providers::has_file(item)
    &&& item.parent_index_number is Some && item.parent_index_number->0 >= 0
    &&& item.index_number is Some && item.index_number->0 >= 0
}

/// Whether two drafts are alike in what they say of an episode.
pub open spec fn same_episode(a: EpisodeDraft, b: EpisodeDraft) -> bool {
    &&& a.title@ == b.title@
    &&& a.series_id == b.series_id
    &&& a.season_number.value() == b.season_number.value()
    &&& a.episode_number.value() == b.episode_number.value()
    &&& a.media_file.path@ == b.media_file.path@
    &&& a.media_file.jellyfin_id@ == b.media_file.jellyfin_id@
    &&& crate::providers::tmdb_value(a.tmdb_id) == crate::providers::tmdb_value(b.tmdb_id)
    &&& crate::providers::rating_value(a.rating) == crate::providers::rating_value(b.rating)
}

/// Two lists of drafts of the same episodes are alike.
proof fn lemma_drafts_agree(
    a: Seq<EpisodeDraft>,
    b: Seq<EpisodeDraft>,
    raw: Seq<JellyfinItem>,
    index: Map<Seq<char>, SeriesId>,
)
    requires
        are_episode_drafts(a, raw, index),
        are_episode_drafts(b, raw, index),
    ensures
        a.len() == b.len(),
        forall|i: int| 0 <= i < a.len() ==> same_episode(#[trigger] a[i], b[i]),
    decreases raw.len(),
{
    if raw.len() > 0 {
        match series_for(raw.last(), index) {
            Some(_) => {
                lemma_drafts_agree(a.drop_last(), b.drop_last(), raw.drop_last(), index);
                assert forall|i: int| 0 <= i < a.len() implies same_episode(
                    #[trigger] a[i],
                    b[i],
                ) by {
                    if i < a.len() - 1 {
                        assert(same_episode(a.drop_last()[i], b.drop_last()[i]));
                    } else {
                        assert(a[i] == a.last() && b[i] == b.last());
                    }
                }
            },
            None => {
                lemma_drafts_agree(a, b, raw.drop_last(), index);
            },
        }
    }
}

/// Each listed episode that can be stored is, and no other: one that is listed
/// after others leaves what is stored of those as it is, and adds a draft of
/// its own behind them exactly where it can be stored, under the series that
/// its item names. Of an empty list nothing is stored.
pub proof fn law_storable_episodes_are_stored(
    raw: Vec<JellyfinItem>,
    more: Vec<JellyfinItem>,
    item: JellyfinItem,
    series_map: TextMap<SeriesId>,
    r: Vec<EpisodeDraft>,
    s: Vec<EpisodeDraft>,
    alone: Result<EpisodeDraft, ProviderError>,
    i: int,
)
    requires
        call_ensures(sync_episodes, (&raw, &series_map), r),
        call_ensures(sync_episodes, (&more, &series_map), s),
        more@ == raw@.push(item),
        can_be_stored(item, series_map@) ==> call_ensures(
            map_to_episode_draft,
            (&item, series_map@[item.series_id->0@]),
            alone,
        ),
    ensures
        raw@.len() == 0 ==> r@.len() == 0,
        s@.len() == (if can_be_stored(item, series_map@) {
            r@.len() + 1
        } else {
            r@.len()
        }),
        0 <= i < r@.len() ==> same_episode(s@[i], r@[i]),
        can_be_stored(item, series_map@) ==> alone is Ok && same_episode(s@.last(), alone->Ok_0)
            && s@.last().series_id == series_map@[item.series_id->0@],
{
    let index = series_map@;
    assert(more@.last() == item);
    assert(more@.drop_last() =~= raw@);
    assert(can_be_stored(item, index) <==> series_for(item, index) is Some);
    if can_be_stored(item, index) {
        lemma_drafts_agree(s@.drop_last(), r@, raw@, index);
        if 0 <= i < r@.len() {
            assert(s@[i] == s@.drop_last()[i]);
            assert(same_episode(s@.drop_last()[i], r@[i]));
        }
    } else {
        lemma_drafts_agree(s@, r@, raw@, index);
        if 0 <= i < r@.len() {
            assert(same_episode(s@[i], r@[i]));
        }
    }
}

/// Batches follow one another without a gap from the first draft to the last;
/// none is empty or larger than asked for, and only the last may be smaller.
/// The size that is used is 500.
pub proof fn law_batches_cover_everything(len: usize, size: usize, r: Vec<(usize, usize)>, i: int)
    requires
        size > 0,
        call_ensures(batches, (len, size), r),
    ensures
        BATCH_SIZE == 500,
        r@.len() == 0 <==> len == 0,
        r@.len() > 0 ==> r@[0].0 == 0 && r@.last().1 == len,
        0 <= i < r@.len() ==> 0 < r@[i].1 - r@[i].0 <= size,
        0 <= i < r@.len() - 1 ==> r@[i].1 == r@[i + 1].0 && r@[i].1 - r@[i].0 == size,
{
    assert(0 * size == 0) by (nonlinear_arith);
    if 0 <= i < r@.len() {
        assert((i + 1) * size == i * size + size) by (nonlinear_arith);
        if i < r@.len() - 1 {
            assert(r@[i + 1].0 == (i + 1) * size);
            assert(r@[i + 1].0 < r@[i + 1].1);
            assert(r@[i + 1].1 <= len);
        }
    }
    if r@.len() > 0 {
        assert(r@[0].0 == 0 * size);
    }
}

} // verus!
