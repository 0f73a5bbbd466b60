//! Finding the stored item that a draft describes, or storing a new one.
use vstd::prelude::*;
use vstd::string::*;

use crate::binary::Binary32;
use crate::models::common::{Rating, TmdbId};
use crate::models::drafts::{EpisodeDraft, MovieDraft, Provider, SeriesDraft};
use crate::models::event::MediaEvent;
use crate::models::library::{EpisodeId, MovieId, SeriesId};

verus! {

/// How far a search has come.
#[derive(Clone, Copy, Debug, PartialEq, Eq, Structural)]
pub enum SearchState {
    /// Is there an item with that identifier in The Movie Database?
    ByTmdb(TmdbId),
    /// The provider's reference is to be added to an item that was found.
    AddingRef(u128),
    /// Is there an item that the provider's reference leads to?
    ByRef,
    /// A new item is to be stored.
    Inserting,
    /// The provider's reference is to be added to the new item.
    Linking,
    Found(u128),
}

/// An item that is to be stored, as its draft describes it.
#[derive(Debug)]
pub struct NewItem {
    pub id: u128,
    pub title: String,
    pub tmdb_id: Option<TmdbId>,
    pub tvdb_id: Option<i32>,
    pub rating: Option<Rating>,
}

/// What is to be done next.
#[derive(Debug)]
pub enum SearchStep {
    SelectByTmdb(TmdbId),
    SelectByRef,
    InsertItem(NewItem),
    /// Whether a reference that is there already is left alone.
    InsertRef { id: u128, keep_existing: bool },
    Done(u128),
}

/// What is stored of an item.
pub struct ItemView {
    pub title: Seq<char>,
    pub tmdb: Option<int>,
    pub tvdb: Option<i32>,
    pub rating: Option<Binary32>,
}

impl NewItem {
    /// What is stored of the item under its identifier.
    pub open spec fn contents(self) -> ItemView {
        ItemView {
            title: self.title@,
            tmdb: crate::providers::tmdb_value(self.tmdb_id),
            tvdb: self.tvdb_id,
            rating: crate::providers::rating_value(self.rating),
        }
    }
}

/// What is to be done next, with an item by what is stored of it.
pub enum StepView {
    SelectByTmdb(TmdbId),
    SelectByRef,
    InsertItem { id: u128, item: ItemView },
    InsertRef { id: u128, keep_existing: bool },
    Done(u128),
}

impl View for SearchStep {
    type V = StepView;

    open spec fn view(&self) -> StepView {
        match *self {
            SearchStep::SelectByTmdb(id) => StepView::SelectByTmdb(id),
            SearchStep::SelectByRef => StepView::SelectByRef,
            SearchStep::InsertItem(item) => StepView::InsertItem {
                id: item.id,
                item: item.contents(),
            },
            SearchStep::InsertRef { id, keep_existing } => StepView::InsertRef {
                id,
                keep_existing,
            },
            SearchStep::Done(id) => StepView::Done(id),
        }
    }
}

/// What was done.
#[derive(Clone, Copy, Debug, PartialEq, Eq, Structural)]
pub enum SearchEvent {
    Selected(Option<u128>),
    Written,
}

/// A search for the item that a draft describes.
#[derive(Debug)]
pub struct ItemSearch {
    pub title: String,
    pub tmdb_id: Option<TmdbId>,
    pub tvdb_id: Option<i32>,
    pub rating: Option<Rating>,
    pub provider: Provider,
    pub external_id: String,
    /// The identifier of the item that is stored where none is found.
    pub fresh: u128,
    pub state: SearchState,
}

/// What is searched for: an item, and the provider's reference to it.
pub struct Wanted {
    pub title: Seq<char>,
    pub tmdb_id: Option<TmdbId>,
    pub tvdb_id: Option<i32>,
    pub rating: Option<Binary32>,
    pub provider: Provider,
    pub external_id: Seq<char>,
}

impl Wanted {
    /// What is stored of the item where it is not found.
    pub open spec fn item(self) -> ItemView {
        ItemView {
            title: self.title,
            tmdb: crate::providers::tmdb_value(self.tmdb_id),
            tvdb: self.tvdb_id,
            rating: self.rating,
        }
    }

    /// The provider's reference.
    pub open spec fn reference(self) -> (Provider, Seq<char>) {
        (self.provider, self.external_id)
    }
}

/// What a movie's draft describes.
pub open spec fn wanted_movie(draft: MovieDraft) -> Wanted {
    Wanted {
        title: draft.title@,
        tmdb_id: draft.tmdb_id,
        tvdb_id: None,
        rating: crate::providers::rating_value(draft.rating),
        provider: draft.provider,
        external_id: draft.jellyfin_id@,
    }
}

/// What a series' draft describes.
pub open spec fn wanted_series(draft: SeriesDraft) -> Wanted {
    Wanted {
        title: draft.title@,
        tmdb_id: draft.tmdb_id,
        tvdb_id: draft.tvdb_id,
        rating: crate::providers::rating_value(draft.rating),
        provider: draft.provider,
        external_id: draft.jellyfin_id@,
    }
}

/// Where a search begins: with the identifier in The Movie Database, where
/// the draft has one.
pub open spec fn search_start(w: Wanted) -> SearchState {
    match w.tmdb_id {
        Some(id) => SearchState::ByTmdb(id),
        None => SearchState::ByRef,
    }
}

/// How a search goes on. What was not asked for changes nothing.
pub open spec fn search_next(state: SearchState, fresh: u128, event: SearchEvent) -> SearchState {
    match (state, event) {
        (SearchState::ByTmdb(_), SearchEvent::Selected(Some(id))) => SearchState::AddingRef(id),
        (SearchState::ByTmdb(_), SearchEvent::Selected(None)) => SearchState::ByRef,
        (SearchState::AddingRef(id), SearchEvent::Written) => SearchState::Found(id),
        (SearchState::ByRef, SearchEvent::Selected(Some(id))) => SearchState::Found(id),
        (SearchState::ByRef, SearchEvent::Selected(None)) => SearchState::Inserting,
        (SearchState::Inserting, SearchEvent::Written) => SearchState::Linking,
        (SearchState::Linking, SearchEvent::Written) => SearchState::Found(fresh),
        _ => state,
    }
}

/// What a search asks for.
pub open spec fn search_step(state: SearchState, w: Wanted, fresh: u128) -> StepView {
    match state {
        SearchState::ByTmdb(id) => StepView::SelectByTmdb(id),
        SearchState::AddingRef(id) => StepView::InsertRef { id, keep_existing: true },
        SearchState::ByRef => StepView::SelectByRef,
        SearchState::Inserting => StepView::InsertItem { id: fresh, item: w.item() },
        SearchState::Linking => StepView::InsertRef { id: fresh, keep_existing: false },
        SearchState::Found(id) => StepView::Done(id),
    }
}

/// A search for the movie that a draft describes.
pub fn find_or_create_movie(draft: &MovieDraft) -> (r: ItemSearch)
    ensures
        r.wanted() == wanted_movie(*draft),
        crate::ids::is_version_7(r.fresh),
        r.state == search_start(wanted_movie(*draft)),
{
    ItemSearch {
        title: draft.title.clone(),
        tmdb_id: draft.tmdb_id,
        tvdb_id: None,
        rating: draft.rating,
        provider: draft.provider,
        external_id: draft.jellyfin_id.clone(),
        fresh: MovieId::new().as_uuid(),
        state: first_state(draft.tmdb_id),
    }
}

/// A search for the series that a draft describes.
pub fn find_or_create_series(draft: &SeriesDraft) -> (r: ItemSearch)
    ensures
        r.wanted() == wanted_series(*draft),
        crate::ids::is_version_7(r.fresh),
        r.state == search_start(wanted_series(*draft)),
{
    ItemSearch {
        title: draft.title.clone(),
        tmdb_id: draft.tmdb_id,
        tvdb_id: draft.tvdb_id,
        rating: draft.rating,
        provider: draft.provider,
        external_id: draft.jellyfin_id.clone(),
        fresh: SeriesId::new().as_uuid(),
        state: first_state(draft.tmdb_id),
    }
}

/// Where a search begins.
fn first_state(tmdb_id: Option<TmdbId>) -> (r: SearchState)
    ensures
        r == (match tmdb_id {
            Some(id) => SearchState::ByTmdb(id),
            None => SearchState::ByRef,
        }),
{
    match tmdb_id {
        Some(id) => SearchState::ByTmdb(id),
        None => SearchState::ByRef,
    }
}

impl ItemSearch {
    /// What is searched for.
    pub open spec fn wanted(self) -> Wanted {
        Wanted {
            title: self.title@,
            tmdb_id: self.tmdb_id,
            tvdb_id: self.tvdb_id,
            rating: crate::providers::rating_value(self.rating),
            provider: self.provider,
            external_id: self.external_id@,
        }
    }

    /// What is to be done next.
    pub fn step(&self) -> (r: SearchStep)
        ensures
            r@ == search_step(self.state, self.wanted(), self.fresh),
    {
        match self.state {
            SearchState::ByTmdb(id) => SearchStep::SelectByTmdb(id),
            SearchState::AddingRef(id) => SearchStep::InsertRef { id, keep_existing: true },
            SearchState::ByRef => SearchStep::SelectByRef,
            SearchState::Inserting => SearchStep::InsertItem(
                NewItem {
                    id: self.fresh,
                    title: self.title.clone(),
                    tmdb_id: self.tmdb_id,
                    tvdb_id: self.tvdb_id,
                    rating: self.rating,
                },
            ),
            SearchState::Linking => SearchStep::InsertRef { id: self.fresh, keep_existing: false },
            SearchState::Found(id) => SearchStep::Done(id),
        }
    }

    /// Takes what was done.
    pub fn advance(&mut self, event: SearchEvent)
        ensures
            final(self).state == search_next(old(self).state, old(self).fresh, event),
            final(self).wanted() == old(self).wanted(),
            final(self).fresh == old(self).fresh,
    {
        let state = match (self.state, event) {
            (SearchState::ByTmdb(_), SearchEvent::Selected(Some(id))) => SearchState::AddingRef(
                id,
            ),
            (SearchState::ByTmdb(_), SearchEvent::Selected(None)) => SearchState::ByRef,
            (SearchState::AddingRef(id), SearchEvent::Written) => SearchState::Found(id),
            (SearchState::ByRef, SearchEvent::Selected(Some(id))) => SearchState::Found(id),
            (SearchState::ByRef, SearchEvent::Selected(None)) => SearchState::Inserting,
            (SearchState::Inserting, SearchEvent::Written) => SearchState::Linking,
            (SearchState::Linking, SearchEvent::Written) => SearchState::Found(self.fresh),
            (state, _) => state,
        };
        self.state = state;
    }
}

/// The stored items, and the items that the providers' references lead to.
pub struct Catalog {
    pub items: Map<u128, ItemView>,
    pub refs: Map<(Provider, Seq<char>), u128>,
}

/// An item with that identifier in The Movie Database.
pub open spec fn item_with_tmdb(c: Catalog, tmdb: int) -> Option<u128> {
    if exists|id: u128| #[trigger] c.items.contains_key(id) && c.items[id].tmdb == Some(tmdb) {
        Some(
            choose|id: u128| #[trigger] c.items.contains_key(id) && c.items[id].tmdb == Some(tmdb),
        )
    } else {
        None
    }
}

/// The item that a reference leads to.
pub open spec fn item_with_ref(c: Catalog, reference: (Provider, Seq<char>)) -> Option<u128> {
    if c.refs.contains_key(reference) {
        Some(c.refs[reference])
    } else {
        None
    }
}

/// What a catalog answers to a step of a search.
pub open spec fn catalog_answer(c: Catalog, w: Wanted, step: StepView) -> SearchEvent {
    match step {
        StepView::SelectByTmdb(id) => SearchEvent::Selected(item_with_tmdb(c, id.value())),
        StepView::SelectByRef => SearchEvent::Selected(item_with_ref(c, w.reference())),
        _ => SearchEvent::Written,
    }
}

/// A catalog after a step of a search.
pub open spec fn catalog_after(c: Catalog, w: Wanted, step: StepView) -> Catalog {
    match step {
        StepView::InsertItem { id, item } => Catalog { items: c.items.insert(id, item), ..c },
        StepView::InsertRef { id, keep_existing } => if keep_existing && c.refs.contains_key(
            w.reference(),
        ) {
            c
        } else {
            Catalog { refs: c.refs.insert(w.reference(), id), ..c }
        },
        _ => c,
    }
}

/// How many steps a search still takes at most.
pub open spec fn search_steps_left(state: SearchState) -> nat {
    match state {
        SearchState::ByTmdb(_) => 4,
        SearchState::ByRef => 3,
        SearchState::Inserting => 2,
        SearchState::Linking => 1,
        SearchState::AddingRef(_) => 1,
        SearchState::Found(_) => 0,
    }
}

/// The item that a search ends with, and the catalog that it leaves.
pub open spec fn searched(c: Catalog, state: SearchState, w: Wanted, fresh: u128) -> (
    u128,
    Catalog,
)
    decreases search_steps_left(state),
{
    match state {
        SearchState::Found(id) => (id, c),
        _ => {
            let step = search_step(state, w, fresh);
            searched(
                catalog_after(c, w, step),
                search_next(state, fresh, catalog_answer(c, w, step)),
                w,
                fresh,
            )
        },
    }
}

/// The item that a catalog holds of what is searched for: the one with its
/// identifier in The Movie Database, or else the one that the provider's
/// reference leads to.
pub open spec fn known_item(c: Catalog, w: Wanted) -> Option<u128> {
    match w.tmdb_id {
        Some(t) => match item_with_tmdb(c, t.value()) {
            Some(id) => Some(id),
            None => item_with_ref(c, w.reference()),
        },
        None => item_with_ref(c, w.reference()),
    }
}

/// An item that is known is found, and stays as it is; it gets the provider's
/// reference where that leads nowhere yet. One that is not known is stored as
/// its draft describes it, with the provider's reference, and nothing else is
/// changed.
pub proof fn law_search_finds_or_stores(c: Catalog, w: Wanted, fresh: u128)
    ensures
        ({
            let (id, after) = searched(c, search_start(w), w, fresh);
            match known_item(c, w) {
                Some(known) => {
                    &&& id == known
                    &&& after.items == c.items
                    &&& after.refs == (if c.refs.contains_key(w.reference()) {
                        c.refs
                    } else {
                        c.refs.insert(w.reference(), known)
                    })
                },
                None => {
                    &&& id == fresh
                    &&& after.items == c.items.insert(fresh, w.item())
                    &&& after.refs == c.refs.insert(w.reference(), fresh)
                },
            }
        }),
{
    reveal_with_fuel(searched, 6);
}

/// A draft that is stored twice is stored once: the second search finds the
/// item of the first and changes nothing, whatever new identifier it was
/// given.
pub proof fn law_search_is_idempotent(c: Catalog, w: Wanted, fresh: u128, fresh_again: u128)
    requires
        !c.items.contains_key(fresh),
    ensures
        ({
            let (id, after) = searched(c, search_start(w), w, fresh);
            searched(after, search_start(w), w, fresh_again) == (id, after)
        }),
{
    reveal_with_fuel(searched, 6);
    let (id, after) = searched(c, search_start(w), w, fresh);
    law_search_finds_or_stores(c, w, fresh);
    if let Some(t) = w.tmdb_id {
        let v = t.value();
        if item_with_tmdb(c, v) is None {
            if !c.refs.contains_key(w.reference()) {
                assert(after.items.contains_key(fresh) && after.items[fresh].tmdb == Some(v));
                let k = choose|k: u128| #[trigger]
                    after.items.contains_key(k) && after.items[k].tmdb == Some(v);
                assert(after.items.contains_key(k) && after.items[k].tmdb == Some(v));
                if k != fresh {
                    assert(c.items.contains_key(k) && c.items[k].tmdb == Some(v));
                }
                assert(item_with_tmdb(after, v) == Some(fresh));
            } else {
                assert(after == c);
            }
        } else {
            assert(after.items == c.items);
            assert(item_with_tmdb(after, v) == item_with_tmdb(c, v));
        }
    }
}

/// A search leaves every item, with its title and its rating, and every
/// reference that was there as it was.
pub proof fn law_search_keeps_what_is_there(
    c: Catalog,
    w: Wanted,
    fresh: u128,
    other: u128,
    reference: (Provider, Seq<char>),
)
    requires
        !c.items.contains_key(fresh),
    ensures
        ({
            let (id, after) = searched(c, search_start(w), w, fresh);
            &&& c.items.contains_key(other) ==> after.items.contains_key(other)
                && after.items[other] == c.items[other]
            &&& c.refs.contains_key(reference) ==> after.refs.contains_key(reference)
                && after.refs[reference] == c.refs[reference]
        }),
{
    law_search_finds_or_stores(c, w, fresh);
    reveal_with_fuel(searched, 6);
}

/// The season and the episode of a draft, as they are stored and looked for.
pub fn episode_key(draft: &EpisodeDraft) -> (r: (SeriesId, i16, i16))
    ensures
        r.0 == draft.series_id,
        r.1 == crate::models::common::low_16_bits(draft.season_number.value()),
        r.2 == crate::models::common::low_16_bits(draft.episode_number.value()),
{
    (draft.series_id, draft.season_number.as_i16(), draft.episode_number.as_i16())
}

/// An episode that is to be stored.
#[derive(Debug)]
pub struct NewEpisode {
    pub id: EpisodeId,
    pub series_id: SeriesId,
    pub season_number: i16,
    pub episode_number: i16,
    pub title: String,
    pub tmdb_id: Option<TmdbId>,
    pub rating: Option<Rating>,
}

/// Whether an episode is the one that a draft describes.
pub open spec fn is_new_episode(e: NewEpisode, draft: EpisodeDraft) -> bool {
    &&& e.series_id == draft.series_id
    &&& e.season_number == crate::models::common::low_16_bits(draft.season_number.value())
    &&& e.episode_number == crate::models::common::low_16_bits(draft.episode_number.value())
    &&& e.title@ == draft.title@
    &&& e.tmdb_id == draft.tmdb_id
    &&& e.rating == draft.rating
}

/// What is done with an episode after it was looked for.
#[derive(Debug)]
pub enum EpisodeStep {
    Use(EpisodeId),
    Insert(NewEpisode),
}

/// An episode that was found is used as it is; otherwise the one that the
/// draft describes is stored as `fresh`.
pub fn find_or_create_episode(
    draft: &EpisodeDraft,
    found: Option<EpisodeId>,
    fresh: EpisodeId,
) -> (r: EpisodeStep)
    ensures
        match (found, r) {
            (Some(id), EpisodeStep::Use(used)) => used == id,
            (None, EpisodeStep::Insert(e)) => e.id == fresh && is_new_episode(e, *draft),
            _ => false,
        },
{
    match found {
        Some(id) => EpisodeStep::Use(id),
        None => {
            let (series_id, season_number, episode_number) = episode_key(draft);
            EpisodeStep::Insert(
                NewEpisode {
                    id: fresh,
                    series_id,
                    season_number,
                    episode_number,
                    title: draft.title.clone(),
                    tmdb_id: draft.tmdb_id,
                    rating: draft.rating,
                },
            )
        },
    }
}

/// The event that is recorded for a file that a provider listed: only a file
/// that was not stored before was discovered.
pub fn upsert_event(was_inserted: bool, provider: Provider) -> (r: Option<MediaEvent>)
    ensures
        match r {
            Some(e) => was_inserted && e@ == (crate::models::event::EventView::Discovered {
                source: provider.name(),
            }),
            None => !was_inserted,
        },
{
    if was_inserted {
        Some(MediaEvent::Discovered { source: provider.as_str().to_owned() })
    } else {
        None
    }
}

/// What a search for a draft's item begins with: everything that the draft
/// states, a new identifier, and the question for its identifier in The Movie
/// Database where it has one, and for the provider's reference otherwise. Only
/// a series has an identifier in TheTVDB.
pub proof fn law_searches_begin_with_the_draft(
    movie: MovieDraft,
    series: SeriesDraft,
    m: ItemSearch,
    s: ItemSearch,
)
    requires
        call_ensures(find_or_create_movie, (&movie,), m),
        call_ensures(find_or_create_series, (&series,), s),
    ensures
        m.title@ == movie.title@ && m.tmdb_id == movie.tmdb_id && m.tvdb_id is None
            && m.external_id@ == movie.jellyfin_id@,
        s.title@ == series.title@ && s.tmdb_id == series.tmdb_id && s.tvdb_id == series.tvdb_id
            && s.external_id@ == series.jellyfin_id@,
        m.rating is Some <==> movie.rating is Some,
        m.rating is Some ==> m.rating->0.value() == movie.rating->0.value(),
        s.rating is Some <==> series.rating is Some,
        s.rating is Some ==> s.rating->0.value() == series.rating->0.value(),
        movie.tmdb_id matches Some(t) ==> m.state == SearchState::ByTmdb(t),
        movie.tmdb_id is None ==> m.state is ByRef,
        series.tmdb_id matches Some(t) ==> s.state == SearchState::ByTmdb(t),
        series.tmdb_id is None ==> s.state is ByRef,
{
    assert(m.wanted() == wanted_movie(movie));
    assert(s.wanted() == wanted_series(series));
    assert(m.wanted().title == m.title@ && m.wanted().external_id == m.external_id@);
    assert(s.wanted().title == s.title@ && s.wanted().external_id == s.external_id@);
    assert(m.wanted().rating == wanted_movie(movie).rating);
    assert(s.wanted().rating == wanted_series(series).rating);
}

/// What a search asks for: an item by its identifier, an item by its
/// reference, to store the item that is searched for under the new identifier,
/// or to store the reference: to an item that was found, where one that is
/// there is left alone, or to the new one.
pub proof fn law_what_a_search_asks(search: ItemSearch, r: SearchStep)
    requires
        call_ensures(ItemSearch::step, (&search,), r),
    ensures
        search.state matches SearchState::ByTmdb(t) ==> (r matches SearchStep::SelectByTmdb(x) && x
            == t),
        search.state is ByRef <==> r is SelectByRef,
        search.state matches SearchState::AddingRef(k) ==> (r matches SearchStep::InsertRef {
            id,
            keep_existing,
        } && id == k && keep_existing),
        search.state is Linking ==> (r matches SearchStep::InsertRef { id, keep_existing } && id
            == search.fresh && !keep_existing),
        search.state matches SearchState::Found(k) ==> (r matches SearchStep::Done(x) && x == k),
        search.state is Inserting ==> (r matches SearchStep::InsertItem(item) && item.id
            == search.fresh && item.title@ == search.title@ && crate::providers::tmdb_value(
            item.tmdb_id,
        ) == crate::providers::tmdb_value(search.tmdb_id) && item.tvdb_id == search.tvdb_id
            && crate::providers::rating_value(item.rating) == crate::providers::rating_value(
            search.rating,
        )),
{
    assert(r@ == search_step(search.state, search.wanted(), search.fresh));
    if search.state is Inserting {
        let item = search.wanted().item();
        assert(r@ == (StepView::InsertItem { id: search.fresh, item }));
        assert(r->InsertItem_0.contents() == item);
        assert(r->InsertItem_0.contents().title == item.title);
    }
}

/// How a search goes on: an item that was found by its identifier gets the
/// reference and is the one; without such an item the reference is followed;
/// an item that the reference leads to is the one; and without that a new item
/// is stored, then its reference, and it is the one. What is searched for
/// stays, and what was not asked for changes nothing.
pub proof fn law_how_a_search_goes_on(search: &mut ItemSearch, event: SearchEvent, done: ())
    requires
        call_ensures(ItemSearch::advance, (search, event), done),
    ensures
        final(search).fresh == old(search).fresh && final(search).tmdb_id == old(search).tmdb_id
            && final(search).tvdb_id == old(search).tvdb_id && final(search).title@ == old(
            search).title@ && final(search).external_id@ == old(search).external_id@
            && crate::providers::rating_value(final(search).rating) == crate::providers::rating_value(
            old(search).rating,
        ) && final(search).provider == old(search).provider,
        old(search).state is ByTmdb && event is Selected ==> match event->Selected_0 {
            Some(id) => final(search).state == SearchState::AddingRef(id),
            None => final(search).state is ByRef,
        },
        old(search).state is ByRef && event is Selected ==> match event->Selected_0 {
            Some(id) => final(search).state == SearchState::Found(id),
            None => final(search).state is Inserting,
        },
        old(search).state is AddingRef && event is Written ==> final(search).state
            == SearchState::Found(old(search).state->AddingRef_0),
        old(search).state is Inserting && event is Written ==> final(search).state is Linking,
        old(search).state is Linking && event is Written ==> final(search).state
            == SearchState::Found(old(search).fresh),
        old(search).state is Found || ((old(search).state is ByTmdb || old(search).state is ByRef)
            && event is Written) || (!(old(search).state is ByTmdb) && !(old(search).state is ByRef)
            && event is Selected) ==> final(search).state == old(search).state,
{
    assert(final(search).wanted() == old(search).wanted());
    assert(final(search).wanted().rating == old(search).wanted().rating);
    assert(final(search).wanted().title == final(search).title@);
    assert(old(search).wanted().title == old(search).title@);
    assert(final(search).wanted().external_id == final(search).external_id@);
    assert(old(search).wanted().external_id == old(search).external_id@);
}

/// An episode that was found is used, and is not stored again. One that was
/// not is stored under the new identifier as its draft describes it, with its
/// season and its number as they are looked for.
pub proof fn law_episodes_are_found_or_stored(
    draft: EpisodeDraft,
    id: EpisodeId,
    fresh: EpisodeId,
    key: (SeriesId, i16, i16),
    known: EpisodeStep,
    new: EpisodeStep,
    season: i16,
    number: i16,
)
    requires
        call_ensures(find_or_create_episode, (&draft, Some(id), fresh), known),
        call_ensures(find_or_create_episode, (&draft, None, fresh), new),
        call_ensures(episode_key, (&draft,), key),
        call_ensures(
            crate::models::common::SeasonNumber::as_i16,
            (&draft.season_number,),
            season,
        ),
        call_ensures(
            crate::models::common::EpisodeNumber::as_i16,
            (&draft.episode_number,),
            number,
        ),
    ensures
        known == EpisodeStep::Use(id),
        key == (draft.series_id, season, number),
        new matches EpisodeStep::Insert(e) && e.id == fresh && e.series_id == draft.series_id
            && e.season_number == season && e.episode_number == number && e.title@ == draft.title@
            && e.tmdb_id == draft.tmdb_id && e.rating == draft.rating,
{
}

/// A file is discovered when it is stored for the first time, by the provider
/// that listed it, and only then.
pub proof fn law_new_files_are_discovered(
    provider: Provider,
    new: Option<MediaEvent>,
    known: Option<MediaEvent>,
)
    requires
        call_ensures(upsert_event, (true, provider), new),
        call_ensures(upsert_event, (false, provider), known),
    ensures
        known is None,
        new matches Some(MediaEvent::Discovered { source }) && source@ == "jellyfin"@,
{
}

} // verus!
