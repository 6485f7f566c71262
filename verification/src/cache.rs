//! Metadata cache and filter engine.
//!
//! The cache stores imported tracks in insertion order; each insertion is
//! assigned a fresh, monotonically increasing [`TrackId`]. A filter list is a
//! conjunction of predicates over the optional metadata record of a track;
//! querying the cache yields the matching ids in ascending order.

use vstd::prelude::*;

verus! {

/// Unique identifier for an imported track; assigned in insertion order and
/// never reused.
#[derive(Hash, Eq, PartialEq, Ord, PartialOrd, Clone, Copy, Debug, Structural)]
pub struct TrackId(pub u32);

/// Holds the path to the imported file.
#[derive(Debug)]
pub struct Track(pub String);

/// Per-track tag data; the duration is in milliseconds when known.
#[derive(Debug)]
pub struct Metadata {
    pub duration: Option<u64>,
    pub artist: String,
    pub title: String,
    pub album: String,
    pub genre: String,
    pub year: u16,
}

/// Sequence of track ids representing a custom playlist.
#[derive(Debug)]
pub struct Playlist {
    pub name: String,
    pub tracks: Vec<TrackId>,
}

/// Predicates that filter tracks by exact equality on one metadata field.
#[derive(Debug)]
pub enum MetaFilterPredicate<'a> {
    Artist(&'a str),
    Title(&'a str),
    Album(&'a str),
    Genre(&'a str),
    Year(u16),
}

/// A predicate taken as stated (`Is`) or negated (`Not`).
#[derive(Debug)]
pub enum MetaFilter<'a> {
    Not(MetaFilterPredicate<'a>),
    Is(MetaFilterPredicate<'a>),
}

/// String comparison used by the filter predicates.
fn string_eq_str(s: &String, t: &str) -> (r: bool)
    ensures
        r == (s@ == t@),
{
    *s == t.to_owned()
}

impl<'a> MetaFilterPredicate<'a> {
    /// What the predicate states of a metadata record: equality on the named
    /// field.
    pub open spec fn spec_matches(self, meta: Metadata) -> bool {
        match self {
            MetaFilterPredicate::Artist(artist) => meta.artist@ == artist@,
            MetaFilterPredicate::Title(title) => meta.title@ == title@,
            MetaFilterPredicate::Album(album) => meta.album@ == album@,
            MetaFilterPredicate::Genre(genre) => meta.genre@ == genre@,
            MetaFilterPredicate::Year(year) => meta.year == year,
        }
    }

    /// Decide whether the record's named field equals the predicate's value.
    pub fn matches(&self, meta: &Metadata) -> (r: bool)
        ensures
            r == self.spec_matches(*meta),
    {
        match self {
            MetaFilterPredicate::Artist(artist) => string_eq_str(&meta.artist, artist),
            MetaFilterPredicate::Title(title) => string_eq_str(&meta.title, title),
            MetaFilterPredicate::Album(album) => string_eq_str(&meta.album, album),
            MetaFilterPredicate::Genre(genre) => string_eq_str(&meta.genre, genre),
            MetaFilterPredicate::Year(year) => meta.year == *year,
        }
    }
}

impl<'a> MetaFilter<'a> {
    /// What the filter states of a metadata record.
    pub open spec fn spec_matches(self, meta: Metadata) -> bool {
        match self {
            MetaFilter::Not(pred) => !pred.spec_matches(meta),
            MetaFilter::Is(pred) => pred.spec_matches(meta),
        }
    }

    /// Decide whether the record satisfies the filter.
    pub fn matches(&self, meta: &Metadata) -> (r: bool)
        ensures
            r == self.spec_matches(*meta),
    {
        match self {
            MetaFilter::Not(pred) => !pred.matches(meta),
            MetaFilter::Is(pred) => pred.matches(meta),
        }
    }
}

/// A record satisfies a filter list when it satisfies every filter in it; the
/// empty list is satisfied by every record.
pub open spec fn list_matches(filters: Seq<MetaFilter>, meta: Metadata) -> bool {
    forall|i: int| 0 <= i < filters.len() ==> #[trigger] filters[i].spec_matches(meta)
}

/// The ids a filter list selects out of a sequence of optional metadata
/// records: every index holding a record that satisfies the list, in
/// ascending order. A track without a record never satisfies any list, not
/// even the empty one.
pub open spec fn query_spec(metas: Seq<Option<Metadata>>, filters: Seq<MetaFilter>) -> Seq<
    TrackId,
>
    decreases metas.len(),
{
    if metas.len() == 0 {
        Seq::empty()
    } else {
        let prefix = query_spec(metas.drop_last(), filters);
        if metas.last() matches Some(meta) && list_matches(filters, meta) {
            prefix.push(TrackId((metas.len() - 1) as u32))
        } else {
            prefix
        }
    }
}

/// A filter list means the same thing in any order: two lists holding the
/// same filters the same number of times are satisfied by exactly the same
/// records.
pub proof fn lemma_list_matches_permutation<'a>(
    f1: Seq<MetaFilter<'a>>,
    f2: Seq<MetaFilter<'a>>,
    meta: Metadata,
)
    requires
        f1.to_multiset() == f2.to_multiset(),
    ensures
        list_matches(f1, meta) == list_matches(f2, meta),
{
    broadcast use vstd::seq_lib::group_to_multiset_ensures;

    if list_matches(f1, meta) {
        assert forall|j: int| 0 <= j < f2.len() implies #[trigger] f2[j].spec_matches(meta) by {
            assert(f2.contains(f2[j]));
            assert(f2.to_multiset().count(f2[j]) > 0);
            assert(f1.to_multiset().count(f2[j]) > 0);
            assert(f1.contains(f2[j]));
            let i = choose|i: int| 0 <= i < f1.len() && f1[i] == f2[j];
            assert(f1[i].spec_matches(meta));
        }
    } else if list_matches(f2, meta) {
        assert forall|i: int| 0 <= i < f1.len() implies #[trigger] f1[i].spec_matches(meta) by {
            assert(f1.contains(f1[i]));
            assert(f1.to_multiset().count(f1[i]) > 0);
            assert(f2.to_multiset().count(f1[i]) > 0);
            assert(f2.contains(f1[i]));
            let j = choose|j: int| 0 <= j < f2.len() && f2[j] == f1[i];
            assert(f2[j].spec_matches(meta));
        }
    }
}

/// Reordering a filter list never changes a query's answer: two lists
/// holding the same filters the same number of times select the same ids,
/// in the same ascending order.
pub proof fn lemma_query_filter_permutation<'a>(
    metas: Seq<Option<Metadata>>,
    f1: Seq<MetaFilter<'a>>,
    f2: Seq<MetaFilter<'a>>,
)
    requires
        f1.to_multiset() == f2.to_multiset(),
    ensures
        query_spec(metas, f1) == query_spec(metas, f2),
    decreases metas.len(),
{
    if metas.len() > 0 {
        lemma_query_filter_permutation(metas.drop_last(), f1, f2);
        match metas.last() {
            Some(m) => lemma_list_matches_permutation(f1, f2, m),
            None => (),
        }
    }
}

/// A list holding a predicate both as stated and negated is satisfied by no
/// record, so its query selects nothing.
pub proof fn lemma_query_contradiction<'a>(
    metas: Seq<Option<Metadata>>,
    filters: Seq<MetaFilter<'a>>,
    pred: MetaFilterPredicate<'a>,
)
    requires
        filters.contains(MetaFilter::Is(pred)),
        filters.contains(MetaFilter::Not(pred)),
    ensures
        query_spec(metas, filters) == Seq::<TrackId>::empty(),
    decreases metas.len(),
{
    if metas.len() > 0 {
        lemma_query_contradiction(metas.drop_last(), filters, pred);
        match metas.last() {
            Some(m) => {
                let i = choose|i: int|
                    0 <= i < filters.len() && filters[i] == MetaFilter::Is(pred);
                let j = choose|j: int|
                    0 <= j < filters.len() && filters[j] == MetaFilter::Not(pred);
                if list_matches(filters, m) {
                    assert(filters[i].spec_matches(m));
                    assert(filters[j].spec_matches(m));
                }
                assert(!list_matches(filters, m));
            },
            None => (),
        }
    }
}

/// What a query's answer holds: only ids of tracks whose record satisfies
/// the list, each such id exactly once, and the ids strictly ascending.
pub proof fn lemma_query_spec_characterizes<'a>(
    metas: Seq<Option<Metadata>>,
    filters: Seq<MetaFilter<'a>>,
)
    requires
        metas.len() <= u32::MAX,
    ensures
        forall|k: int|
            0 <= k < query_spec(metas, filters).len() ==> (#[trigger] query_spec(
                metas,
                filters,
            )[k]).0 < metas.len(),
        forall|k: int|
            0 <= k < query_spec(metas, filters).len() ==> (metas[(#[trigger] query_spec(
                metas,
                filters,
            )[k]).0 as int] matches Some(m) && list_matches(filters, m)),
        forall|k1: int, k2: int|
            0 <= k1 < k2 < query_spec(metas, filters).len() ==> (#[trigger] query_spec(
                metas,
                filters,
            )[k1]).0 < (#[trigger] query_spec(metas, filters)[k2]).0,
        forall|i: int|
            0 <= i < metas.len() && ((#[trigger] metas[i]) matches Some(m) && list_matches(
                filters,
                m,
            )) ==> query_spec(metas, filters).contains(TrackId(i as u32)),
    decreases metas.len(),
{
    if metas.len() > 0 {
        lemma_query_spec_characterizes(metas.drop_last(), filters);
        let prefix = query_spec(metas.drop_last(), filters);
        let whole = query_spec(metas, filters);
        assert forall|i: int|
            0 <= i < metas.len() && ((#[trigger] metas[i]) matches Some(m) && list_matches(
                filters,
                m,
            )) implies whole.contains(TrackId(i as u32)) by {
            if i < metas.len() - 1 {
                assert(metas.drop_last()[i] == metas[i]);
                assert(prefix.contains(TrackId(i as u32)));
                let k = choose|k: int| 0 <= k < prefix.len() && prefix[k] == TrackId(i as u32);
                assert(whole[k] == TrackId(i as u32));
            } else {
                assert(whole.last() == TrackId(i as u32));
            }
        }
    }
}

/// A query with the empty filter list selects exactly the ids that have a
/// metadata record; by the characterization above they come out ascending.
pub proof fn lemma_query_empty_filter<'a>(metas: Seq<Option<Metadata>>)
    requires
        metas.len() <= u32::MAX,
    ensures
        forall|i: int|
            0 <= i < metas.len() && (#[trigger] metas[i]) is Some ==> query_spec(
                metas,
                Seq::<MetaFilter<'a>>::empty(),
            ).contains(TrackId(i as u32)),
        forall|k: int|
            0 <= k < query_spec(metas, Seq::<MetaFilter<'a>>::empty()).len() ==> metas[(
            #[trigger] query_spec(metas, Seq::<MetaFilter<'a>>::empty())[k]).0 as int] is Some,
{
    lemma_query_spec_characterizes(metas, Seq::<MetaFilter<'a>>::empty());
    assert forall|i: int|
        0 <= i < metas.len() && (#[trigger] metas[i]) is Some implies query_spec(
        metas,
        Seq::<MetaFilter<'a>>::empty(),
    ).contains(TrackId(i as u32)) by {
        match metas[i] {
            Some(m) => {
                assert(list_matches(Seq::<MetaFilter<'a>>::empty(), m));
            },
            None => (),
        }
    }
}

/// Append-only store of imported tracks and their optional metadata.
pub struct Cache {
    tracks: Vec<Track>,
    metas: Vec<Option<Metadata>>,
}

impl Cache {
    /// The imported tracks, in insertion order; a track's id is its index.
    pub closed spec fn tracks_seq(&self) -> Seq<Track> {
        self.tracks@
    }

    /// The optional metadata records, indexed like [`Cache::tracks_seq`].
    pub closed spec fn metas_seq(&self) -> Seq<Option<Metadata>> {
        self.metas@
    }

    /// Every track has a metadata slot, and the next id fits in a `u32`.
    pub open spec fn inv(&self) -> bool {
        &&& self.tracks_seq().len() == self.metas_seq().len()
        &&& self.tracks_seq().len() <= u32::MAX
    }

    /// An empty cache.
    pub fn new() -> (r: Self)
        ensures
            r.inv(),
            r.tracks_seq() == Seq::<Track>::empty(),
            r.metas_seq() == Seq::<Option<Metadata>>::empty(),
    {
        Self { tracks: Vec::new(), metas: Vec::new() }
    }

    /// Import a track: store the path and the optional record and hand out a
    /// fresh id, one past every id handed out before. Duplicate paths are
    /// allowed and receive distinct ids.
    pub fn insert(&mut self, track: Track, meta: Option<Metadata>) -> (id: TrackId)
        requires
            old(self).inv(),
            old(self).tracks_seq().len() < u32::MAX,
        ensures
            final(self).inv(),
            id.0 == old(self).tracks_seq().len(),
            final(self).tracks_seq() == old(self).tracks_seq().push(track),
            final(self).metas_seq() == old(self).metas_seq().push(meta),
    {
        let id = TrackId(self.tracks.len() as u32);
        self.tracks.push(track);
        self.metas.push(meta);
        id
    }

    /// Look a track up by id; an id never handed out yields nothing.
    pub fn get_track(&self, id: TrackId) -> (r: Option<&Track>)
        requires
            self.inv(),
        ensures
            id.0 < self.tracks_seq().len() ==> (r matches Some(t) && *t == self.tracks_seq()[id.0 as int]),
            id.0 >= self.tracks_seq().len() ==> r is None,
    {
        if (id.0 as usize) < self.tracks.len() {
            Some(&self.tracks[id.0 as usize])
        } else {
            None
        }
    }

    /// Decide whether a record satisfies every filter in the list.
    fn all_match(filters: &[MetaFilter], meta: &Metadata) -> (r: bool)
        ensures
            r == list_matches(filters@, *meta),
    {
        let mut i: usize = 0;
        let mut ok = true;
        while i < filters.len()
            invariant
                i <= filters@.len(),
                ok == (forall|k: int|
                    0 <= k < i ==> #[trigger] filters@[k].spec_matches(*meta)),
            decreases filters@.len() - i,
        {
            ok = ok && filters[i].matches(meta);
            i = i + 1;
        }
        ok
    }

    /// Answer a filtered query: the playlist named `Matches` holding every id
    /// whose track has a metadata record satisfying the whole list, in
    /// ascending order of id. With an empty list that is every id that has a
    /// record.
    pub fn matches_filter(&self, filters: &[MetaFilter]) -> (r: Playlist)
        requires
            self.inv(),
        ensures
            r.tracks@ == query_spec(self.metas_seq(), filters@),
            r.name@ == "Matches"@,
    {
        let mut tracks: Vec<TrackId> = Vec::new();
        let mut i: usize = 0;
        while i < self.metas.len()
            invariant
                self.inv(),
                i <= self.metas_seq().len(),
                tracks@ == query_spec(self.metas_seq().take(i as int), filters@),
            decreases self.metas_seq().len() - i,
        {
            let ghost prefix = self.metas_seq().take(i as int);
            let ghost step = self.metas_seq().take(i + 1);
            proof {
                assert(step.drop_last() =~= prefix);
                assert(step.last() == self.metas_seq()[i as int]);
            }
            if let Some(meta) = &self.metas[i] {
                if Self::all_match(filters, meta) {
                    tracks.push(TrackId(i as u32));
                }
            }
            i = i + 1;
        }
        proof {
            assert(self.metas_seq().take(self.metas_seq().len() as int) =~= self.metas_seq());
        }
        Playlist { name: "Matches".to_owned(), tracks }
    }
}

} // verus!
