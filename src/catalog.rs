//! The catalog store: the sorted, normalized snapshot of the remote library.
use vstd::prelude::*;

use crate::movie::{copy_strings, movie_of_record, movies_view, Movie, MovieRecord, MovieView};
use crate::order::{sort_by_title, sorted_by_title};
use crate::rpc::RpcError;
use crate::sets::{movie_list_cleanup, normalize_sets};

verus! {

/// `c` is a catalog built from the batch `records`: the records' movies with
/// their sets normalized over the batch, in ascending order of title.
pub open spec fn is_catalog_of(c: Seq<MovieView>, records: Seq<MovieRecord>) -> bool {
    &&& sorted_by_title(c)
    &&& c.to_multiset() == normalize_sets(records.map_values(|r: MovieRecord| movie_of_record(r))).to_multiset()
}

/// What a refresh leaves in the store: on a fetched batch, the catalog built
/// from it; on a failed fetch, the catalog that was there before.
pub open spec fn refresh_outcome(
    before: Seq<MovieView>,
    fetched: Result<Vec<MovieRecord>, RpcError>,
    after: Seq<MovieView>,
) -> bool {
    match fetched {
        Ok(records) => is_catalog_of(after, records@),
        Err(_) => after == before,
    }
}

/// The store of the current catalog. It is created empty and replaced as a
/// whole by each successful refresh.
pub struct Catalog {
    movies: Vec<Movie>,
}

impl View for Catalog {
    type V = Seq<MovieView>;

    closed spec fn view(&self) -> Seq<MovieView> {
        movies_view(self.movies@)
    }
}

impl Catalog {
    /// An empty catalog.
    pub fn new() -> (c: Catalog)
        ensures
            c@ == Seq::<MovieView>::empty(),
    {
        let c = Catalog { movies: Vec::new() };
        assert(c@ =~= Seq::<MovieView>::empty());
        c
    }
}

/// Builds the catalog from a batch of server records: converts each record,
/// normalizes the sets over the batch and sorts by title.
pub fn build_catalog(records: Vec<MovieRecord>) -> (r: Vec<Movie>)
    ensures
        is_catalog_of(movies_view(r@), records@),
{
    let ghost recs = records@;
    let mut converted: Vec<Movie> = Vec::new();
    let mut rest = records;
    // records are taken from the back, so the converted list is built back to front
    while rest.len() > 0
        invariant
            rest@ == recs.take(rest@.len() as int),
            rest@.len() <= recs.len(),
            movies_view(converted@) == recs.skip(rest@.len() as int).map_values(
                |r: MovieRecord| movie_of_record(r),
            ).reverse(),
        decreases rest@.len(),
    {
        let ghost k = rest@.len();
        let r = rest.pop().unwrap();
        let m = Movie::from_record(r);
        converted.push(m);
        proof {
            let f = |r: MovieRecord| movie_of_record(r);
            assert(rest@ == recs.take(k - 1));
            assert(recs.skip(k - 1) == seq![recs[k - 1]] + recs.skip(k as int));
            assert(recs.skip(k - 1).map_values(f) == seq![f(recs[k - 1])] + recs.skip(k as int).map_values(f));
            assert(movies_view(converted@) == recs.skip(k as int).map_values(f).reverse().push(f(recs[k - 1])));
            assert((seq![f(recs[k - 1])] + recs.skip(k as int).map_values(f)).reverse()
                =~= recs.skip(k as int).map_values(f).reverse().push(f(recs[k - 1])));
        }
    }
    let mut ordered: Vec<Movie> = Vec::new();
    while converted.len() > 0
        invariant
            movies_view(ordered@) + movies_view(converted@).reverse() == recs.map_values(
                |r: MovieRecord| movie_of_record(r),
            ),
        decreases converted@.len(),
    {
        let m = converted.pop().unwrap();
        ordered.push(m);
    }
    let cleaned = movie_list_cleanup(ordered);
    sort_by_title(cleaned)
}

/// Refreshes the store from the result of fetching the movie list. A fetched
/// batch replaces the catalog as a whole; a failed fetch leaves the catalog as
/// it was and hands the error back.
pub fn update_movie_list(catalog: &mut Catalog, fetched: Result<Vec<MovieRecord>, RpcError>) -> (r: Result<(), RpcError>)
    ensures
        refresh_outcome(old(catalog)@, fetched, final(catalog)@),
        match fetched {
            Ok(_) => r is Ok,
            Err(e) => r == Err::<(), RpcError>(e),
        },
{
    match fetched {
        Ok(records) => {
            let movies = build_catalog(records);
            *catalog = Catalog { movies };
            Ok(())
        },
        Err(e) => Err(e),
    }
}

/// The current catalog, for reading.
pub fn get_movie_list(catalog: &Catalog) -> (r: &Vec<Movie>)
    ensures
        movies_view(r@) == catalog@,
{
    &catalog.movies
}

/// The catalog with the tags of the movie `id` replaced.
pub open spec fn with_tags(c: Seq<MovieView>, id: u16, tags: Seq<String>) -> Seq<MovieView> {
    Seq::new(c.len(), |i: int| if c[i].id == id { MovieView { tags: tags, ..c[i] } } else { c[i] })
}

/// Replaces the tags of the movie `movie_id` in the catalog; every other
/// movie, and every other field, stays as it was.
pub fn set_movie_tags(catalog: &mut Catalog, movie_id: u16, tags: &Vec<String>)
    ensures
        final(catalog)@ == with_tags(old(catalog)@, movie_id, tags@),
{
    let ghost c0 = catalog@;
    let n = catalog.movies.len();
    let mut i: usize = 0;
    while i < n
        invariant
            n == catalog.movies@.len(),
            c0.len() == n,
            i <= n,
            forall|k: int| 0 <= k < i ==> #[trigger] catalog.movies@[k]@ == with_tags(c0, movie_id, tags@)[k],
            forall|k: int| i <= k < n ==> #[trigger] catalog.movies@[k]@ == c0[k],
        decreases n - i,
    {
        let ghost before = catalog.movies@[i as int];
        assert(before@ == c0[i as int]);
        if catalog.movies[i].id == movie_id {
            let new_tags = copy_strings(tags);
            catalog.movies[i].tags = new_tags;
            assert(catalog.movies@[i as int].title == before.title);
        }
        proof {
            let v = with_tags(c0, movie_id, tags@)[i as int];
            assert(catalog.movies@[i as int]@ == v);
        }
        i = i + 1;
    }
    assert(catalog@ =~= with_tags(c0, movie_id, tags@));
}

/// A refresh whose fetch failed leaves the catalog as it was: the same
/// movies in the same order, so every later read sees the earlier catalog.
pub proof fn lemma_failed_refresh_keeps_catalog(before: Seq<MovieView>, e: RpcError, after: Seq<MovieView>)
    requires
        refresh_outcome(before, Err(e), after),
    ensures
        after == before,
        after.len() == before.len(),
        forall|i: int| 0 <= i < before.len() ==> after[i] == before[i],
{
}

} // verus!
