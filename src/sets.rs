//! Set normalization: a set name survives a refresh only where at least two
//! movies of the same batch carry it.
use vstd::prelude::*;

use crate::movie::{movies_view, Movie, MovieView};

verus! {

/// How many movies of the batch carry the set `name`.
pub open spec fn set_count(s: Seq<MovieView>, name: Seq<char>) -> nat
    decreases s.len(),
{
    if s.len() == 0 {
        0
    } else {
        set_count(s.drop_last(), name) + if s.last().set == Some(name) {
            1nat
        } else {
            0nat
        }
    }
}

/// What becomes of a movie's set within the batch `s`.
pub open spec fn normalized_set(s: Seq<MovieView>, set: Option<Seq<char>>) -> Option<Seq<char>> {
    match set {
        Some(name) => if set_count(s, name) >= 2 {
            Some(name)
        } else {
            None
        },
        None => None,
    }
}

/// The batch with every set that fewer than two of its movies share removed;
/// everything else is kept as it was, in the same order.
pub open spec fn normalize_sets(s: Seq<MovieView>) -> Seq<MovieView> {
    Seq::new(s.len(), |i: int| MovieView { set: normalized_set(s, s[i].set), ..s[i] })
}

/// Clears the set of each movie whose set no other movie of the list shares.
pub fn movie_list_cleanup(movie_list: Vec<Movie>) -> (r: Vec<Movie>)
    ensures
        movies_view(r@) == normalize_sets(movies_view(movie_list@)),
{
    let ghost s = movies_view(movie_list@);
    let n = movie_list.len();
    let mut keep: Vec<bool> = Vec::new();
    let mut i: usize = 0;
    while i < n
        invariant
            n == movie_list@.len(),
            s == movies_view(movie_list@),
            i <= n,
            keep@.len() == i,
            forall|k: int| 0 <= k < i ==> #[trigger] keep@[k] == (normalized_set(s, s[k].set) is Some),
        decreases n - i,
    {
        let mut shared = false;
        if let Some(name) = &movie_list[i].set {
            let mut count: usize = 0;
            let mut j: usize = 0;
            while j < n
                invariant
                    n == movie_list@.len(),
                    s == movies_view(movie_list@),
                    i < n,
                    j <= n,
                    s[i as int].set == Some(name@),
                    count as nat == set_count(s.take(j as int), name@),
                    count <= j,
                decreases n - j,
            {
                proof {
                    assert(s.take(j + 1).drop_last() == s.take(j as int));
                }
                let same = match &movie_list[j].set {
                    Some(other) => other.eq(name),
                    None => false,
                };
                proof {
                    assert(s[j as int] == movie_list@[j as int]@);
                    assert(same == (s[j as int].set == Some(name@)));
                    assert(s.take(j + 1).last() == s[j as int]);
                }
                if same {
                    count = count + 1;
                }
                j = j + 1;
            }
            proof {
                assert(s.take(n as int) == s);
            }
            shared = count >= 2;
        }
        keep.push(shared);
        i = i + 1;
    }
    let mut out = movie_list;
    let mut i: usize = 0;
    while i < n
        invariant
            n == out@.len(),
            keep@.len() == n,
            s.len() == n,
            forall|k: int| 0 <= k < n ==> #[trigger] keep@[k] == (normalized_set(s, s[k].set) is Some),
            forall|k: int| 0 <= k < i ==> #[trigger] out@[k]@ == normalize_sets(s)[k],
            forall|k: int| i <= k < n ==> #[trigger] out@[k]@ == s[k],
        decreases n - i,
    {
        let ghost before = out@[i as int];
        assert(before@ == s[i as int]);
        if !keep[i] {
            out[i].set = None;
            assert(out@[i as int].title == before.title);
        }
        proof {
            let v = normalize_sets(s)[i as int];
            assert(v == MovieView { set: normalized_set(s, s[i as int].set), ..s[i as int] });
        }
        i = i + 1;
    }
    proof {
        assert(movies_view(out@) =~= normalize_sets(s));
    }
    out
}

/// Counting a set name over the first `k` movies of a normalized batch: a
/// name kept by normalization is counted as before, a removed one not at all.
proof fn lemma_count_after_normalize(s: Seq<MovieView>, name: Seq<char>, k: int)
    requires
        0 <= k <= s.len(),
    ensures
        set_count(normalize_sets(s).take(k), name) == if set_count(s, name) >= 2 {
            set_count(s.take(k), name)
        } else {
            0
        },
    decreases k,
{
    let t = normalize_sets(s);
    if k > 0 {
        lemma_count_after_normalize(s, name, k - 1);
        assert(t.take(k).drop_last() == t.take(k - 1));
        assert(s.take(k).drop_last() == s.take(k - 1));
        assert(t.take(k).last() == t[k - 1]);
        assert(s.take(k).last() == s[k - 1]);
    } else {
        assert(t.take(0).len() == 0);
        assert(s.take(0).len() == 0);
    }
}

/// How often a name occurs in a normalized batch: as often as before where
/// it was shared by two movies or more, never otherwise.
pub proof fn lemma_count_in_normalized(s: Seq<MovieView>, name: Seq<char>)
    ensures
        set_count(normalize_sets(s), name) == if set_count(s, name) >= 2 {
            set_count(s, name)
        } else {
            0
        },
{
    lemma_count_after_normalize(s, name, s.len() as int);
    assert(normalize_sets(s).take(s.len() as int) == normalize_sets(s));
    assert(s.take(s.len() as int) == s);
}

/// Normalizing a batch twice gives the same batch as normalizing it once.
pub proof fn lemma_normalize_idempotent(s: Seq<MovieView>)
    ensures
        normalize_sets(normalize_sets(s)) == normalize_sets(s),
{
    let t = normalize_sets(s);
    assert forall|i: int| 0 <= i < t.len() implies normalize_sets(t)[i] == t[i] by {
        if let Some(name) = t[i].set {
            lemma_count_in_normalized(s, name);
        }
    }
    assert(normalize_sets(t) =~= t);
}

/// After normalization a movie carries a set exactly where the name of its
/// set occurs at least twice in the batch it came with, and every set left
/// in the result occurs at least twice in the result itself.
pub proof fn lemma_set_kept_iff_shared(s: Seq<MovieView>, i: int)
    requires
        0 <= i < s.len(),
    ensures
        normalize_sets(s)[i].set is Some <==> (s[i].set is Some && set_count(s, s[i].set->0) >= 2),
        normalize_sets(s)[i].set is Some ==> normalize_sets(s)[i].set == s[i].set,
        normalize_sets(s)[i].set is Some ==> set_count(normalize_sets(s), s[i].set->0) >= 2,
{
    if let Some(name) = s[i].set {
        lemma_count_in_normalized(s, name);
    }
}

} // verus!
