//! Ordering of the catalog by title, in the byte order of the titles' UTF-8
//! encoding (the order of `str`'s comparison).
use vstd::prelude::*;
use vstd::utf8::encode_utf8;

use crate::movie::{movies_view, Movie, MovieView};

verus! {

broadcast use vstd::seq_lib::group_to_multiset_ensures;

/// Lexicographic order on byte strings: `a` comes first or equals `b`.
pub open spec fn bytes_le(a: Seq<u8>, b: Seq<u8>) -> bool
    decreases a.len(),
{
    if a.len() == 0 {
        true
    } else if b.len() == 0 {
        false
    } else if a[0] < b[0] {
        true
    } else if a[0] > b[0] {
        false
    } else {
        bytes_le(a.drop_first(), b.drop_first())
    }
}

/// Title `a` sorts before title `b`, or equals it.
pub open spec fn title_le(a: Seq<char>, b: Seq<char>) -> bool {
    bytes_le(encode_utf8(a), encode_utf8(b))
}

/// The movies are in ascending order of title.
pub open spec fn sorted_by_title(s: Seq<MovieView>) -> bool {
    forall|i: int, j: int| 0 <= i < j < s.len() ==> title_le(#[trigger] s[i].title, #[trigger] s[j].title)
}

proof fn lemma_bytes_le_total(a: Seq<u8>, b: Seq<u8>)
    ensures
        bytes_le(a, b) || bytes_le(b, a),
    decreases a.len(),
{
    if a.len() > 0 && b.len() > 0 && a[0] == b[0] {
        lemma_bytes_le_total(a.drop_first(), b.drop_first());
    }
}

proof fn lemma_bytes_le_transitive(a: Seq<u8>, b: Seq<u8>, c: Seq<u8>)
    requires
        bytes_le(a, b),
        bytes_le(b, c),
    ensures
        bytes_le(a, c),
    decreases a.len(),
{
    if a.len() > 0 && b.len() > 0 && c.len() > 0 && a[0] == b[0] && b[0] == c[0] {
        lemma_bytes_le_transitive(a.drop_first(), b.drop_first(), c.drop_first());
    }
}

/// Compares two titles in the catalog's order.
pub fn title_le_exec(a: &str, b: &str) -> (r: bool)
    ensures
        r == title_le(a@, b@),
{
    let x = a.as_bytes();
    let y = b.as_bytes();
    let ghost ea = encode_utf8(a@);
    let ghost eb = encode_utf8(b@);
    let mut i: usize = 0;
    assert(ea.subrange(0, ea.len() as int) == ea);
    assert(eb.subrange(0, eb.len() as int) == eb);
    while i < x.len() && i < y.len()
        invariant
            ea == encode_utf8(a@),
            eb == encode_utf8(b@),
            x@ == ea,
            y@ == eb,
            i <= x@.len(),
            i <= y@.len(),
            bytes_le(ea, eb) == bytes_le(ea.subrange(i as int, ea.len() as int), eb.subrange(i as int, eb.len() as int)),
        decreases x@.len() - i,
    {
        let ghost sa = ea.subrange(i as int, ea.len() as int);
        let ghost sb = eb.subrange(i as int, eb.len() as int);
        assert(sa.len() > 0 && sb.len() > 0);
        assert(sa[0] == x@[i as int] && sb[0] == y@[i as int]);
        let xb = x[i];
        let yb = y[i];
        assert(xb == sa[0] && yb == sb[0]);
        if xb < yb {
            return true;
        }
        if xb > yb {
            return false;
        }
        assert(sa.drop_first() == ea.subrange(i + 1, ea.len() as int));
        assert(sb.drop_first() == eb.subrange(i + 1, eb.len() as int));
        i = i + 1;
    }
    i == x.len()
}

/// Sorts the movies by title: the result holds the same movies, in
/// ascending order of title.
pub fn sort_by_title(v: Vec<Movie>) -> (r: Vec<Movie>)
    ensures
        sorted_by_title(movies_view(r@)),
        movies_view(r@).to_multiset() == movies_view(v@).to_multiset(),
{
    let mut rest = v;
    let mut out: Vec<Movie> = Vec::new();
    while rest.len() > 0
        invariant
            sorted_by_title(movies_view(out@)),
            movies_view(out@).to_multiset().add(movies_view(rest@).to_multiset())
                == movies_view(v@).to_multiset(),
        decreases rest@.len(),
    {
        let ghost before = rest@;
        let m = rest.pop().unwrap();
        proof {
            assert(movies_view(before) == movies_view(rest@).push(m@));
        }
        let mut p: usize = 0;
        while p < out.len() && !title_le_exec(m.title.as_str(), out[p].title.as_str())
            invariant
                p <= out@.len(),
                forall|k: int| 0 <= k < p ==> title_le(#[trigger] out@[k].title@, m.title@),
            decreases out@.len() - p,
        {
            proof {
                lemma_bytes_le_total(encode_utf8(m.title@), encode_utf8(out@[p as int].title@));
            }
            p = p + 1;
        }
        let ghost old_out = movies_view(out@);
        out.insert(p, m);
        proof {
            let nv = movies_view(out@);
            assert(nv == old_out.insert(p as int, m@));
            assert forall|i: int, j: int| 0 <= i < j < nv.len() implies title_le(
                #[trigger] nv[i].title,
                #[trigger] nv[j].title,
            ) by {
                if j == p {
                    assert(nv[i] == old_out[i]);
                } else if i == p {
                    assert(nv[j] == old_out[j - 1]);
                    assert(title_le(m.title@, old_out[p as int].title));
                    if j - 1 > p {
                        lemma_bytes_le_transitive(
                            encode_utf8(m.title@),
                            encode_utf8(old_out[p as int].title),
                            encode_utf8(old_out[j - 1].title),
                        );
                    }
                } else if j < p {
                    assert(nv[i] == old_out[i] && nv[j] == old_out[j]);
                } else if i < p {
                    assert(nv[i] == old_out[i] && nv[j] == old_out[j - 1]);
                    assert(title_le(old_out[i].title, m.title@));
                    assert(title_le(m.title@, old_out[p as int].title));
                    lemma_bytes_le_transitive(
                        encode_utf8(old_out[i].title),
                        encode_utf8(m.title@),
                        encode_utf8(old_out[p as int].title),
                    );
                    if j - 1 > p {
                        lemma_bytes_le_transitive(
                            encode_utf8(old_out[i].title),
                            encode_utf8(old_out[p as int].title),
                            encode_utf8(old_out[j - 1].title),
                        );
                    }
                } else {
                    assert(nv[i] == old_out[i - 1] && nv[j] == old_out[j - 1]);
                }
            }
            vstd::seq_lib::to_multiset_insert(old_out, p as int, m@);
        }
    }
    out
}

} // verus!
