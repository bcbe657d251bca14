//! The reconciliation analyzers: read-only passes over a catalog snapshot
//! that flag duplicates, recognition errors and files missing from it.
use vstd::prelude::*;

use crate::config::Config;
use crate::movie::{movies_view, opt_chars, File, Movie, MovieView};
use crate::pattern::{pattern_finds, pattern_group, regex_accepts, regex_finds, regex_group, ConfigError, Pattern};
use crate::rpc::RpcError;

verus! {

/// The least of three numbers.
pub open spec fn min3(x: nat, y: nat, z: nat) -> nat {
    if x <= y && x <= z {
        x
    } else if y <= z {
        y
    } else {
        z
    }
}

/// The Levenshtein distance between two character sequences: the least
/// number of single-character insertions, deletions and substitutions that
/// turn `a` into `b`, by the usual recurrence on the last characters.
pub open spec fn levenshtein_distance(a: Seq<char>, b: Seq<char>) -> nat
    decreases a.len() + b.len(),
{
    if a.len() == 0 {
        b.len()
    } else if b.len() == 0 {
        a.len()
    } else {
        min3(
            levenshtein_distance(a.drop_last(), b) + 1,
            levenshtein_distance(a, b.drop_last()) + 1,
            levenshtein_distance(a.drop_last(), b.drop_last()) + if a.last() == b.last() {
                0nat
            } else {
                1nat
            },
        )
    }
}

/// Relies on `strsim::levenshtein`: the least number of single-character
/// insertions, deletions and substitutions that turn `a` into `b`, counted
/// over characters, which is `levenshtein_distance` of the two.
#[verifier::external_body]
fn edit_distance(a: &str, b: &str) -> (r: usize)
    ensures
        r as nat == levenshtein_distance(a@, b@),
{
    strsim::levenshtein(a, b)
}

/// The elements of `s` whose flag is set, in their order.
pub open spec fn keep_flagged<T>(s: Seq<T>, flags: Seq<bool>) -> Seq<T>
    decreases s.len(),
{
    if s.len() == 0 {
        Seq::empty()
    } else {
        let rest = keep_flagged(s.drop_last(), flags.drop_last());
        if flags[s.len() - 1] {
            rest.push(s.last())
        } else {
            rest
        }
    }
}

/// Copies of the movies whose flag is set, in catalog order.
pub fn select_flagged(movies: &Vec<Movie>, flags: &Vec<bool>) -> (r: Vec<Movie>)
    requires
        flags@.len() == movies@.len(),
    ensures
        movies_view(r@) == keep_flagged(movies_view(movies@), flags@),
{
    let ghost s = movies_view(movies@);
    let mut out: Vec<Movie> = Vec::new();
    let mut i: usize = 0;
    while i < movies.len()
        invariant
            s == movies_view(movies@),
            flags@.len() == movies@.len(),
            i <= movies@.len(),
            movies_view(out@) == keep_flagged(s.take(i as int), flags@.take(i as int)),
        decreases movies@.len() - i,
    {
        proof {
            assert(s.take(i + 1).drop_last() == s.take(i as int));
            assert(flags@.take(i + 1).drop_last() == flags@.take(i as int));
        }
        if flags[i] {
            let m = movies[i].copy();
            let ghost prev = out@;
            out.push(m);
            proof {
                assert(movies_view(out@) =~= movies_view(prev).push(m@));
                assert(s.take(i + 1).last() == s[i as int]);
            }
        }
        i = i + 1;
    }
    proof {
        assert(s.take(movies@.len() as int) == s);
        assert(flags@.take(movies@.len() as int) == flags@);
    }
    out
}

/// The years that a filename pattern extracted, one per movie.
pub open spec fn years_view(years: Seq<Option<String>>) -> Seq<Option<Seq<char>>> {
    years.map_values(|y: Option<String>| opt_chars(y))
}

/// Another movie of the catalog has the title of movie `i`.
pub open spec fn title_shared(s: Seq<MovieView>, i: int) -> bool {
    exists|j: int| 0 <= j < s.len() && j != i && #[trigger] s[j].title == s[i].title
}

/// Movie `j` has no extracted year, or another movie of its title has the
/// same extracted year.
pub open spec fn year_collides(s: Seq<MovieView>, years: Seq<Option<Seq<char>>>, j: int) -> bool {
    years[j] is None || exists|k: int|
        0 <= k < s.len() && k != j && #[trigger] s[k].title == s[j].title && years[k] == years[j]
}

/// Movie `i` belongs to a duplicate group: another movie has its title, and
/// within the title group some movie has no extracted year or shares its
/// year with another. `lemma_duplicate_by_count` shows that this is the group
/// having more than one movie and fewer distinct years than movies.
pub open spec fn is_duplicate(s: Seq<MovieView>, years: Seq<Option<Seq<char>>>, i: int) -> bool {
    &&& title_shared(s, i)
    &&& exists|j: int| 0 <= j < s.len() && #[trigger] s[j].title == s[i].title && year_collides(s, years, j)
}

/// Which movies of the catalog belong to a duplicate group.
pub open spec fn duplicate_flags(s: Seq<MovieView>, years: Seq<Option<Seq<char>>>) -> Seq<bool> {
    Seq::new(s.len(), |i: int| is_duplicate(s, years, i))
}

/// The positions of the movies that have the title of movie `i`.
pub open spec fn title_group(s: Seq<MovieView>, i: int) -> Set<int> {
    Set::new(|j: int| 0 <= j < s.len() && s[j].title == s[i].title)
}

/// The distinct years extracted within the title group of movie `i`.
pub open spec fn group_years(s: Seq<MovieView>, years: Seq<Option<Seq<char>>>, i: int) -> Set<Seq<char>> {
    Set::new(|y: Seq<char>| exists|j: int| title_group(s, i).contains(j) && years[j] == Some(y))
}

/// The duplicate rule counted: movie `i` belongs to a duplicate group exactly
/// when its title group has more than one movie and fewer distinct extracted
/// years than movies.
pub proof fn lemma_duplicate_by_count(s: Seq<MovieView>, years: Seq<Option<Seq<char>>>, i: int)
    requires
        0 <= i < s.len(),
        years.len() == s.len(),
    ensures
        title_group(s, i).finite(),
        group_years(s, years, i).finite(),
        is_duplicate(s, years, i) <==> (title_group(s, i).len() > 1 && group_years(s, years, i).len() < title_group(s, i).len()),
{
    let g = title_group(s, i);
    let ys = group_years(s, years, i);
    vstd::set_lib::lemma_int_range(0, s.len() as int);
    vstd::set_lib::lemma_len_subset(g, vstd::set_lib::set_int_range(0, s.len() as int));
    let d = g.filter(|j: int| years[j] is Some);
    let f = |j: int| years[j]->0;
    vstd::set_lib::lemma_len_subset(d, g);
    assert(d.map(f) =~= ys) by {
        assert forall|y: Seq<char>| ys.contains(y) implies d.map(f).contains(y) by {
            let j = choose|j: int| g.contains(j) && years[j] == Some(y);
            assert(d.contains(j) && f(j) == y);
        }
    }
    vstd::set_lib::lemma_map_size_bound(d, ys, f);
    assert(g.contains(i));
    // more than one movie in the group is the same as another movie of the title
    if title_shared(s, i) {
        let j = choose|j: int| 0 <= j < s.len() && j != i && #[trigger] s[j].title == s[i].title;
        assert(set![i, j].subset_of(g));
        assert(set![i, j].len() == 2) by {
            assert(set![i, j] == set![i].insert(j));
        }
        vstd::set_lib::lemma_len_subset(set![i, j], g);
    } else {
        assert(g =~= set![i]);
    }
    let collides = exists|j: int| 0 <= j < s.len() && #[trigger] s[j].title == s[i].title && year_collides(s, years, j);
    if collides {
        let j = choose|j: int| 0 <= j < s.len() && #[trigger] s[j].title == s[i].title && year_collides(s, years, j);
        if years[j] is None {
            assert(d.subset_of(g.remove(j)));
            vstd::set_lib::lemma_len_subset(d, g.remove(j));
        } else {
            let k = choose|k: int|
                0 <= k < s.len() && k != j && #[trigger] s[k].title == s[j].title && years[k] == years[j];
            assert(d.contains(j) && d.contains(k));
            assert(d.remove(k).map(f) =~= ys) by {
                assert forall|y: Seq<char>| ys.contains(y) implies d.remove(k).map(f).contains(y) by {
                    let q = choose|q: int| d.contains(q) && f(q) == y;
                    if q == k {
                        assert(d.remove(k).contains(j) && f(j) == y);
                    } else {
                        assert(d.remove(k).contains(q));
                    }
                }
            }
            vstd::set_lib::lemma_map_size_bound(d.remove(k), ys, f);
        }
    } else {
        assert(d =~= g) by {
            assert forall|j: int| g.contains(j) implies years[j] is Some by {
                assert(!year_collides(s, years, j));
            }
        }
        assert(vstd::relations::injective_on(f, d)) by {
            assert forall|a: int, b: int| d.contains(a) && d.contains(b) && #[trigger] f(a) == #[trigger] f(b) implies a == b by {
                if a != b {
                    assert(s[b].title == s[a].title && years[b] == years[a]);
                    assert(year_collides(s, years, a));
                }
            }
        }
        vstd::set_lib::lemma_map_size(d, ys, f);
    }
}

/// Whether two optional strings hold the same text.
fn same_opt(a: &Option<String>, b: &Option<String>) -> (r: bool)
    ensures
        r == (opt_chars(*a) == opt_chars(*b)),
{
    match (a, b) {
        (Some(x), Some(y)) => x.eq(y),
        (None, None) => true,
        _ => false,
    }
}

/// The movies that belong to a duplicate group, in catalog order, given the
/// year that the filename pattern extracted from each movie's path.
pub fn find_duplicates(movies: &Vec<Movie>, years: &Vec<Option<String>>) -> (r: Vec<Movie>)
    requires
        years@.len() == movies@.len(),
    ensures
        movies_view(r@) == keep_flagged(movies_view(movies@), duplicate_flags(movies_view(movies@), years_view(years@))),
{
    let ghost s = movies_view(movies@);
    let ghost ys = years_view(years@);
    let n = movies.len();
    let mut collides: Vec<bool> = Vec::new();
    let mut j: usize = 0;
    while j < n
        invariant
            n == movies@.len(),
            n == years@.len(),
            s == movies_view(movies@),
            ys == years_view(years@),
            j <= n,
            collides@.len() == j,
            forall|q: int| 0 <= q < j ==> #[trigger] collides@[q] == year_collides(s, ys, q),
        decreases n - j,
    {
        let mut found = years[j].is_none();
        let mut k: usize = 0;
        while k < n
            invariant
                n == movies@.len(),
                n == years@.len(),
                s == movies_view(movies@),
                ys == years_view(years@),
                j < n,
                k <= n,
                found == (ys[j as int] is None || exists|q: int|
                    0 <= q < k && q != j && #[trigger] s[q].title == s[j as int].title && ys[q] == ys[j as int]),
            decreases n - k,
        {
            proof {
                assert(s[k as int] == movies@[k as int]@ && s[j as int] == movies@[j as int]@);
                assert(ys[k as int] == opt_chars(years@[k as int]) && ys[j as int] == opt_chars(years@[j as int]));
            }
            if k != j && movies[k].title.eq(&movies[j].title) && same_opt(&years[k], &years[j]) {
                found = true;
                assert(s[k as int].title == s[j as int].title);
            }
            k = k + 1;
        }
        collides.push(found);
        j = j + 1;
    }
    let mut flags: Vec<bool> = Vec::new();
    let mut i: usize = 0;
    while i < n
        invariant
            n == movies@.len(),
            s == movies_view(movies@),
            i <= n,
            collides@.len() == n,
            forall|q: int| 0 <= q < n ==> #[trigger] collides@[q] == year_collides(s, ys, q),
            flags@.len() == i,
            forall|q: int| 0 <= q < i ==> #[trigger] flags@[q] == is_duplicate(s, ys, q),
        decreases n - i,
    {
        let mut shared = false;
        let mut colliding = false;
        let mut j: usize = 0;
        while j < n
            invariant
                n == movies@.len(),
                s == movies_view(movies@),
                i < n,
                j <= n,
                collides@.len() == n,
                forall|q: int| 0 <= q < n ==> #[trigger] collides@[q] == year_collides(s, ys, q),
                shared == exists|q: int| 0 <= q < j && q != i && #[trigger] s[q].title == s[i as int].title,
                colliding == exists|q: int|
                    0 <= q < j && #[trigger] s[q].title == s[i as int].title && year_collides(s, ys, q),
            decreases n - j,
        {
            proof {
                assert(s[j as int] == movies@[j as int]@ && s[i as int] == movies@[i as int]@);
            }
            if movies[j].title.eq(&movies[i].title) {
                assert(s[j as int].title == s[i as int].title);
                if j != i {
                    shared = true;
                }
                if collides[j] {
                    colliding = true;
                }
            }
            j = j + 1;
        }
        flags.push(shared && colliding);
        i = i + 1;
    }
    proof {
        assert(flags@ =~= duplicate_flags(s, ys));
    }
    select_flagged(movies, &flags)
}

/// The filename pattern as applied to a path: anchored at the start and
/// preceded by the movies directory.
pub open spec fn anchored_pattern(directory: Seq<char>, pattern: Seq<char>) -> Seq<char> {
    "^"@ + directory + pattern
}

/// Every ignore pattern of the list is accepted by the regex crate.
pub open spec fn all_accepted(patterns: Seq<String>) -> bool {
    forall|i: int| 0 <= i < patterns.len() ==> regex_accepts(#[trigger] patterns[i]@)
}

/// The analyzers' compiled configuration.
pub struct Analyzer {
    pub movie_pattern: Pattern,
    pub ignore_patterns: Vec<Pattern>,
    pub threshold: usize,
}

impl Analyzer {
    /// Compiles the configuration's regular expressions once, so that an
    /// invalid one is reported before any analysis runs.
    pub fn new(config: &Config) -> (r: Result<Analyzer, ConfigError>)
        ensures
            r is Ok <==> regex_accepts(anchored_pattern(config.movies_directory@, config.movie_pattern@))
                && all_accepted(config.filepatterns_to_ignore@),
            r matches Ok(a) ==> {
                &&& a.movie_pattern.source() == anchored_pattern(config.movies_directory@, config.movie_pattern@)
                &&& a.ignore_patterns@.len() == config.filepatterns_to_ignore@.len()
                &&& forall|i: int| 0 <= i < a.ignore_patterns@.len()
                    ==> #[trigger] a.ignore_patterns@[i].source() == config.filepatterns_to_ignore@[i]@
                &&& a.threshold == match config.name_differences_threshold {
                    Some(t) => t,
                    None => crate::config::DEFAULT_NAME_DIFFERENCES_THRESHOLD,
                }
            },
            r matches Err(ConfigError::InvalidPattern(p)) ==> !regex_accepts(p@),
    {
        let mut source = String::from_str("^");
        source.append(config.movies_directory.as_str());
        source.append(config.movie_pattern.as_str());
        proof {
            assert(source@ == anchored_pattern(config.movies_directory@, config.movie_pattern@));
        }
        let movie_pattern = match Pattern::new(source.as_str()) {
            Ok(p) => p,
            Err(e) => {
                return Err(e);
            },
        };
        let pats = &config.filepatterns_to_ignore;
        let mut ignore_patterns: Vec<Pattern> = Vec::new();
        let mut i: usize = 0;
        while i < pats.len()
            invariant
                pats@ == config.filepatterns_to_ignore@,
                i <= pats@.len(),
                ignore_patterns@.len() == i,
                forall|k: int| 0 <= k < i ==> #[trigger] ignore_patterns@[k].source() == pats@[k]@,
                forall|k: int| 0 <= k < i ==> regex_accepts(#[trigger] pats@[k]@),
            decreases pats@.len() - i,
        {
            match Pattern::new(pats[i].as_str()) {
                Ok(p) => ignore_patterns.push(p),
                Err(e) => {
                    assert(!regex_accepts(pats@[i as int]@));
                    assert(!all_accepted(config.filepatterns_to_ignore@));
                    return Err(e);
                },
            }
            i = i + 1;
        }
        Ok(Analyzer { movie_pattern, ignore_patterns, threshold: config.name_threshold() })
    }
}

/// The year that the filename pattern extracts from each movie's path.
pub open spec fn extracted_years(pattern: Seq<char>, s: Seq<MovieView>) -> Seq<Option<Seq<char>>> {
    Seq::new(s.len(), |i: int| regex_group(pattern, s[i].path, "year"@))
}

/// The movies of the catalog that belong to a duplicate group, by the years
/// that the analyzer's filename pattern extracts from their paths.
pub fn get_duplicate_movies_list(movies: &Vec<Movie>, analyzer: &Analyzer) -> (r: Vec<Movie>)
    ensures
        movies_view(r@) == keep_flagged(
            movies_view(movies@),
            duplicate_flags(movies_view(movies@), extracted_years(analyzer.movie_pattern.source(), movies_view(movies@))),
        ),
{
    let ghost s = movies_view(movies@);
    let ghost src = analyzer.movie_pattern.source();
    let mut years: Vec<Option<String>> = Vec::new();
    let mut i: usize = 0;
    while i < movies.len()
        invariant
            s == movies_view(movies@),
            src == analyzer.movie_pattern.source(),
            i <= movies@.len(),
            years@.len() == i,
            forall|k: int| 0 <= k < i ==> #[trigger] opt_chars(years@[k]) == regex_group(src, s[k].path, "year"@),
        decreases movies@.len() - i,
    {
        let y = pattern_group(&analyzer.movie_pattern, movies[i].path.as_str(), "year");
        proof {
            assert(s[i as int] == movies@[i as int]@);
        }
        years.push(y);
        i = i + 1;
    }
    proof {
        assert(years_view(years@) =~= extracted_years(src, s));
    }
    find_duplicates(movies, &years)
}

/// The text of a capture group, or the empty text where there is none.
pub open spec fn group_or_empty(g: Option<Seq<char>>) -> Seq<char> {
    match g {
        Some(t) => t,
        None => Seq::empty(),
    }
}

/// A movie is a recognition error when its title is further than the
/// threshold from the title in its filename, or when its premiere date does
/// not start with the year in its filename.
pub open spec fn is_recognition_error(distance: nat, threshold: nat, premiered: Seq<char>, file_year: Seq<char>) -> bool {
    distance > threshold || !file_year.is_prefix_of(premiered)
}

/// Whether `prefix` is a prefix of `s`.
pub fn starts_with(s: &str, prefix: &str) -> (r: bool)
    ensures
        r == prefix@.is_prefix_of(s@),
{
    let n = prefix.unicode_len();
    let m = s.unicode_len();
    if n > m {
        return false;
    }
    let mut i: usize = 0;
    while i < n
        invariant
            n == prefix@.len(),
            m == s@.len(),
            n <= m,
            i <= n,
            forall|k: int| 0 <= k < i ==> prefix@[k] == s@[k],
        decreases n - i,
    {
        if prefix.get_char(i) != s.get_char(i) {
            return false;
        }
        i = i + 1;
    }
    assert(prefix@ =~= s@.subrange(0, n as int));
    true
}

/// Decides one movie from the distance between its title and its filename's
/// title, the threshold, its premiere date and its filename's year.
pub fn recognition_error(distance: usize, threshold: usize, premiered: &str, file_year: &str) -> (r: bool)
    ensures
        r == is_recognition_error(distance as nat, threshold as nat, premiered@, file_year@),
{
    distance > threshold || !starts_with(premiered, file_year)
}

/// The movies that are recognition errors, in catalog order, given for each
/// movie the distance between its title and its filename's title, and its
/// filename's year.
pub fn find_recognition_errors(
    movies: &Vec<Movie>,
    distances: &Vec<usize>,
    file_years: &Vec<String>,
    threshold: usize,
) -> (r: Vec<Movie>)
    requires
        distances@.len() == movies@.len(),
        file_years@.len() == movies@.len(),
    ensures
        movies_view(r@) == keep_flagged(
            movies_view(movies@),
            Seq::new(
                movies@.len(),
                |i: int| is_recognition_error(distances@[i] as nat, threshold as nat, movies@[i].premiered@, file_years@[i]@),
            ),
        ),
{
    let mut flags: Vec<bool> = Vec::new();
    let mut i: usize = 0;
    while i < movies.len()
        invariant
            distances@.len() == movies@.len(),
            file_years@.len() == movies@.len(),
            i <= movies@.len(),
            flags@.len() == i,
            forall|k: int| 0 <= k < i ==> #[trigger] flags@[k] == is_recognition_error(
                distances@[k] as nat,
                threshold as nat,
                movies@[k].premiered@,
                file_years@[k]@,
            ),
        decreases movies@.len() - i,
    {
        flags.push(recognition_error(distances[i], threshold, movies[i].premiered.as_str(), file_years[i].as_str()));
        i = i + 1;
    }
    proof {
        assert(flags@ =~= Seq::new(
            movies@.len(),
            |i: int| is_recognition_error(distances@[i] as nat, threshold as nat, movies@[i].premiered@, file_years@[i]@),
        ));
    }
    select_flagged(movies, &flags)
}

/// Whether movie `m` is a recognition error under the filename pattern and
/// the threshold.
pub open spec fn recognition_flag(pattern: Seq<char>, threshold: nat, m: MovieView) -> bool {
    is_recognition_error(
        levenshtein_distance(m.title, group_or_empty(regex_group(pattern, m.path, "title"@))),
        threshold,
        m.premiered,
        group_or_empty(regex_group(pattern, m.path, "year"@)),
    )
}

/// The movies of the catalog whose metadata disagrees with their filename,
/// in catalog order.
pub fn get_recognition_errors_list(movies: &Vec<Movie>, analyzer: &Analyzer) -> (r: Vec<Movie>)
    ensures
        movies_view(r@) == keep_flagged(
            movies_view(movies@),
            Seq::new(
                movies@.len(),
                |i: int| recognition_flag(analyzer.movie_pattern.source(), analyzer.threshold as nat, movies@[i]@),
            ),
        ),
{
    let ghost src = analyzer.movie_pattern.source();
    let mut distances: Vec<usize> = Vec::new();
    let mut file_years: Vec<String> = Vec::new();
    let mut i: usize = 0;
    while i < movies.len()
        invariant
            src == analyzer.movie_pattern.source(),
            i <= movies@.len(),
            distances@.len() == i,
            file_years@.len() == i,
            forall|k: int| 0 <= k < i ==> #[trigger] distances@[k] as nat == levenshtein_distance(
                movies@[k].title@,
                group_or_empty(regex_group(src, movies@[k].path@, "title"@)),
            ),
            forall|k: int| 0 <= k < i ==> #[trigger] file_years@[k]@ == group_or_empty(
                regex_group(src, movies@[k].path@, "year"@),
            ),
        decreases movies@.len() - i,
    {
        let path = movies[i].path.as_str();
        let file_title = match pattern_group(&analyzer.movie_pattern, path, "title") {
            Some(t) => t,
            None => String::new(),
        };
        let file_year = match pattern_group(&analyzer.movie_pattern, path, "year") {
            Some(y) => y,
            None => String::new(),
        };
        distances.push(edit_distance(movies[i].title.as_str(), file_title.as_str()));
        file_years.push(file_year);
        i = i + 1;
    }
    let r = find_recognition_errors(movies, &distances, &file_years, analyzer.threshold);
    proof {
        assert(Seq::new(
            movies@.len(),
            |i: int| is_recognition_error(distances@[i] as nat, analyzer.threshold as nat, movies@[i].premiered@, file_years@[i]@),
        ) =~= Seq::new(
            movies@.len(),
            |i: int| recognition_flag(src, analyzer.threshold as nat, movies@[i]@),
        ));
    }
    r
}

/// Some movie of the catalog has the path `path`.
pub open spec fn in_catalog(s: Seq<MovieView>, path: Seq<char>) -> bool {
    exists|j: int| 0 <= j < s.len() && #[trigger] s[j].path == path
}

/// Entry `i` of the listing is missing from the catalog: not ignored, and the
/// path of no movie.
pub open spec fn is_missing(files: Seq<File>, ignored: Seq<bool>, s: Seq<MovieView>, i: int) -> bool {
    !ignored[i] && !in_catalog(s, files[i].path@)
}

/// An earlier entry of the listing that is not ignored has the path of entry `i`.
pub open spec fn listed_before(files: Seq<File>, ignored: Seq<bool>, i: int) -> bool {
    exists|j: int| 0 <= j < i && !ignored[j] && #[trigger] files[j].path@ == files[i].path@
}

/// Which listed files are reported as missing: those missing from the
/// catalog, each path at its first entry in the listing.
pub open spec fn missing_flags(files: Seq<File>, ignored: Seq<bool>, s: Seq<MovieView>) -> Seq<bool> {
    Seq::new(files.len(), |i: int| is_missing(files, ignored, s, i) && !listed_before(files, ignored, i))
}

/// Exactly one entry of `r` has the path `path`.
pub open spec fn listed_once(r: Seq<File>, path: Seq<char>) -> bool {
    exists|a: int|
        0 <= a < r.len() && #[trigger] r[a].path@ == path && forall|b: int|
            0 <= b < r.len() && #[trigger] r[b].path@ == path ==> b == a
}

/// The listed files that are not ignored and that no movie of the catalog
/// has as its path, in the listing's order, given for each file whether an
/// ignore pattern matches its path. A path listed more than once is reported
/// once, at its first entry.
pub fn find_missing_files(files: &Vec<File>, ignored: &Vec<bool>, movies: &Vec<Movie>) -> (r: Vec<File>)
    requires
        ignored@.len() == files@.len(),
    ensures
        r@ == keep_flagged(files@, missing_flags(files@, ignored@, movies_view(movies@))),
        forall|k: int|
            0 <= k < files@.len() && is_missing(files@, ignored@, movies_view(movies@), k) ==> listed_once(
                r@,
                #[trigger] files@[k].path@,
            ),
{
    let ghost s = movies_view(movies@);
    let ghost flags = missing_flags(files@, ignored@, s);
    let mut out: Vec<File> = Vec::new();
    let mut i: usize = 0;
    while i < files.len()
        invariant
            s == movies_view(movies@),
            flags == missing_flags(files@, ignored@, s),
            ignored@.len() == files@.len(),
            i <= files@.len(),
            out@ == keep_flagged(files@.take(i as int), flags.take(i as int)),
            forall|a: int, b: int| 0 <= a < b < out@.len() ==> #[trigger] out@[a].path@ != #[trigger] out@[b].path@,
            forall|a: int|
                0 <= a < out@.len() ==> exists|k: int|
                    0 <= k < i && !ignored@[k] && #[trigger] files@[k].path@ == #[trigger] out@[a].path@,
            forall|k: int|
                0 <= k < i && is_missing(files@, ignored@, s, k) ==> exists|a: int|
                    0 <= a < out@.len() && #[trigger] out@[a].path@ == #[trigger] files@[k].path@,
        decreases files@.len() - i,
    {
        let mut known = false;
        let mut j: usize = 0;
        while j < movies.len()
            invariant
                s == movies_view(movies@),
                i < files@.len(),
                j <= movies@.len(),
                known == exists|q: int| 0 <= q < j && #[trigger] s[q].path == files@[i as int].path@,
            decreases movies@.len() - j,
        {
            proof {
                assert(s[j as int] == movies@[j as int]@);
            }
            if movies[j].path.eq(&files[i].path) {
                assert(s[j as int].path == files@[i as int].path@);
                known = true;
            }
            j = j + 1;
        }
        let mut earlier = false;
        let mut j: usize = 0;
        while j < i
            invariant
                ignored@.len() == files@.len(),
                i < files@.len(),
                j <= i,
                earlier == exists|q: int|
                    0 <= q < j && !ignored@[q] && #[trigger] files@[q].path@ == files@[i as int].path@,
            decreases i - j,
        {
            if !ignored[j] && files[j].path.eq(&files[i].path) {
                earlier = true;
            }
            j = j + 1;
        }
        proof {
            assert(files@.take(i + 1).drop_last() == files@.take(i as int));
            assert(flags.take(i + 1).drop_last() == flags.take(i as int));
            assert(files@.take(i + 1).last() == files@[i as int]);
        }
        let ghost prev = out@;
        if !ignored[i] && !known && !earlier {
            out.push(files[i].copy());
            proof {
                assert forall|a: int, b: int| 0 <= a < b < out@.len() implies #[trigger] out@[a].path@
                    != #[trigger] out@[b].path@ by {
                    if b == prev.len() {
                        assert(out@[a] == prev[a]);
                        if out@[a].path@ == out@[b].path@ {
                            let k = choose|k: int|
                                0 <= k < i && !ignored@[k] && #[trigger] files@[k].path@ == prev[a].path@;
                            assert(files@[k].path@ == files@[i as int].path@);
                        }
                    } else {
                        assert(out@[a] == prev[a] && out@[b] == prev[b]);
                    }
                }
                assert forall|a: int| 0 <= a < out@.len() implies exists|k: int|
                    0 <= k < i + 1 && !ignored@[k] && #[trigger] files@[k].path@ == #[trigger] out@[a].path@ by {
                    if a == prev.len() {
                        assert(files@[i as int].path@ == out@[a].path@);
                    } else {
                        assert(out@[a] == prev[a]);
                    }
                }
                assert forall|k: int| 0 <= k < i + 1 && is_missing(files@, ignored@, s, k) implies exists|a: int|
                    0 <= a < out@.len() && #[trigger] out@[a].path@ == #[trigger] files@[k].path@ by {
                    if k == i {
                        assert(out@[prev.len() as int].path@ == files@[k].path@);
                    } else {
                        let a = choose|a: int| 0 <= a < prev.len() && #[trigger] prev[a].path@ == files@[k].path@;
                        assert(out@[a] == prev[a]);
                    }
                }
            }
        } else {
            proof {
                assert forall|k: int| 0 <= k < i + 1 && is_missing(files@, ignored@, s, k) implies exists|a: int|
                    0 <= a < out@.len() && #[trigger] out@[a].path@ == #[trigger] files@[k].path@ by {
                    if k == i {
                        let q = choose|q: int|
                            0 <= q < i && !ignored@[q] && #[trigger] files@[q].path@ == files@[i as int].path@;
                        assert(!in_catalog(s, files@[q].path@));
                        assert(is_missing(files@, ignored@, s, q));
                        let a = choose|a: int| 0 <= a < out@.len() && #[trigger] out@[a].path@ == files@[q].path@;
                        assert(out@[a].path@ == files@[k].path@);
                    }
                }
            }
        }
        i = i + 1;
    }
    proof {
        assert(files@.take(files@.len() as int) == files@);
        assert(flags.take(files@.len() as int) == flags);
        assert forall|k: int|
            0 <= k < files@.len() && is_missing(files@, ignored@, s, k) implies listed_once(
            out@,
            #[trigger] files@[k].path@,
        ) by {
            let a = choose|a: int| 0 <= a < out@.len() && #[trigger] out@[a].path@ == files@[k].path@;
            assert forall|b: int| 0 <= b < out@.len() && #[trigger] out@[b].path@ == files@[k].path@ implies b == a by {
                if b < a {
                    assert(out@[b].path@ != out@[a].path@);
                } else if a < b {
                    assert(out@[a].path@ != out@[b].path@);
                }
            }
        }
    }
    out
}

/// Some ignore pattern matches the path.
pub open spec fn is_ignored(patterns: Seq<Pattern>, path: Seq<char>) -> bool {
    exists|p: int| 0 <= p < patterns.len() && regex_finds(#[trigger] patterns[p].source(), path)
}

/// Whether each listed file matches an ignore pattern.
pub open spec fn ignored_flags(patterns: Seq<Pattern>, files: Seq<File>) -> Seq<bool> {
    Seq::new(files.len(), |i: int| is_ignored(patterns, files[i].path@))
}

/// The files of the movies directory that the catalog does not hold, from
/// the result of listing the directory, in listing order and each path once.
/// A failed listing is handed back as it came, never turned into an empty
/// result.
pub fn get_unrecognized_movies(listing: Result<Vec<File>, RpcError>, movies: &Vec<Movie>, analyzer: &Analyzer) -> (r:
    Result<Vec<File>, RpcError>)
    ensures
        match listing {
            Ok(files) => r matches Ok(out) && {
                let ig = ignored_flags(analyzer.ignore_patterns@, files@);
                &&& out@ == keep_flagged(files@, missing_flags(files@, ig, movies_view(movies@)))
                &&& forall|k: int|
                    0 <= k < files@.len() && is_missing(files@, ig, movies_view(movies@), k) ==> listed_once(
                        out@,
                        #[trigger] files@[k].path@,
                    )
            },
            Err(e) => r == Err::<Vec<File>, RpcError>(e),
        },
{
    match listing {
        Ok(files) => {
            let pats = &analyzer.ignore_patterns;
            let mut ignored: Vec<bool> = Vec::new();
            let mut i: usize = 0;
            while i < files.len()
                invariant
                    pats@ == analyzer.ignore_patterns@,
                    i <= files@.len(),
                    ignored@.len() == i,
                    forall|k: int| 0 <= k < i ==> #[trigger] ignored@[k] == is_ignored(pats@, files@[k].path@),
                decreases files@.len() - i,
            {
                let mut hit = false;
                let mut p: usize = 0;
                while p < pats.len()
                    invariant
                        i < files@.len(),
                        p <= pats@.len(),
                        hit == exists|q: int| 0 <= q < p && regex_finds(#[trigger] pats@[q].source(), files@[i as int].path@),
                    decreases pats@.len() - p,
                {
                    if pattern_finds(&pats[p], files[i].path.as_str()) {
                        hit = true;
                    }
                    p = p + 1;
                }
                ignored.push(hit);
                i = i + 1;
            }
            proof {
                assert(ignored@ =~= ignored_flags(analyzer.ignore_patterns@, files@));
            }
            Ok(find_missing_files(&files, &ignored, movies))
        },
        Err(e) => Err(e),
    }
}

} // verus!
