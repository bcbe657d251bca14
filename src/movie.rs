//! The catalog's data model: movies, cast members, remote files, resolutions.
use vstd::prelude::*;
use vstd::utf8::encode_utf8;

verus! {

/// The resolution category derived from a video stream's height.
#[derive(Clone, Copy, Debug, PartialEq, Eq, Structural)]
pub enum Resolution {
    Sd,
    Hd720p,
    Hd1080p,
    Uhd4k,
    Uhd8k,
}

/// The category of a video stream of the given height.
pub open spec fn resolution_of_height(height: int) -> Resolution {
    if height < 600 {
        Resolution::Sd
    } else if height <= 720 {
        Resolution::Hd720p
    } else if height <= 1080 {
        Resolution::Hd1080p
    } else if height <= 2160 {
        Resolution::Uhd4k
    } else {
        Resolution::Uhd8k
    }
}

/// The resolution of a movie whose video streams have the given heights, in
/// the order the server lists them: the first stream decides, and a movie
/// without a video stream has none.
pub open spec fn resolution_of_streams(heights: Seq<u16>) -> Option<Resolution> {
    if heights.len() == 0 {
        None
    } else {
        Some(resolution_of_height(heights[0] as int))
    }
}

/// Maps a video height to its resolution category.
pub fn resolution_from_height(height: u16) -> (r: Resolution)
    ensures
        r == resolution_of_height(height as int),
{
    if height < 600 {
        Resolution::Sd
    } else if height <= 720 {
        Resolution::Hd720p
    } else if height <= 1080 {
        Resolution::Hd1080p
    } else if height <= 2160 {
        Resolution::Uhd4k
    } else {
        Resolution::Uhd8k
    }
}

/// The resolution of a movie from its video streams' heights.
pub fn resolution_from_streams(heights: &Vec<u16>) -> (r: Option<Resolution>)
    ensures
        r == resolution_of_streams(heights@),
{
    if heights.len() == 0 {
        None
    } else {
        Some(resolution_from_height(heights[0]))
    }
}

/// A member of a movie's cast.
#[derive(Clone, Debug)]
pub struct Cast {
    pub name: String,
    pub role: String,
    pub thumbnail: Option<String>,
}

/// An entry of a directory listing on the remote server.
#[derive(Clone, Debug)]
pub struct File {
    pub path: String,
    pub label: String,
}

/// One entry of the catalog.
///
/// `rating` is held in hundredths of a point (a rating of 7.25 is 725).
#[derive(Clone, Debug)]
pub struct Movie {
    pub id: u16,
    pub title: String,
    pub runtime: u16,
    pub path: String,
    pub premiered: String,
    pub resolution: Option<Resolution>,
    pub poster: Option<String>,
    pub rating: u32,
    pub playcount: u8,
    pub set: Option<String>,
    pub dateadded: String,
    pub tags: Vec<String>,
    pub genres: Vec<String>,
    pub cast: Vec<Cast>,
}

/// A movie as the remote server describes it, before the catalog derives
/// its resolution, encodes its poster and reads its set.
///
/// `video_heights` lists the heights of the video streams in the server's
/// order; an empty `set` means that the movie belongs to no set.
#[derive(Clone, Debug)]
pub struct MovieRecord {
    pub id: u16,
    pub title: String,
    pub runtime: u16,
    pub file: String,
    pub premiered: String,
    pub rating: u32,
    pub playcount: u8,
    pub set: String,
    pub dateadded: String,
    pub poster: Option<String>,
    pub tags: Vec<String>,
    pub genres: Vec<String>,
    pub cast: Vec<Cast>,
    pub video_heights: Vec<u16>,
}

/// What a movie holds, with its strings seen as character sequences.
pub struct MovieView {
    pub id: u16,
    pub title: Seq<char>,
    pub runtime: u16,
    pub path: Seq<char>,
    pub premiered: Seq<char>,
    pub resolution: Option<Resolution>,
    pub poster: Option<Seq<char>>,
    pub rating: u32,
    pub playcount: u8,
    pub set: Option<Seq<char>>,
    pub dateadded: Seq<char>,
    pub tags: Seq<String>,
    pub genres: Seq<String>,
    pub cast: Seq<Cast>,
}

/// The characters of an optional string.
pub open spec fn opt_chars(o: Option<String>) -> Option<Seq<char>> {
    match o {
        Some(s) => Some(s@),
        None => None,
    }
}

impl View for Movie {
    type V = MovieView;

    open spec fn view(&self) -> MovieView {
        MovieView {
            id: self.id,
            title: self.title@,
            runtime: self.runtime,
            path: self.path@,
            premiered: self.premiered@,
            resolution: self.resolution,
            poster: opt_chars(self.poster),
            rating: self.rating,
            playcount: self.playcount,
            set: opt_chars(self.set),
            dateadded: self.dateadded@,
            tags: self.tags@,
            genres: self.genres@,
            cast: self.cast@,
        }
    }
}

/// The views of a list of movies.
pub open spec fn movies_view(s: Seq<Movie>) -> Seq<MovieView> {
    s.map_values(|m: Movie| m@)
}

/// Whether a byte is an ASCII letter or digit.
pub open spec fn is_ascii_alphanumeric(b: u8) -> bool {
    (48 <= b <= 57) || (65 <= b <= 90) || (97 <= b <= 122)
}

/// The upper-case hexadecimal digit of a value below 16.
pub open spec fn hex_upper(n: u8) -> char {
    seq!['0', '1', '2', '3', '4', '5', '6', '7', '8', '9', 'A', 'B', 'C', 'D', 'E', 'F'][n as int]
}

/// Percent-encoding of bytes: an ASCII letter or digit stands for itself,
/// every other byte becomes `%` followed by its two upper-case hex digits.
pub open spec fn percent_encoded(bytes: Seq<u8>) -> Seq<char>
    decreases bytes.len(),
{
    if bytes.len() == 0 {
        Seq::empty()
    } else {
        let b = bytes[0];
        let head = if is_ascii_alphanumeric(b) {
            seq![b as char]
        } else {
            seq!['%', hex_upper(b / 16), hex_upper(b % 16)]
        };
        head + percent_encoded(bytes.drop_first())
    }
}

/// Relies on `percent_encoding::percent_encode` with the `NON_ALPHANUMERIC`
/// set, written out with `to_string`: each byte of the UTF-8 encoding that is
/// not an ASCII letter or digit becomes `%XX` with upper-case hex digits.
#[verifier::external_body]
fn percent_encode_url(url: &str) -> (r: String)
    ensures
        r@ == percent_encoded(encode_utf8(url@)),
{
    percent_encoding::percent_encode(url.as_bytes(), percent_encoding::NON_ALPHANUMERIC).to_string()
}

/// The characters of a set name as the server reports it: empty means none.
pub open spec fn set_of_record(set: Seq<char>) -> Option<Seq<char>> {
    if set.len() == 0 {
        None
    } else {
        Some(set)
    }
}

/// The catalog entry that a server record becomes.
pub open spec fn movie_of_record(r: MovieRecord) -> MovieView {
    MovieView {
        id: r.id,
        title: r.title@,
        runtime: r.runtime,
        path: r.file@,
        premiered: r.premiered@,
        resolution: resolution_of_streams(r.video_heights@),
        poster: match r.poster {
            Some(p) => Some(percent_encoded(encode_utf8(p@))),
            None => None,
        },
        rating: r.rating,
        playcount: r.playcount,
        set: set_of_record(r.set@),
        dateadded: r.dateadded@,
        tags: r.tags@,
        genres: r.genres@,
        cast: r.cast@,
    }
}

impl Movie {
    /// Builds a catalog entry from a server record.
    pub fn from_record(r: MovieRecord) -> (m: Movie)
        ensures
            m@ == movie_of_record(r),
    {
        let resolution = resolution_from_streams(&r.video_heights);
        let poster = match &r.poster {
            Some(p) => Some(percent_encode_url(p.as_str())),
            None => None,
        };
        let set = if r.set.as_str().is_empty() {
            None
        } else {
            Some(r.set)
        };
        Movie {
            id: r.id,
            title: r.title,
            runtime: r.runtime,
            path: r.file,
            premiered: r.premiered,
            resolution,
            poster,
            rating: r.rating,
            playcount: r.playcount,
            set,
            dateadded: r.dateadded,
            tags: r.tags,
            genres: r.genres,
            cast: r.cast,
        }
    }
}

/// A copy of an optional string.
fn copy_opt_string(o: &Option<String>) -> (r: Option<String>)
    ensures
        r == *o,
{
    match o {
        Some(s) => Some(s.clone()),
        None => None,
    }
}

/// A copy of a list of strings.
pub(crate) fn copy_strings(v: &Vec<String>) -> (r: Vec<String>)
    ensures
        r@ == v@,
{
    let mut r: Vec<String> = Vec::new();
    let mut i: usize = 0;
    while i < v.len()
        invariant
            i <= v@.len(),
            r@ == v@.take(i as int),
        decreases v@.len() - i,
    {
        r.push(v[i].clone());
        proof {
            assert(v@.take(i + 1) == v@.take(i as int).push(v@[i as int]));
        }
        i = i + 1;
    }
    proof {
        assert(v@.take(v@.len() as int) == v@);
    }
    r
}

impl Cast {
    /// A copy of the cast member.
    pub fn copy(&self) -> (r: Cast)
        ensures
            r == *self,
    {
        Cast { name: self.name.clone(), role: self.role.clone(), thumbnail: copy_opt_string(&self.thumbnail) }
    }
}

impl File {
    /// A copy of the file entry.
    pub fn copy(&self) -> (r: File)
        ensures
            r == *self,
    {
        File { path: self.path.clone(), label: self.label.clone() }
    }
}

/// A copy of a cast list.
fn copy_cast_list(v: &Vec<Cast>) -> (r: Vec<Cast>)
    ensures
        r@ == v@,
{
    let mut r: Vec<Cast> = Vec::new();
    let mut i: usize = 0;
    while i < v.len()
        invariant
            i <= v@.len(),
            r@ == v@.take(i as int),
        decreases v@.len() - i,
    {
        r.push(v[i].copy());
        proof {
            assert(v@.take(i + 1) == v@.take(i as int).push(v@[i as int]));
        }
        i = i + 1;
    }
    proof {
        assert(v@.take(v@.len() as int) == v@);
    }
    r
}

impl Movie {
    /// A copy of the movie, equal to it in every field.
    pub fn copy(&self) -> (r: Movie)
        ensures
            r@ == self@,
    {
        Movie {
            id: self.id,
            title: self.title.clone(),
            runtime: self.runtime,
            path: self.path.clone(),
            premiered: self.premiered.clone(),
            resolution: self.resolution,
            poster: copy_opt_string(&self.poster),
            rating: self.rating,
            playcount: self.playcount,
            set: copy_opt_string(&self.set),
            dateadded: self.dateadded.clone(),
            tags: copy_strings(&self.tags),
            genres: copy_strings(&self.genres),
            cast: copy_cast_list(&self.cast),
        }
    }
}

} // verus!
