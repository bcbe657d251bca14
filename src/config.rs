//! The configuration that the engine reads: remote hosts, the movies
//! directory, the ignore patterns, the filename pattern and the threshold.
use vstd::prelude::*;

verus! {

/// A remote media-center server.
#[derive(Clone, Debug)]
pub struct Kodi {
    pub name: String,
    pub url: String,
}

/// The engine's configuration. The first host of `kodis` is the one used.
#[derive(Clone, Debug)]
pub struct Config {
    pub kodis: Vec<Kodi>,
    pub filepatterns_to_ignore: Vec<String>,
    pub movies_directory: String,
    pub name_differences_threshold: Option<usize>,
    pub movie_pattern: String,
}

/// The name-difference threshold that applies when none is configured.
pub const DEFAULT_NAME_DIFFERENCES_THRESHOLD: usize = 3;

/// The filename pattern that applies when none is configured: a lazy title,
/// then either a space, a four-digit year and an extension, or only an
/// extension.
pub fn get_default_movie_pattern() -> (r: String)
    ensures
        r@ == "(?P<title>.+?)( (?P<year>[0-9]{4})\\.[a-z0-9]{3,4}$|\\.[a-z0-9]{3,4}$)"@,
{
    String::from_str("(?P<title>.+?)( (?P<year>[0-9]{4})\\.[a-z0-9]{3,4}$|\\.[a-z0-9]{3,4}$)")
}

impl Default for Config {
    /// One local server, no ignore patterns, `/movies/` as the directory, the
    /// default threshold and the default filename pattern.
    fn default() -> (c: Config)
        ensures
            c.kodis@.len() == 1,
            c.kodis@[0].name@ == "localhost"@,
            c.kodis@[0].url@ == "http://localhost:8080"@,
            c.filepatterns_to_ignore@.len() == 0,
            c.movies_directory@ == "/movies/"@,
            c.name_differences_threshold is None,
            c.movie_pattern@ == "(?P<title>.+?)( (?P<year>[0-9]{4})\\.[a-z0-9]{3,4}$|\\.[a-z0-9]{3,4}$)"@,
    {
        let kodi = Kodi { name: String::from_str("localhost"), url: String::from_str("http://localhost:8080") };
        let mut kodis: Vec<Kodi> = Vec::new();
        kodis.push(kodi);
        Config {
            kodis,
            filepatterns_to_ignore: Vec::new(),
            movies_directory: String::from_str("/movies/"),
            name_differences_threshold: None,
            movie_pattern: get_default_movie_pattern(),
        }
    }
}

impl Config {
    /// The configured name-difference threshold, or the default one.
    pub fn name_threshold(&self) -> (r: usize)
        ensures
            r == match self.name_differences_threshold {
                Some(t) => t,
                None => DEFAULT_NAME_DIFFERENCES_THRESHOLD,
            },
    {
        match self.name_differences_threshold {
            Some(t) => t,
            None => DEFAULT_NAME_DIFFERENCES_THRESHOLD,
        }
    }
}

} // verus!
