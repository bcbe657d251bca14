use kodi_helper::analyze::{
    find_duplicates, find_missing_files, find_recognition_errors, get_duplicate_movies_list,
    get_recognition_errors_list, get_unrecognized_movies, recognition_error, select_flagged, starts_with, Analyzer,
};
use kodi_helper::config::{get_default_movie_pattern, Config, Kodi};
use kodi_helper::movie::{File, Movie, MovieRecord};
use kodi_helper::pattern::{ConfigError, Pattern};
use kodi_helper::rpc::RpcError;

fn movie(id: u16, title: &str, path: &str, premiered: &str) -> Movie {
    Movie::from_record(MovieRecord {
        id,
        title: title.to_string(),
        runtime: 100,
        file: path.to_string(),
        premiered: premiered.to_string(),
        rating: 0,
        playcount: 0,
        set: String::new(),
        dateadded: String::new(),
        poster: None,
        tags: vec![],
        genres: vec![],
        cast: vec![],
        video_heights: vec![],
    })
}

fn file(path: &str) -> File {
    File { path: path.to_string(), label: path.rsplit('/').next().unwrap().to_string() }
}

fn analyzer_with(ignore: Vec<&str>) -> Analyzer {
    let mut config = Config::default();
    config.filepatterns_to_ignore = ignore.into_iter().map(|s| s.to_string()).collect();
    Analyzer::new(&config).unwrap()
}

fn ids(v: &[Movie]) -> Vec<u16> {
    v.iter().map(|m| m.id).collect()
}

#[test]
fn default_config_values() {
    let c = Config::default();
    assert_eq!(c.kodis.len(), 1);
    assert_eq!(c.kodis[0].name, "localhost");
    assert_eq!(c.kodis[0].url, "http://localhost:8080");
    assert_eq!(c.movies_directory, "/movies/");
    assert_eq!(c.name_threshold(), 3);
    assert_eq!(c.movie_pattern, get_default_movie_pattern());
    assert_eq!(
        get_default_movie_pattern(),
        "(?P<title>.+?)( (?P<year>[0-9]{4})\\.[a-z0-9]{3,4}$|\\.[a-z0-9]{3,4}$)"
    );
}

#[test]
fn configured_threshold_wins() {
    let mut c = Config::default();
    c.name_differences_threshold = Some(5);
    assert_eq!(c.name_threshold(), 5);
    c.kodis.push(Kodi { name: "other".to_string(), url: "http://other".to_string() });
    assert_eq!(Analyzer::new(&c).unwrap().threshold, 5);
}

#[test]
fn invalid_ignore_pattern_is_a_config_error() {
    let mut c = Config::default();
    c.filepatterns_to_ignore = vec!["ok".to_string(), "(unclosed".to_string()];
    match Analyzer::new(&c) {
        Err(ConfigError::InvalidPattern(p)) => assert_eq!(p, "(unclosed"),
        Ok(_) => panic!("pattern accepted"),
    }
}

#[test]
fn analyzer_anchors_the_filename_pattern() {
    let a = analyzer_with(vec![]);
    assert_eq!(a.movie_pattern.as_str(), format!("^/movies/{}", get_default_movie_pattern()));
    assert!(Pattern::new("[").is_err());
}

#[test]
fn dune_with_distinct_years_is_not_duplicate() {
    let movies = vec![
        movie(1, "Dune", "/movies/Dune 1984.mkv", "1984-12-14"),
        movie(2, "Dune", "/movies/Dune 2021.mkv", "2021-10-22"),
    ];
    assert!(get_duplicate_movies_list(&movies, &analyzer_with(vec![])).is_empty());
}

#[test]
fn dune_with_same_year_is_duplicate() {
    let movies = vec![
        movie(1, "Dune", "/movies/Dune 2021.mkv", "2021-10-22"),
        movie(2, "Alien", "/movies/Alien 1979.mkv", "1979-05-25"),
        movie(3, "Dune", "/movies/Dune 2021.avi", "2021-10-22"),
    ];
    assert_eq!(ids(&get_duplicate_movies_list(&movies, &analyzer_with(vec![]))), vec![1, 3]);
}

#[test]
fn missing_year_makes_a_group_duplicate() {
    let movies = vec![
        movie(1, "Dune", "/movies/Dune.mkv", "2021-10-22"),
        movie(2, "Dune", "/movies/Dune 2021.mkv", "2021-10-22"),
        movie(3, "Solo", "/movies/Solo.mkv", "2018-05-25"),
    ];
    assert_eq!(ids(&get_duplicate_movies_list(&movies, &analyzer_with(vec![]))), vec![1, 2]);
}

#[test]
fn duplicates_from_given_years() {
    let movies = vec![
        movie(1, "A", "", ""),
        movie(2, "A", "", ""),
        movie(3, "B", "", ""),
        movie(4, "B", "", ""),
        movie(5, "B", "", ""),
    ];
    let years = vec![
        Some("1990".to_string()),
        Some("1991".to_string()),
        Some("2000".to_string()),
        Some("2001".to_string()),
        Some("2000".to_string()),
    ];
    assert_eq!(ids(&find_duplicates(&movies, &years)), vec![3, 4, 5]);
    assert!(find_duplicates(&vec![], &vec![]).is_empty());
}

#[test]
fn matrix_with_small_typo_is_not_flagged() {
    let movies = vec![movie(1, "The Matrix", "/movies/Te Matrx 1999.mkv", "1999-03-31")];
    assert!(get_recognition_errors_list(&movies, &analyzer_with(vec![])).is_empty());
}

#[test]
fn matrix_with_other_filename_title_is_flagged() {
    let movies = vec![
        movie(1, "The Matrix", "/movies/Totally Different Name 1999.mkv", "1999-03-31"),
        movie(2, "The Matrix", "/movies/Totally Different Name 2003.mkv", "1999-03-31"),
    ];
    assert_eq!(ids(&get_recognition_errors_list(&movies, &analyzer_with(vec![]))), vec![1, 2]);
}

#[test]
fn year_mismatch_alone_is_flagged() {
    let movies = vec![movie(1, "The Matrix", "/movies/The Matrix 2003.mkv", "1999-03-31")];
    assert_eq!(ids(&get_recognition_errors_list(&movies, &analyzer_with(vec![]))), vec![1]);
}

#[test]
fn recognition_rule_on_given_values() {
    assert!(!recognition_error(2, 3, "1999-03-31", "1999"));
    assert!(!recognition_error(3, 3, "1999-03-31", ""));
    assert!(recognition_error(4, 3, "1999-03-31", "1999"));
    assert!(recognition_error(0, 3, "1999-03-31", "2003"));
    assert!(starts_with("1999-03-31", "1999"));
    assert!(!starts_with("199", "1999"));
    let movies = vec![movie(1, "X", "", "2001-01-01"), movie(2, "Y", "", "2002-01-01")];
    let r = find_recognition_errors(&movies, &vec![0, 9], &vec!["2001".to_string(), "2002".to_string()], 3);
    assert_eq!(ids(&r), vec![2]);
}

#[test]
fn select_flagged_keeps_order() {
    let movies = vec![movie(1, "A", "", ""), movie(2, "B", "", ""), movie(3, "C", "", "")];
    assert_eq!(ids(&select_flagged(&movies, &vec![true, false, true])), vec![1, 3]);
}

#[test]
fn ignored_file_is_not_missing_and_unknown_file_appears_once() {
    let movies = vec![movie(1, "Dune", "/movies/Dune 2021.mkv", "2021-10-22")];
    let listing = vec![
        file("/movies/Dune 2021.mkv"),
        file("/movies/readme.nfo"),
        file("/movies/New 2020.mkv"),
    ];
    let a = analyzer_with(vec!["\\.nfo$"]);
    let missing = get_unrecognized_movies(Ok(listing), &movies, &a).unwrap();
    let paths: Vec<&str> = missing.iter().map(|f| f.path.as_str()).collect();
    assert_eq!(paths, vec!["/movies/New 2020.mkv"]);
    assert_eq!(missing[0].label, "New 2020.mkv");
}

#[test]
fn failed_listing_is_an_error_not_an_empty_result() {
    let movies = vec![movie(1, "Dune", "/movies/Dune 2021.mkv", "2021-10-22")];
    let r = get_unrecognized_movies(Err(RpcError::Transport("timeout".to_string())), &movies, &analyzer_with(vec![]));
    assert!(matches!(r, Err(RpcError::Transport(ref m)) if m == "timeout"));
}

#[test]
fn missing_files_from_given_flags() {
    let movies = vec![movie(1, "A", "/m/a.mkv", "")];
    let files = vec![file("/m/a.mkv"), file("/m/b.mkv"), file("/m/c.mkv")];
    let r = find_missing_files(&files, &vec![false, true, false], &movies);
    let paths: Vec<&str> = r.iter().map(|f| f.path.as_str()).collect();
    assert_eq!(paths, vec!["/m/c.mkv"]);
}

#[test]
fn file_listed_twice_is_missing_once() {
    let movies: Vec<Movie> = vec![];
    let listing = vec![file("/movies/New 2020.mkv"), file("/movies/Other.mkv"), file("/movies/New 2020.mkv")];
    let missing = get_unrecognized_movies(Ok(listing), &movies, &analyzer_with(vec![])).unwrap();
    let paths: Vec<&str> = missing.iter().map(|f| f.path.as_str()).collect();
    assert_eq!(paths, vec!["/movies/New 2020.mkv", "/movies/Other.mkv"]);
}

#[test]
fn repeated_path_after_an_ignored_entry_is_reported() {
    let movies: Vec<Movie> = vec![];
    let files = vec![file("/m/a.mkv"), file("/m/a.mkv"), file("/m/a.mkv")];
    let r = find_missing_files(&files, &vec![true, false, false], &movies);
    assert_eq!(r.len(), 1);
    assert_eq!(r[0].path, "/m/a.mkv");
}
