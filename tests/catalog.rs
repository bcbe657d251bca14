use kodi_helper::catalog::{build_catalog, get_movie_list, set_movie_tags, update_movie_list, Catalog};
use kodi_helper::movie::{resolution_from_height, resolution_from_streams, Movie, MovieRecord, Resolution};
use kodi_helper::order::{sort_by_title, title_le_exec};
use kodi_helper::rpc::{RpcError, RpcErrorData};
use kodi_helper::sets::movie_list_cleanup;

fn record(id: u16, title: &str, set: &str) -> MovieRecord {
    MovieRecord {
        id,
        title: title.to_string(),
        runtime: 120,
        file: format!("/movies/{} 2000.mkv", title),
        premiered: "2000-01-01".to_string(),
        rating: 700,
        playcount: 0,
        set: set.to_string(),
        dateadded: "2020-01-01".to_string(),
        poster: None,
        tags: vec![],
        genres: vec![],
        cast: vec![],
        video_heights: vec![1080],
    }
}

fn movie(id: u16, title: &str, set: Option<&str>) -> Movie {
    let mut m = Movie::from_record(record(id, title, ""));
    m.set = set.map(|s| s.to_string());
    m
}

#[test]
fn resolution_of_reference_heights() {
    assert_eq!(resolution_from_height(480), Resolution::Sd);
    assert_eq!(resolution_from_height(720), Resolution::Hd720p);
    assert_eq!(resolution_from_height(1080), Resolution::Hd1080p);
    assert_eq!(resolution_from_height(2160), Resolution::Uhd4k);
    assert_eq!(resolution_from_height(4320), Resolution::Uhd8k);
}

#[test]
fn resolution_thresholds() {
    assert_eq!(resolution_from_height(599), Resolution::Sd);
    assert_eq!(resolution_from_height(600), Resolution::Hd720p);
    assert_eq!(resolution_from_height(721), Resolution::Hd1080p);
    assert_eq!(resolution_from_height(1081), Resolution::Uhd4k);
    assert_eq!(resolution_from_height(2161), Resolution::Uhd8k);
}

#[test]
fn resolution_from_first_stream_or_none() {
    assert_eq!(resolution_from_streams(&vec![]), None);
    assert_eq!(resolution_from_streams(&vec![720, 2160]), Some(Resolution::Hd720p));
}

#[test]
fn record_conversion_reads_set_and_encodes_poster() {
    let mut r = record(7, "Alien", "");
    r.poster = Some("image://http://x/a b.jpg/".to_string());
    r.video_heights = vec![];
    let m = Movie::from_record(r);
    assert_eq!(m.set, None);
    assert_eq!(m.resolution, None);
    assert_eq!(m.path, "/movies/Alien 2000.mkv");
    assert_eq!(m.poster.as_deref(), Some("image%3A%2F%2Fhttp%3A%2F%2Fx%2Fa%20b%2Ejpg%2F"));
    let m2 = Movie::from_record(record(8, "Aliens", "Alien Collection"));
    assert_eq!(m2.set.as_deref(), Some("Alien Collection"));
}

#[test]
fn lone_set_is_cleared_and_shared_set_kept() {
    let list = vec![
        movie(1, "A", Some("Trilogy")),
        movie(2, "B", Some("Saga")),
        movie(3, "C", Some("Saga")),
        movie(4, "D", None),
    ];
    let out = movie_list_cleanup(list);
    assert_eq!(out.len(), 4);
    assert_eq!(out[0].set, None);
    assert_eq!(out[1].set.as_deref(), Some("Saga"));
    assert_eq!(out[2].set.as_deref(), Some("Saga"));
    assert_eq!(out[3].set, None);
    assert_eq!(out[0].title, "A");
}

#[test]
fn cleanup_twice_equals_cleanup_once() {
    let list = vec![
        movie(1, "A", Some("X")),
        movie(2, "B", Some("Y")),
        movie(3, "C", Some("X")),
        movie(4, "D", Some("Z")),
    ];
    let once = movie_list_cleanup(list);
    let once_sets: Vec<Option<String>> = once.iter().map(|m| m.set.clone()).collect();
    let twice = movie_list_cleanup(once);
    let twice_sets: Vec<Option<String>> = twice.iter().map(|m| m.set.clone()).collect();
    assert_eq!(once_sets, twice_sets);
    assert_eq!(twice_sets, vec![Some("X".to_string()), None, Some("X".to_string()), None]);
}

#[test]
fn cleanup_of_empty_list() {
    assert!(movie_list_cleanup(vec![]).is_empty());
}

#[test]
fn titles_compare_by_bytes() {
    assert!(title_le_exec("Alien", "Aliens"));
    assert!(!title_le_exec("Aliens", "Alien"));
    assert!(title_le_exec("Zoo", "Zoo"));
    assert!(title_le_exec("Zoo", "a"));
    assert!(!title_le_exec("b", "a"));
}

#[test]
fn sort_orders_titles() {
    let list = vec![movie(1, "Dune", None), movie(2, "Alien", None), movie(3, "Dune", None), movie(4, "Brazil", None)];
    let out = sort_by_title(list);
    let titles: Vec<&str> = out.iter().map(|m| m.title.as_str()).collect();
    assert_eq!(titles, vec!["Alien", "Brazil", "Dune", "Dune"]);
    let mut ids: Vec<u16> = out.iter().map(|m| m.id).collect();
    ids.sort();
    assert_eq!(ids, vec![1, 2, 3, 4]);
}

#[test]
fn build_catalog_sorts_and_normalizes() {
    let recs = vec![record(1, "Zed", "Solo"), record(2, "Alpha", "Pair"), record(3, "Mid", "Pair")];
    let c = build_catalog(recs);
    let titles: Vec<&str> = c.iter().map(|m| m.title.as_str()).collect();
    assert_eq!(titles, vec!["Alpha", "Mid", "Zed"]);
    assert_eq!(c[0].set.as_deref(), Some("Pair"));
    assert_eq!(c[1].set.as_deref(), Some("Pair"));
    assert_eq!(c[2].set, None);
}

#[test]
fn failed_refresh_keeps_previous_catalog() {
    let mut cat = Catalog::new();
    assert!(update_movie_list(&mut cat, Ok(vec![record(2, "B", ""), record(1, "A", "")])).is_ok());
    let before: Vec<(u16, String)> = get_movie_list(&cat).iter().map(|m| (m.id, m.title.clone())).collect();
    assert_eq!(before, vec![(1, "A".to_string()), (2, "B".to_string())]);
    let r = update_movie_list(&mut cat, Err(RpcError::Transport("connection refused".to_string())));
    assert!(matches!(r, Err(RpcError::Transport(ref m)) if m == "connection refused"));
    let after: Vec<(u16, String)> = get_movie_list(&cat).iter().map(|m| (m.id, m.title.clone())).collect();
    assert_eq!(after, before);
}

#[test]
fn successful_refresh_replaces_catalog() {
    let mut cat = Catalog::new();
    assert!(get_movie_list(&cat).is_empty());
    update_movie_list(&mut cat, Ok(vec![record(1, "A", "")])).unwrap();
    update_movie_list(&mut cat, Ok(vec![record(5, "E", "")])).unwrap();
    let ids: Vec<u16> = get_movie_list(&cat).iter().map(|m| m.id).collect();
    assert_eq!(ids, vec![5]);
}

#[test]
fn set_tags_changes_only_that_movie() {
    let mut cat = Catalog::new();
    update_movie_list(&mut cat, Ok(vec![record(1, "A", ""), record(2, "B", "")])).unwrap();
    set_movie_tags(&mut cat, 2, &vec!["watched".to_string(), "4k".to_string()]);
    let list = get_movie_list(&cat);
    assert!(list[0].tags.is_empty());
    assert_eq!(list[1].tags, vec!["watched".to_string(), "4k".to_string()]);
    set_movie_tags(&mut cat, 9, &vec!["none".to_string()]);
    assert!(get_movie_list(&cat)[0].tags.is_empty());
}

#[test]
fn error_descriptions() {
    let e = RpcError::Remote {
        message: "Invalid params".to_string(),
        data: Some(RpcErrorData { method: "VideoLibrary.Scan".to_string(), message: "bad".to_string() }),
    };
    assert_eq!(e.describe(), "Invalid params when calling VideoLibrary.Scan: bad");
    let e = RpcError::Remote { message: "Oops".to_string(), data: None };
    assert_eq!(e.describe(), "Oops ");
    assert_eq!(RpcError::Transport("down".to_string()).describe(), "down");
}
