use playlist_dl::record::{load_playlists, TrackRecord};
use playlist_dl::sanitize::{
    clean_query, compose_query, file_name_from, get_track_path, BASE_DIR, EXTENSION, FORBIDDEN,
    PUNCTUATION,
};

#[test]
fn clean_query_of_plain_names() {
    assert_eq!(clean_query("Song A", "Artist X").unwrap(), "Song A - Artist X official audio");
}

#[test]
fn clean_query_strips_punctuation() {
    assert_eq!(
        clean_query("Don't Stop (Live)!", "AC/DC").unwrap(),
        "Dont Stop Live - ACDC official audio"
    );
}

#[test]
fn clean_query_trims_what_is_left() {
    assert_eq!(clean_query("  Song - ", "(Artist) ").unwrap(), "Song - Artist official audio");
}

#[test]
fn clean_query_keeps_letters_digits_and_underscores() {
    assert_eq!(
        clean_query("Caf\u{e9}_99", "Bj\u{f6}rk").unwrap(),
        "Caf\u{e9}_99 - Bj\u{f6}rk official audio"
    );
}

#[test]
fn clean_query_of_nothing_but_punctuation() {
    assert_eq!(clean_query("!!!", "?").unwrap(), " -  official audio");
}

#[test]
fn compose_query_puts_the_parts_together() {
    assert_eq!(compose_query("a", "b"), "a - b official audio");
    assert_eq!(compose_query("", ""), " -  official audio");
}

#[test]
fn constants_are_as_documented() {
    assert_eq!(BASE_DIR, "playlists");
    assert_eq!(EXTENSION, ".mp3");
    assert_eq!(PUNCTUATION, r"[^\w\s]");
    assert_eq!(FORBIDDEN, r#"[\\/:"*?<>|]+"#);
}

#[test]
fn file_name_from_adds_the_extension() {
    assert_eq!(file_name_from("Song A"), "Song A.mp3");
    assert_eq!(file_name_from(""), ".mp3");
}

#[test]
fn track_path_of_plain_names() {
    let path = get_track_path("Artist X", "Album Y", "Song A").unwrap();
    assert_eq!(path.file_name, "Song A.mp3");
    let sep = std::path::MAIN_SEPARATOR;
    assert_eq!(path.album_dir, format!("playlists{sep}Album Y"));
    assert_eq!(path.file, format!("playlists{sep}Album Y{sep}Song A.mp3"));
    assert_eq!(path.template, format!("playlists{sep}Album Y{sep}Song A"));
}

#[test]
fn track_path_drops_forbidden_characters() {
    let path = get_track_path("x", "Album", "AC/DC: \"Back\\In\" <Black>? *|").unwrap();
    assert_eq!(path.file_name, "ACDC BackIn Black .mp3");
}

#[test]
fn track_path_ignores_the_artist() {
    let one = get_track_path("Artist X", "Album", "Song").unwrap();
    let other = get_track_path("", "Album", "Song").unwrap();
    assert_eq!(one.file, other.file);
    assert_eq!(one.template, other.template);
}

#[test]
fn track_path_keeps_inner_dots_in_the_template() {
    let path = get_track_path("x", "Album", "Mr. Blue Sky").unwrap();
    assert_eq!(path.file_name, "Mr. Blue Sky.mp3");
    assert!(path.template.ends_with("Mr. Blue Sky"));
    assert!(path.file.ends_with("Mr. Blue Sky.mp3"));
}

#[test]
fn track_path_agrees_with_std_paths() {
    let path = get_track_path("x", "Album Y", "Song: A?").unwrap();
    let expected = std::path::Path::new("playlists").join("Album Y").join("Song A.mp3");
    assert_eq!(std::path::Path::new(&path.file), expected.as_path());
    assert_eq!(std::path::Path::new(&path.album_dir), expected.parent().unwrap());
    assert_eq!(std::path::Path::new(&path.template), expected.with_extension("").as_path());
}

#[test]
fn track_path_clone_is_equal() {
    let path = get_track_path("x", "Album", "Song").unwrap();
    let copy = path.clone();
    assert_eq!(copy.file, path.file);
    assert_eq!(copy.file_name, path.file_name);
    assert_eq!(copy.album_dir, path.album_dir);
    assert_eq!(copy.template, path.template);
}

#[test]
fn record_new_and_clone() {
    let record = TrackRecord::new("Song A", "Artist X", "Album Y");
    assert_eq!(record.track_name, "Song A");
    assert_eq!(record.artist_name, "Artist X");
    assert_eq!(record.album_name, "Album Y");
    let copy = record.clone();
    assert_eq!(copy.track_name, "Song A");
    assert_eq!(copy.artist_name, "Artist X");
    assert_eq!(copy.album_name, "Album Y");
}

#[test]
fn record_label_names_artist_then_track() {
    let record = TrackRecord::new("Song A", "Artist X", "Album Y");
    assert_eq!(record.label(), "Artist X - Song A");
}

#[test]
fn record_with_both_names_is_dispatchable() {
    assert!(TrackRecord::new("Song A", "Artist X", "").is_dispatchable());
}

#[test]
fn record_without_track_or_artist_is_not_dispatchable() {
    assert!(!TrackRecord::new("", "Artist X", "Album Y").is_dispatchable());
    assert!(!TrackRecord::new("Song A", "", "Album Y").is_dispatchable());
    assert!(!TrackRecord::new("", "", "").is_dispatchable());
}

#[test]
fn record_with_blank_names_is_not_dispatchable() {
    assert!(!TrackRecord::new("  \t", "Artist X", "Album Y").is_dispatchable());
    assert!(!TrackRecord::new("Song A", "\n", "Album Y").is_dispatchable());
}

#[test]
fn load_playlists_leaves_out_unreadable_rows() {
    let rows = vec![
        Some(TrackRecord::new("a", "A", "1")),
        None,
        Some(TrackRecord::new("b", "B", "2")),
        None,
        None,
        Some(TrackRecord::new("", "C", "3")),
    ];
    let records = load_playlists(rows);
    let tracks: Vec<&str> = records.iter().map(|r| r.track_name.as_str()).collect();
    let artists: Vec<&str> = records.iter().map(|r| r.artist_name.as_str()).collect();
    assert_eq!(tracks, vec!["a", "b", ""]);
    assert_eq!(artists, vec!["A", "B", "C"]);
}

#[test]
fn load_playlists_of_nothing() {
    assert!(load_playlists(Vec::new()).is_empty());
    assert!(load_playlists(vec![None, None]).is_empty());
}
