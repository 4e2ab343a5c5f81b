use album_tagger::metadata::{
    copy_tracks, default_track, defaults_from, names_match, position_of_name,
    recorded_file_names, track_defaults, AlbumMetadata, TrackMetadata,
};

fn track(path: &str, name: &str, number: &str) -> TrackMetadata {
    TrackMetadata { path: path.to_string(), name: name.to_string(), number: number.to_string() }
}

#[test]
fn default_album_is_empty() {
    let album = AlbumMetadata::default();
    assert_eq!(album.album, None);
    assert_eq!(album.year, None);
    assert_eq!(album.genre, None);
    assert!(album.authors.is_empty());
    assert_eq!(album.cover_image, None);
    assert!(album.tracks.is_empty());
}

#[test]
fn copies_are_equal_to_what_was_copied() {
    let album = AlbumMetadata {
        album: Some("Low".to_string()),
        year: None,
        genre: Some("Rock".to_string()),
        authors: vec!["Ann".to_string(), "Bob".to_string()],
        cover_image: Some("/c.png".to_string()),
        tracks: vec![track("/m/a.mp3", "A", "1"), track("/m/b.mp3", "B", "2/2")],
    };
    assert_eq!(album.copy(), album);
    assert_eq!(copy_tracks(&album.tracks), album.tracks);
    assert_eq!(album.tracks[1].copy(), album.tracks[1]);
}

#[test]
fn defaults_are_found_by_file_name_whatever_the_directory() {
    let cached = vec![track("/music/old/b.mp3", "Second", "2/12")];
    assert_eq!(default_track(&cached, "b.mp3"), Some(0));
    assert_eq!(
        track_defaults(&cached, "b.mp3"),
        ("Second".to_string(), "2/12".to_string())
    );
}

#[test]
fn no_defaults_for_an_unknown_file_name() {
    let cached = vec![track("/music/old/b.mp3", "Second", "2")];
    assert_eq!(default_track(&cached, "a.mp3"), None);
    assert_eq!(default_track(&cached, "old"), None);
    assert_eq!(default_track(&cached, "/music/old/b.mp3"), None);
    assert_eq!(track_defaults(&cached, "a.mp3"), (String::new(), String::new()));
    assert_eq!(track_defaults(&Vec::new(), "a.mp3"), (String::new(), String::new()));
}

#[test]
fn the_first_track_of_a_file_name_wins() {
    let cached = vec![
        track("/x/a.mp3", "A", "1"),
        track("/x/b.mp3", "B first", "2"),
        track("/y/b.mp3", "B second", "3"),
    ];
    assert_eq!(default_track(&cached, "b.mp3"), Some(1));
    assert_eq!(track_defaults(&cached, "b.mp3"), ("B first".to_string(), "2".to_string()));
}

#[test]
fn file_names_are_case_sensitive() {
    let cached = vec![track("/x/B.mp3", "B", "2")];
    assert_eq!(default_track(&cached, "b.mp3"), None);
    assert_eq!(default_track(&cached, "B.mp3"), Some(0));
}

#[test]
fn recorded_file_names_are_the_final_components() {
    let cached = vec![
        track("/x/a.mp3", "", ""),
        track("b.m4a", "", ""),
        track("/", "", ""),
        track("x/..", "", ""),
        track("dir/c.mp3/", "", ""),
    ];
    assert_eq!(
        recorded_file_names(&cached),
        vec![
            Some("a.mp3".to_string()),
            Some("b.m4a".to_string()),
            None,
            None,
            Some("c.mp3".to_string()),
        ]
    );
}

#[test]
fn position_of_name_finds_the_first_place() {
    let names = vec![None, Some("a".to_string()), Some("b".to_string()), Some("a".to_string())];
    assert_eq!(position_of_name(&names, "a"), Some(1));
    assert_eq!(position_of_name(&names, "b"), Some(2));
    assert_eq!(position_of_name(&names, "c"), None);
    assert_eq!(position_of_name(&names, ""), None);
    assert_eq!(position_of_name(&Vec::new(), "a"), None);
}

#[test]
fn names_match_only_equal_names() {
    assert!(names_match(&Some("a.mp3".to_string()), "a.mp3"));
    assert!(!names_match(&Some("a.mp3".to_string()), "a.mp"));
    assert!(!names_match(&Some("".to_string()), "a"));
    assert!(names_match(&Some("".to_string()), ""));
    assert!(!names_match(&None, ""));
}

#[test]
fn defaults_from_goes_by_the_names_given() {
    let cached = vec![track("/x/a.mp3", "A", "1"), track("/x/b.mp3", "B", "2")];
    let names = vec![Some("b.mp3".to_string()), Some("a.mp3".to_string())];
    assert_eq!(defaults_from(&cached, &names, "b.mp3"), ("A".to_string(), "1".to_string()));
    assert_eq!(defaults_from(&cached, &names, "a.mp3"), ("B".to_string(), "2".to_string()));
    assert_eq!(defaults_from(&cached, &names, "c.mp3"), (String::new(), String::new()));
}

#[test]
fn defaults_from_offers_nothing_for_a_name_without_a_track() {
    let cached = vec![track("/x/a.mp3", "A", "1")];
    let names = vec![None, Some("b.mp3".to_string())];
    assert_eq!(defaults_from(&cached, &names, "b.mp3"), (String::new(), String::new()));
    assert_eq!(defaults_from(&cached, &Vec::new(), "a.mp3"), (String::new(), String::new()));
}
