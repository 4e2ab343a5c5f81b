use album_tagger::tracks::{
    enumerate_tracks, file_names, is_audio_extension, is_audio_name, select_audio, sort_paths,
    track_files, DirEntry, TrackFile,
};

fn file(path: &str) -> DirEntry {
    DirEntry { path: path.to_string(), is_file: true }
}

fn dir(path: &str) -> DirEntry {
    DirEntry { path: path.to_string(), is_file: false }
}

fn strings(items: &[&str]) -> Vec<String> {
    items.iter().map(|s| s.to_string()).collect()
}

#[test]
fn audio_files_are_listed_in_ascending_order() {
    let entries = vec![file("b.mp3"), file("a.mp3"), file("c.m4a"), file("notes.txt")];
    assert_eq!(enumerate_tracks(&entries), strings(&["a.mp3", "b.mp3", "c.m4a"]));
}

#[test]
fn audio_files_of_a_directory_keep_their_paths() {
    let entries = vec![
        file("/music/album/02 - second.mp3"),
        file("/music/album/album.toml"),
        file("/music/album/01 - first.m4a"),
        dir("/music/album/tagged"),
    ];
    assert_eq!(
        enumerate_tracks(&entries),
        strings(&["/music/album/01 - first.m4a", "/music/album/02 - second.mp3"])
    );
}

#[test]
fn no_audio_files_give_an_empty_list() {
    assert!(enumerate_tracks(&Vec::new()).is_empty());
    assert!(enumerate_tracks(&vec![file("notes.txt"), file("cover.png")]).is_empty());
}

#[test]
fn extensions_are_case_sensitive() {
    let entries = vec![file("a.MP3"), file("b.Mp3"), file("c.M4A"), file("d.mp3")];
    assert_eq!(enumerate_tracks(&entries), strings(&["d.mp3"]));
}

#[test]
fn only_regular_files_are_tracks() {
    let entries = vec![dir("a.mp3"), file("b.mp3"), dir("c.m4a")];
    assert_eq!(enumerate_tracks(&entries), strings(&["b.mp3"]));
}

#[test]
fn only_the_last_extension_counts() {
    let entries = vec![
        file("a.mp3.txt"),
        file("b.txt.mp3"),
        file(".mp3"),
        file("mp3"),
        file("c.mp3x"),
        file("d.m4a."),
        file("..m4a"),
    ];
    assert_eq!(enumerate_tracks(&entries), strings(&["..m4a", "b.txt.mp3"]));
}

#[test]
fn a_file_listed_twice_is_a_track_twice() {
    let entries = vec![file("b.mp3"), file("a.mp3"), file("b.mp3")];
    assert_eq!(enumerate_tracks(&entries), strings(&["a.mp3", "b.mp3", "b.mp3"]));
}

#[test]
fn is_audio_extension_knows_two_extensions() {
    assert!(is_audio_extension(&Some("mp3".to_string())));
    assert!(is_audio_extension(&Some("m4a".to_string())));
    assert!(!is_audio_extension(&Some("MP3".to_string())));
    assert!(!is_audio_extension(&Some("mp4".to_string())));
    assert!(!is_audio_extension(&Some("".to_string())));
    assert!(!is_audio_extension(&Some(".mp3".to_string())));
    assert!(!is_audio_extension(&None));
}

#[test]
fn is_audio_name_goes_by_the_extension_of_the_name() {
    assert!(is_audio_name(&Some("a.mp3".to_string())));
    assert!(is_audio_name(&Some("a.b.m4a".to_string())));
    assert!(is_audio_name(&Some("..mp3".to_string())));
    assert!(!is_audio_name(&Some(".mp3".to_string())));
    assert!(!is_audio_name(&Some("mp3".to_string())));
    assert!(!is_audio_name(&Some("a.mp3.bak".to_string())));
    assert!(!is_audio_name(&Some("a.MP3".to_string())));
    assert!(!is_audio_name(&Some("".to_string())));
    assert!(!is_audio_name(&None));
}

#[test]
fn file_names_gives_one_name_per_entry() {
    let entries = vec![file("/x/a.mp3"), dir("/x/b/"), file("/"), file("/x/.."), file("c")];
    assert_eq!(
        file_names(&entries),
        vec![Some("a.mp3".to_string()), Some("b".to_string()), None, None, Some("c".to_string())]
    );
}

#[test]
fn select_audio_keeps_the_order_of_the_listing() {
    let entries = vec![file("/x/b"), file("/x/a"), dir("/x/c"), file("/x/d")];
    let names = vec![
        Some("b.mp3".to_string()),
        Some("a.m4a".to_string()),
        Some("c.mp3".to_string()),
        Some("d.txt".to_string()),
    ];
    assert_eq!(select_audio(&entries, &names), strings(&["/x/b", "/x/a"]));
}

#[test]
fn select_audio_takes_no_entry_without_a_name_given() {
    let entries = vec![file("a.mp3"), file("b.mp3"), file("c.mp3")];
    let names = vec![Some("a.mp3".to_string()), None];
    assert_eq!(select_audio(&entries, &names), strings(&["a.mp3"]));
    assert!(select_audio(&entries, &Vec::new()).is_empty());
}

#[test]
fn track_files_go_under_their_own_names() {
    let paths = strings(&["/music/low/a.mp3", "b.m4a"]);
    assert_eq!(
        track_files(&paths, "/music/low/tagged"),
        vec![
            TrackFile {
                path: "/music/low/a.mp3".to_string(),
                name: "a.mp3".to_string(),
                output: "/music/low/tagged/a.mp3".to_string(),
            },
            TrackFile {
                path: "b.m4a".to_string(),
                name: "b.m4a".to_string(),
                output: "/music/low/tagged/b.m4a".to_string(),
            },
        ]
    );
    assert!(track_files(&Vec::new(), "out").is_empty());
}

#[test]
fn sort_paths_sorts_by_bytes() {
    assert_eq!(sort_paths(&Vec::new()), Vec::<String>::new());
    assert_eq!(sort_paths(&strings(&["b", "a"])), strings(&["a", "b"]));
    assert_eq!(
        sort_paths(&strings(&["b", "B", "a", "10", "9", "", "ab", "é", "a"])),
        strings(&["", "10", "9", "B", "a", "a", "ab", "b", "é"])
    );
}

#[test]
fn sort_paths_agrees_with_the_standard_library() {
    let paths = strings(&["d/z.mp3", "d/a.mp3", "d/Z.mp3", "d/é.mp3", "d/a b.mp3", "d/a.m4a"]);
    let mut expected = paths.clone();
    expected.sort();
    assert_eq!(sort_paths(&paths), expected);
}
