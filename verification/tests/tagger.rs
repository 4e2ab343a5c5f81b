use album_tagger::metadata::{AlbumMetadata, TrackMetadata};
use album_tagger::tagger::{edit_metadata, probe_command};

fn track() -> TrackMetadata {
    TrackMetadata {
        path: "/music/a.mp3".to_string(),
        name: "Opening".to_string(),
        number: "1/12".to_string(),
    }
}

fn album(cover: Option<&str>) -> AlbumMetadata {
    AlbumMetadata {
        album: Some("Low".to_string()),
        year: Some("1977".to_string()),
        genre: Some("Rock".to_string()),
        authors: vec!["David Bowie".to_string(), "Brian Eno".to_string()],
        cover_image: cover.map(|c| c.to_string()),
        tracks: Vec::new(),
    }
}

fn count(args: &[String], word: &str) -> usize {
    args.iter().filter(|a| a.as_str() == word).count()
}

#[test]
fn the_probe_asks_for_the_version() {
    let command = probe_command();
    assert_eq!(command.program, "ffmpeg");
    assert_eq!(command.args, vec!["-version"]);
}

#[test]
fn command_line_without_a_cover() {
    let command = edit_metadata("/music/a.mp3", "/music/tagged/a.mp3", &track(), &album(None));
    assert_eq!(command.program, "ffmpeg");
    assert_eq!(
        command.args,
        vec![
            "-y",
            "-i",
            "/music/a.mp3",
            "-c",
            "copy",
            "-id3v2_version",
            "3",
            "-metadata",
            "album=Low",
            "-metadata",
            "artist=David Bowie; Brian Eno",
            "-metadata",
            "title=Opening",
            "-metadata",
            "track=1/12",
            "-metadata",
            "date=1977",
            "-metadata",
            "genre=Rock",
            "/music/tagged/a.mp3",
        ]
    );
}

#[test]
fn command_line_with_a_cover() {
    let command = edit_metadata(
        "/music/a.mp3",
        "/music/tagged/a.mp3",
        &track(),
        &album(Some("/music/cover.png")),
    );
    assert_eq!(
        command.args,
        vec![
            "-y",
            "-i",
            "/music/a.mp3",
            "-i",
            "/music/cover.png",
            "-map",
            "0:a",
            "-map",
            "1:v",
            "-c",
            "copy",
            "-id3v2_version",
            "3",
            "-metadata",
            "album=Low",
            "-metadata",
            "artist=David Bowie; Brian Eno",
            "-metadata",
            "title=Opening",
            "-metadata",
            "track=1/12",
            "-metadata",
            "date=1977",
            "-metadata",
            "genre=Rock",
            "-metadata:s:v",
            "title=Album cover",
            "-metadata:s:v",
            "comment=Cover (front)",
            "/music/tagged/a.mp3",
        ]
    );
}

#[test]
fn without_a_cover_no_stream_is_mapped_or_labelled() {
    let command = edit_metadata("in.mp3", "out.mp3", &track(), &album(None));
    assert_eq!(count(&command.args, "-map"), 0);
    assert_eq!(count(&command.args, "-metadata:s:v"), 0);
    assert_eq!(count(&command.args, "-i"), 1);
    assert_eq!(count(&command.args, "-metadata"), 6);
    assert_eq!(command.args.len(), 20);
}

#[test]
fn with_a_cover_two_streams_are_mapped_and_one_labelled_twice() {
    let command = edit_metadata("in.mp3", "out.mp3", &track(), &album(Some("c.jpg")));
    assert_eq!(count(&command.args, "-i"), 2);
    assert_eq!(count(&command.args, "-map"), 2);
    assert_eq!(count(&command.args, "-metadata:s:v"), 2);
    assert_eq!(count(&command.args, "-metadata"), 6);
    assert_eq!(command.args.len(), 30);
    assert_eq!(command.args[5], "-map");
    assert_eq!(command.args[6], "0:a");
    assert_eq!(command.args[7], "-map");
    assert_eq!(command.args[8], "1:v");
}

#[test]
fn missing_album_fields_give_empty_tags() {
    let empty = AlbumMetadata::default();
    let meta = TrackMetadata { path: String::new(), name: String::new(), number: String::new() };
    let command = edit_metadata("in.m4a", "out.m4a", &meta, &empty);
    assert_eq!(
        command.args,
        vec![
            "-y",
            "-i",
            "in.m4a",
            "-c",
            "copy",
            "-id3v2_version",
            "3",
            "-metadata",
            "album=",
            "-metadata",
            "artist=",
            "-metadata",
            "title=",
            "-metadata",
            "track=",
            "-metadata",
            "date=",
            "-metadata",
            "genre=",
            "out.m4a",
        ]
    );
}

#[test]
fn the_output_is_the_last_argument() {
    for cover in [None, Some("c.png")] {
        let command = edit_metadata("in.mp3", "somewhere/out.mp3", &track(), &album(cover));
        assert_eq!(command.args.last().map(|s| s.as_str()), Some("somewhere/out.mp3"));
        assert_eq!(command.args[0], "-y");
        assert_eq!(command.args[2], "in.mp3");
    }
}

#[test]
fn a_single_author_is_not_followed_by_a_separator() {
    let mut one = album(None);
    one.authors = vec!["Solo".to_string()];
    let command = edit_metadata("in.mp3", "out.mp3", &track(), &one);
    assert_eq!(command.args[10], "artist=Solo");
}

#[test]
fn a_path_that_reads_like_an_option_is_passed_as_it_is() {
    let command = edit_metadata("-map", "out.mp3", &track(), &album(None));
    assert_eq!(command.args[2], "-map");
    assert_eq!(count(&command.args, "-map"), 1);
}
