use album_tagger::genre::genre_choices;
use album_tagger::metadata::{AlbumMetadata, TrackMetadata};
use album_tagger::tagger::{edit_metadata, probe_command};
use album_tagger::tracks::{DirEntry, TrackFile};
use album_tagger::wizard::{
    context_message, Phase, Wizard, WizardEvent, WizardReply, WizardRequest,
};

fn text(answer: &str) -> WizardReply {
    WizardReply::Text(answer.to_string())
}

fn failed(cause: &str) -> WizardReply {
    WizardReply::Failed { cause: cause.to_string() }
}

fn ask(message: &str, default: &str) -> WizardRequest {
    WizardRequest::AskText {
        heading: None,
        message: message.to_string(),
        default: default.to_string(),
    }
}

fn abort(message: &str, cause: &str) -> WizardRequest {
    WizardRequest::Abort { message: message.to_string(), cause: cause.to_string() }
}

fn file(path: &str) -> DirEntry {
    DirEntry { path: path.to_string(), is_file: true }
}

fn track(path: &str, name: &str, number: &str) -> TrackMetadata {
    TrackMetadata { path: path.to_string(), name: name.to_string(), number: number.to_string() }
}

fn cached_album() -> AlbumMetadata {
    AlbumMetadata {
        album: Some("Low".to_string()),
        year: Some("1977".to_string()),
        genre: Some("Rock".to_string()),
        authors: vec!["David Bowie".to_string(), "Brian Eno".to_string()],
        cover_image: Some("/music/low/cover.png".to_string()),
        tracks: vec![
            track("/old/place/b.mp3", "Breaking Glass", "2"),
            track("/old/place/gone.mp3", "Gone", "9"),
        ],
    }
}

/// Takes a fresh wizard through `replies` and gives it back with the request
/// made last.
fn run(replies: Vec<WizardReply>) -> (Wizard, WizardRequest) {
    let (mut wizard, mut request) = Wizard::start();
    for reply in replies {
        (wizard, request) = wizard.step(reply);
    }
    (wizard, request)
}

/// The replies that take a fresh wizard to the listing of `/music/low`, with
/// the given cache and without a cover.
fn up_to_listing(cache: Option<AlbumMetadata>) -> Vec<WizardReply> {
    vec![
        WizardReply::Done,
        WizardReply::Path("/music/low".to_string()),
        WizardReply::Cache(cache),
        text("Low"),
        text("1977"),
        text("Rock"),
        text("David Bowie"),
        text(""),
        WizardReply::Confirmed(false),
    ]
}

#[test]
fn the_run_starts_with_the_probe() {
    let (wizard, request) = Wizard::start();
    assert_eq!(request, WizardRequest::RunProbe { command: probe_command() });
    assert_eq!(wizard.phase(), Phase::Probing);
    assert!(!wizard.is_over());
}

#[test]
fn a_missing_utility_ends_the_run() {
    let (wizard, request) = run(vec![failed("No such file or directory")]);
    assert_eq!(request, abort("ffmpeg is not accessible via $PATH", "No such file or directory"));
    assert_eq!(wizard.phase(), Phase::Failed);
    assert!(wizard.is_over());
}

#[test]
fn questions_come_in_order_with_the_defaults_of_the_cache() {
    let (wizard, request) = Wizard::start();
    assert!(matches!(request, WizardRequest::RunProbe { .. }));
    let (wizard, request) = wizard.step(WizardReply::Done);
    assert_eq!(
        request,
        WizardRequest::PickPath {
            label: "Choose input directory".to_string(),
            default_path: None
        }
    );
    let (wizard, request) = wizard.step(WizardReply::Path("/music/low".to_string()));
    assert_eq!(request, WizardRequest::LoadCache { path: "/music/low/album.toml".to_string() });
    let (wizard, request) = wizard.step(WizardReply::Cache(Some(cached_album())));
    assert_eq!(request, ask("Enter album name:", "Low"));
    let (wizard, request) = wizard.step(text("Low (remaster)"));
    assert_eq!(request, ask("Enter album year:", "1977"));
    let (wizard, request) = wizard.step(text("2017"));
    match request {
        WizardRequest::AskSelect { prompt } => {
            assert_eq!(prompt.message, "Select genre:");
            assert_eq!(prompt.choices, genre_choices());
            assert_eq!(prompt.starting_cursor, 3);
        }
        other => panic!("{:?}", other),
    }
    let (wizard, request) = wizard.step(text("Electronic"));
    assert_eq!(request, ask("Enter author name (blank to finish):", "David Bowie"));
    let (wizard, request) = wizard.step(text("Bowie"));
    assert_eq!(request, ask("Enter author name (blank to finish):", "Brian Eno"));
    let (wizard, request) = wizard.step(text("Eno"));
    assert_eq!(request, ask("Enter author name (blank to finish):", ""));
    let (wizard, request) = wizard.step(text("Visconti"));
    assert_eq!(request, ask("Enter author name (blank to finish):", ""));
    let (wizard, request) = wizard.step(text("  "));
    assert_eq!(
        request,
        WizardRequest::AskConfirm {
            message: "Add album cover? [y/n]".to_string(),
            default_yes: true
        }
    );
    let (wizard, request) = wizard.step(WizardReply::Confirmed(true));
    assert_eq!(
        request,
        WizardRequest::PickPath {
            label: "Choose cover image".to_string(),
            default_path: Some("/music/low/cover.png".to_string()),
        }
    );
    let (wizard, request) = wizard.step(WizardReply::Path("/music/low/front.jpg".to_string()));
    assert_eq!(request, WizardRequest::ListDirectory { path: "/music/low".to_string() });
    let entries = vec![
        file("/music/low/b.mp3"),
        file("/music/low/album.toml"),
        file("/music/low/a.m4a"),
        DirEntry { path: "/music/low/tagged".to_string(), is_file: false },
    ];
    let (wizard, request) = wizard.step(WizardReply::Entries(entries));
    assert_eq!(request, WizardRequest::CreateDirectory { path: "/music/low/tagged".to_string() });

    let album = AlbumMetadata {
        album: Some("Low (remaster)".to_string()),
        year: Some("2017".to_string()),
        genre: Some("Electronic".to_string()),
        authors: vec!["Bowie".to_string(), "Eno".to_string(), "Visconti".to_string()],
        cover_image: Some("/music/low/front.jpg".to_string()),
        tracks: cached_album().tracks,
    };

    let (wizard, request) = wizard.step(WizardReply::Done);
    assert_eq!(
        request,
        WizardRequest::AskText {
            heading: Some("a.m4a:".to_string()),
            message: "Track title:".to_string(),
            default: String::new(),
        }
    );
    let (wizard, request) = wizard.step(text("Speed of Life"));
    assert_eq!(request, ask("Track number:", ""));
    let (wizard, request) = wizard.step(text("1"));
    let first = track("/music/low/a.m4a", "Speed of Life", "1");
    assert_eq!(
        request,
        WizardRequest::RunTagger {
            remove: "/music/low/tagged/a.m4a".to_string(),
            command: edit_metadata("/music/low/a.m4a", "/music/low/tagged/a.m4a", &first, &album),
        }
    );
    assert_eq!(wizard.phase(), Phase::Tagging);
    let (wizard, request) = wizard.step(WizardReply::Exited { success: true });
    assert_eq!(
        request,
        WizardRequest::AskText {
            heading: Some("b.mp3:".to_string()),
            message: "Track title:".to_string(),
            default: "Breaking Glass".to_string(),
        }
    );
    let (wizard, request) = wizard.step(text("Breaking Glass"));
    assert_eq!(request, ask("Track number:", "2"));
    let (wizard, request) = wizard.step(text("2/11"));
    let second = track("/music/low/b.mp3", "Breaking Glass", "2/11");
    assert_eq!(
        request,
        WizardRequest::RunTagger {
            remove: "/music/low/tagged/b.mp3".to_string(),
            command: edit_metadata("/music/low/b.mp3", "/music/low/tagged/b.mp3", &second, &album),
        }
    );
    let (wizard, request) = wizard.step(WizardReply::Exited { success: true });
    assert_eq!(
        request,
        WizardRequest::WriteCache {
            path: "/music/low/album.toml".to_string(),
            album: AlbumMetadata { tracks: vec![first, second], ..album },
        }
    );
    assert_eq!(wizard.phase(), Phase::WritingCache);
    let (wizard, request) = wizard.step(WizardReply::Done);
    assert_eq!(
        request,
        WizardRequest::Finish {
            message: "All tracks processed and saved to: /music/low/tagged".to_string()
        }
    );
    assert_eq!(wizard.phase(), Phase::Done);
    assert!(wizard.is_over());
    let (wizard, request) = wizard.step(WizardReply::Done);
    assert_eq!(request, WizardRequest::Closed);
    assert_eq!(wizard.phase(), Phase::Done);
}

#[test]
fn without_a_cache_every_default_is_empty() {
    let (wizard, request) = run(vec![
        WizardReply::Done,
        WizardReply::Path("/m".to_string()),
        WizardReply::Cache(None),
    ]);
    assert_eq!(request, ask("Enter album name:", ""));
    let (wizard, request) = wizard.step(text(""));
    assert_eq!(request, ask("Enter album year:", ""));
    let (wizard, request) = wizard.step(text(""));
    match request {
        WizardRequest::AskSelect { prompt } => assert_eq!(prompt.starting_cursor, 0),
        other => panic!("{:?}", other),
    }
    let (wizard, request) = wizard.step(text("Other"));
    assert_eq!(request, ask("Enter author name (blank to finish):", ""));
    let (_, request) = wizard.step(text(""));
    assert!(matches!(request, WizardRequest::AskConfirm { .. }));
}

#[test]
fn a_blank_album_name_is_stored_as_it_is() {
    let mut replies = up_to_listing(Some(cached_album()));
    replies[3] = text("");
    replies.push(WizardReply::Entries(vec![file("/music/low/a.mp3")]));
    replies.push(WizardReply::Done);
    replies.push(text("T"));
    replies.push(text("1"));
    replies.push(WizardReply::Exited { success: true });
    let (_, request) = run(replies);
    match request {
        WizardRequest::WriteCache { album, .. } => assert_eq!(album.album, Some(String::new())),
        other => panic!("{:?}", other),
    }
}

#[test]
fn authors_not_entered_again_are_dropped() {
    let mut replies = up_to_listing(Some(cached_album()));
    replies.push(WizardReply::Entries(vec![file("/music/low/a.mp3")]));
    replies.push(WizardReply::Done);
    replies.push(text("T"));
    replies.push(text("1"));
    replies.push(WizardReply::Exited { success: true });
    let (_, request) = run(replies);
    match request {
        WizardRequest::WriteCache { album, .. } => {
            assert_eq!(album.authors, vec!["David Bowie".to_string()]);
            assert_eq!(album.cover_image, Some("/music/low/cover.png".to_string()));
        }
        other => panic!("{:?}", other),
    }
}

#[test]
fn tracks_of_the_cache_that_are_gone_are_dropped() {
    let mut replies = up_to_listing(Some(cached_album()));
    replies.push(WizardReply::Entries(vec![file("/music/low/new.mp3")]));
    replies.push(WizardReply::Done);
    replies.push(text("New"));
    replies.push(text("1"));
    replies.push(WizardReply::Exited { success: true });
    let (_, request) = run(replies);
    match request {
        WizardRequest::WriteCache { album, .. } => {
            assert_eq!(album.tracks, vec![track("/music/low/new.mp3", "New", "1")]);
        }
        other => panic!("{:?}", other),
    }
}

#[test]
fn no_audio_files_end_the_run() {
    let mut replies = up_to_listing(None);
    replies.push(WizardReply::Entries(vec![file("/music/low/notes.txt")]));
    let (wizard, request) = run(replies);
    assert_eq!(request, abort("/music/low has no mp3 files", ""));
    assert!(wizard.is_over());
    let (wizard, request) = wizard.step(WizardReply::Done);
    assert_eq!(request, WizardRequest::Closed);
    let (_, request) = wizard.step(WizardReply::Exited { success: true });
    assert_eq!(request, WizardRequest::Closed);
}

#[test]
fn an_empty_directory_ends_the_run() {
    let mut replies = up_to_listing(None);
    replies.push(WizardReply::Entries(Vec::new()));
    let (wizard, request) = run(replies);
    assert_eq!(request, abort("/music/low has no mp3 files", ""));
    assert_eq!(wizard.phase(), Phase::Failed);
}

#[test]
fn a_failed_track_ends_the_run_before_the_cache_is_written() {
    let mut replies = up_to_listing(Some(cached_album()));
    replies.push(WizardReply::Entries(vec![file("/music/low/a.mp3"), file("/music/low/b.mp3")]));
    replies.push(WizardReply::Done);
    replies.push(text("A"));
    replies.push(text("1"));
    replies.push(WizardReply::Exited { success: true });
    replies.push(text("B"));
    replies.push(text("2"));
    let (mut wizard, mut request) = Wizard::start();
    let mut requests = vec![request.clone()];
    for reply in replies {
        (wizard, request) = wizard.step(reply);
        requests.push(request.clone());
    }
    assert!(matches!(request, WizardRequest::RunTagger { .. }));
    (wizard, request) = wizard.step(WizardReply::Exited { success: false });
    requests.push(request.clone());
    assert_eq!(request, abort("ffmpeg failed", ""));
    assert_eq!(wizard.phase(), Phase::Failed);
    for reply in [WizardReply::Done, text("x"), WizardReply::Exited { success: true }] {
        (wizard, request) = wizard.step(reply);
        requests.push(request.clone());
        assert_eq!(request, WizardRequest::Closed);
    }
    assert!(requests.iter().all(|r| !matches!(r, WizardRequest::WriteCache { .. })));
    assert_eq!(
        requests.iter().filter(|r| matches!(r, WizardRequest::RunTagger { .. })).count(),
        2
    );
}

#[test]
fn a_utility_that_cannot_be_started_or_waited_for_ends_the_run() {
    let mut replies = up_to_listing(None);
    replies.push(WizardReply::Entries(vec![file("/music/low/a.mp3")]));
    replies.push(WizardReply::Done);
    replies.push(text("A"));
    replies.push(text("1"));
    let (_, request) = run([replies.clone(), vec![failed("not found")]].concat());
    assert_eq!(request, abort("Failed to spawn ffmpeg", "not found"));
    let lost = WizardReply::Lost { cause: "interrupted".to_string() };
    let (_, request) = run([replies, vec![lost]].concat());
    assert_eq!(request, abort("Failed to wait for ffmpeg", "interrupted"));
}

#[test]
fn a_cache_that_cannot_be_read_or_parsed_ends_the_run() {
    let start = vec![WizardReply::Done, WizardReply::Path("/m".to_string())];
    let (_, request) = run([start.clone(), vec![failed("permission denied")]].concat());
    assert_eq!(request, abort("Failed to read album metadata cache", "permission denied"));
    let bad = WizardReply::Malformed { cause: "expected `=`".to_string() };
    let (wizard, request) = run([start, vec![bad]].concat());
    assert_eq!(request, abort("Failed to parse album metadata cache", "expected `=`"));
    assert!(wizard.is_over());
}

#[test]
fn a_failure_to_pick_the_input_directory_speaks_for_itself() {
    let (wizard, request) = run(vec![WizardReply::Done, failed("Failed to enable raw mode")]);
    assert_eq!(request, abort("Failed to enable raw mode", ""));
    assert!(wizard.is_over());
}

#[test]
fn every_question_that_is_broken_off_ends_the_run_with_its_message() {
    let all = vec![
        WizardReply::Done,
        WizardReply::Path("/m".to_string()),
        WizardReply::Cache(None),
        text("Album"),
        text("2000"),
        text("Jazz"),
        text(""),
        WizardReply::Confirmed(true),
        WizardReply::Path("/m/c.png".to_string()),
        WizardReply::Entries(vec![file("/m/a.mp3")]),
        WizardReply::Done,
        text("T"),
        text("1"),
        WizardReply::Exited { success: true },
        WizardReply::Done,
    ];
    let expected = [
        (3, "Failed to get album name"),
        (4, "Failed to get album year"),
        (5, "Failed to select genre"),
        (6, "Failed to get author name"),
        (7, "Failed to prompt for whether album"),
        (8, "Failed to get cover image path"),
        (9, "Failed to read contents of input directory"),
        (10, "Failed to create tagged output directory"),
        (11, "Failed to get track title"),
        (12, "Failed to get track number"),
        (14, "Failed to write album metadata cache"),
    ];
    for (good, message) in expected {
        let mut replies: Vec<WizardReply> = all[..good].to_vec();
        replies.push(failed("why"));
        let (wizard, request) = run(replies);
        assert_eq!(request, abort(message, "why"), "after {} replies", good);
        assert_eq!(wizard.phase(), Phase::Failed);
    }
    let (wizard, request) = run(all);
    assert!(matches!(request, WizardRequest::Finish { .. }));
    assert_eq!(wizard.phase(), Phase::Done);
}

#[test]
fn a_reply_of_the_wrong_kind_ends_the_run() {
    let (wizard, request) = run(vec![WizardReply::Done, WizardReply::Path("/m".to_string()), text("x")]);
    assert_eq!(request, abort("Failed to read album metadata cache", ""));
    assert!(wizard.is_over());
}

#[test]
fn context_messages_are_those_of_the_phases() {
    assert_eq!(context_message(Phase::Probing), "ffmpeg is not accessible via $PATH");
    assert_eq!(context_message(Phase::Tagging), "Failed to spawn ffmpeg");
    assert_eq!(context_message(Phase::PickingInput), "");
    assert_eq!(context_message(Phase::Done), "");
}

#[test]
fn tracks_are_tagged_in_ascending_order_of_their_paths() {
    let mut replies = up_to_listing(None);
    replies.push(WizardReply::Entries(vec![
        file("/music/low/b.mp3"),
        file("/music/low/a.mp3"),
        file("/music/low/c.m4a"),
        file("/music/low/notes.txt"),
    ]));
    replies.push(WizardReply::Done);
    let (mut wizard, mut request) = run(replies);
    let mut headings = Vec::new();
    for _ in 0..3 {
        match &request {
            WizardRequest::AskText { heading: Some(heading), .. } => headings.push(heading.clone()),
            other => panic!("{:?}", other),
        }
        (wizard, request) = wizard.step(text("t"));
        (wizard, request) = wizard.step(text("n"));
        assert!(matches!(request, WizardRequest::RunTagger { .. }));
        (wizard, request) = wizard.step(WizardReply::Exited { success: true });
    }
    assert_eq!(headings, vec!["a.mp3:", "b.mp3:", "c.m4a:"]);
    match request {
        WizardRequest::WriteCache { album, .. } => {
            let paths: Vec<String> = album.tracks.iter().map(|t| t.path.clone()).collect();
            assert_eq!(paths, vec!["/music/low/a.mp3", "/music/low/b.mp3", "/music/low/c.m4a"]);
        }
        other => panic!("{:?}", other),
    }
    assert_eq!(wizard.phase(), Phase::WritingCache);
}

fn answer(text: &str, blank: bool) -> WizardEvent {
    WizardEvent::Text { answer: text.to_string(), blank }
}

/// Takes a fresh wizard through `events` and gives it back with the request
/// made last.
fn play(events: Vec<WizardEvent>) -> (Wizard, WizardRequest) {
    let (mut wizard, mut request) = Wizard::start();
    for event in events {
        (wizard, request) = wizard.apply(event);
    }
    (wizard, request)
}

#[test]
fn apply_goes_by_the_facts_it_is_given() {
    let (wizard, request) = play(vec![
        WizardEvent::Done,
        WizardEvent::Directory {
            path: "in".to_string(),
            cache_path: "the cache".to_string(),
            output_directory: "out".to_string(),
        },
    ]);
    assert_eq!(request, WizardRequest::LoadCache { path: "the cache".to_string() });
    let (wizard, _) = wizard.apply(WizardEvent::Cache {
        album: Some(cached_album()),
        recorded: vec![None, Some("x.mp3".to_string())],
    });
    let (wizard, _) = wizard.apply(answer("Album", false));
    let (wizard, _) = wizard.apply(answer("Year", true));
    let (wizard, _) = wizard.apply(answer("Genre", true));
    let (wizard, request) = wizard.apply(answer("", false));
    assert_eq!(request, ask("Enter author name (blank to finish):", "Brian Eno"));
    let (wizard, request) = wizard.apply(answer("not blank, but said to be", true));
    assert!(matches!(request, WizardRequest::AskConfirm { .. }));
    let (wizard, request) = wizard.apply(WizardEvent::Confirmed(false));
    assert_eq!(request, WizardRequest::ListDirectory { path: "in".to_string() });
    let (wizard, request) = wizard.apply(WizardEvent::Tracks(vec![TrackFile {
        path: "in/a.mp3".to_string(),
        name: "x.mp3".to_string(),
        output: "elsewhere/a.mp3".to_string(),
    }]));
    assert_eq!(request, WizardRequest::CreateDirectory { path: "out".to_string() });
    let (wizard, request) = wizard.apply(WizardEvent::Done);
    assert_eq!(
        request,
        WizardRequest::AskText {
            heading: Some("x.mp3:".to_string()),
            message: "Track title:".to_string(),
            default: "Gone".to_string(),
        }
    );
    let (wizard, request) = wizard.apply(answer("T", false));
    assert_eq!(request, ask("Track number:", "9"));
    let (wizard, request) = wizard.apply(answer("1", false));
    match request {
        WizardRequest::RunTagger { remove, command } => {
            assert_eq!(remove, "elsewhere/a.mp3");
            assert_eq!(command.args[2], "in/a.mp3");
            assert_eq!(command.args.last().map(|s| s.as_str()), Some("elsewhere/a.mp3"));
            assert_eq!(command.args[4], "/music/low/cover.png");
            assert_eq!(command.args[16], "artist=");
        }
        other => panic!("{:?}", other),
    }
    let (wizard, request) = wizard.apply(WizardEvent::Exited { success: true });
    match request {
        WizardRequest::WriteCache { path, album } => {
            assert_eq!(path, "the cache");
            assert_eq!(album.authors, vec![String::new()]);
            assert_eq!(album.tracks, vec![track("in/a.mp3", "T", "1")]);
        }
        other => panic!("{:?}", other),
    }
    let (_, request) = wizard.apply(WizardEvent::Done);
    assert_eq!(
        request,
        WizardRequest::Finish { message: "All tracks processed and saved to: out".to_string() }
    );
}

#[test]
fn apply_takes_no_path_for_a_directory() {
    let (wizard, request) = play(vec![WizardEvent::Done, WizardEvent::Path("in".to_string())]);
    assert_eq!(request, abort("", ""));
    assert!(wizard.is_over());
}

#[test]
fn apply_gives_up_on_no_tracks() {
    let (wizard, _) = play(vec![
        WizardEvent::Done,
        WizardEvent::Directory {
            path: "in".to_string(),
            cache_path: "c".to_string(),
            output_directory: "o".to_string(),
        },
        WizardEvent::Cache { album: None, recorded: Vec::new() },
        answer("", true),
        answer("", true),
        answer("", true),
        answer("", true),
        WizardEvent::Confirmed(false),
    ]);
    assert_eq!(wizard.phase(), Phase::Listing);
    let (wizard, request) = wizard.apply(WizardEvent::Tracks(Vec::new()));
    assert_eq!(request, abort("in has no mp3 files", ""));
    assert_eq!(wizard.phase(), Phase::Failed);
}

#[test]
fn digest_notes_where_cache_and_tagged_tracks_go() {
    let (wizard, _) = play(vec![WizardEvent::Done]);
    assert_eq!(
        wizard.digest(WizardReply::Path("/music/low".to_string())),
        WizardEvent::Directory {
            path: "/music/low".to_string(),
            cache_path: "/music/low/album.toml".to_string(),
            output_directory: "/music/low/tagged".to_string(),
        }
    );
    let (wizard, _) = Wizard::start();
    assert_eq!(
        wizard.digest(WizardReply::Path("/music/low".to_string())),
        WizardEvent::Path("/music/low".to_string())
    );
}

#[test]
fn digest_notes_blank_answers_and_recorded_names() {
    let (wizard, _) = Wizard::start();
    assert_eq!(wizard.digest(text(" \t")), answer(" \t", true));
    assert_eq!(wizard.digest(text(" x ")), answer(" x ", false));
    assert_eq!(
        wizard.digest(WizardReply::Cache(Some(cached_album()))),
        WizardEvent::Cache {
            album: Some(cached_album()),
            recorded: vec![Some("b.mp3".to_string()), Some("gone.mp3".to_string())],
        }
    );
    assert_eq!(
        wizard.digest(WizardReply::Cache(None)),
        WizardEvent::Cache { album: None, recorded: Vec::new() }
    );
}

#[test]
fn digest_keeps_the_tracks_of_a_listing_in_order() {
    let (wizard, _) = run(up_to_listing(None));
    let entries = vec![
        file("/music/low/b.mp3"),
        file("/music/low/a.mp3"),
        file("/music/low/c.m4a"),
        file("/music/low/notes.txt"),
    ];
    let names: Vec<String> = match wizard.digest(WizardReply::Entries(entries)) {
        WizardEvent::Tracks(files) => {
            for file in &files {
                assert_eq!(file.path, format!("/music/low/{}", file.name));
                assert_eq!(file.output, format!("/music/low/tagged/{}", file.name));
            }
            files.into_iter().map(|file| file.name).collect()
        }
        other => panic!("{:?}", other),
    };
    assert_eq!(names, vec!["a.mp3", "b.mp3", "c.m4a"]);
}
