//! Album wizard: the order of the questions and of the work, from the check
//! for the tagging utility to the cache that records the answers.
//!
//! The wizard asks nothing and touches nothing itself. It tells the driver
//! what to do next ([`WizardRequest`]); the driver asks the user, reads the
//! directory or runs the utility, and reports what came of it
//! ([`WizardReply`]). Every failure ends the run at once: the wizard then
//! asks for nothing more, so what was not done yet is never done.
//!
//! What the wizard decides, it decides on plain values, in
//! [`Wizard::apply`]. What it needs to know of the paths and answers in a
//! reply (where the cache is, what a file is called, whether an answer is
//! blank) it has from the standard library; [`Wizard::digest`] asks for it
//! and hands it on as a [`WizardEvent`]. [`Wizard::step`] is the two in one.

use vstd::prelude::*;
use vstd::string::*;
use crate::genre::{genre_question, select_genre, SelectModel, SelectPrompt};
use crate::metadata::{
    copy_tracks, defaults_from, defaults_given, empty_album, recorded_file_names, recorded_names,
    AlbumMetadata, AlbumModel, TrackMetadata, TrackModel,
};
use crate::paths::{file_name_of, join_of, path_join};
use crate::tagger::{edit_metadata, probe_command, probe_of, tagging_of, Command, CommandModel};
use crate::text::{
    blank, concat2, copy_all, copy_opt, is_blank, opt_text, or_empty, text_or_empty,
};
use crate::tracks::{
    enumerate_tracks, files_of, law_tracks_are_sorted_audio_files, track_files, tracks_of,
    DirEntry, EntryModel, FileModel, TrackFile,
};

verus! {

/// How far the wizard has come: the request it waits on.
#[derive(Clone, Copy, Debug, PartialEq, Eq, Structural)]
pub enum Phase {
    Probing,
    PickingInput,
    LoadingCache,
    AskingAlbum,
    AskingYear,
    AskingGenre,
    AskingAuthor,
    AskingCover,
    PickingCover,
    Listing,
    CreatingOutput,
    AskingTitle,
    AskingNumber,
    Tagging,
    WritingCache,
    Done,
    Failed,
}

/// What the driver is to do next.
#[derive(Clone, Debug, PartialEq, Eq)]
pub enum WizardRequest {
    /// Run `command` to see whether the tagging utility can be run at all.
    /// What it prints and how it exits does not matter.
    RunProbe { command: Command },
    /// Let the user pick a path.
    PickPath { label: String, default_path: Option<String> },
    /// Read the cache at `path`, where there is one.
    LoadCache { path: String },
    /// Print `heading` on a line of its own, where there is one; then ask for
    /// a line of text, offering `default`.
    AskText { heading: Option<String>, message: String, default: String },
    /// Ask the user to choose one of a list.
    AskSelect { prompt: SelectPrompt },
    /// Ask a yes-or-no question.
    AskConfirm { message: String, default_yes: bool },
    /// List the directory `path`.
    ListDirectory { path: String },
    /// Make the directory `path` and what is missing above it. It may be
    /// there already.
    CreateDirectory { path: String },
    /// Remove the file `remove`, where it is there, then run `command` and
    /// wait for it.
    RunTagger { remove: String, command: Command },
    /// Write `album` to the cache at `path`, in place of what is there.
    WriteCache { path: String, album: AlbumMetadata },
    /// The run is over and went well; say `message`.
    Finish { message: String },
    /// The run is over and failed; say `message` and what caused it.
    Abort { message: String, cause: String },
    /// Nothing: the run was over before.
    Closed,
}

/// A request as the contracts see it.
pub enum RequestModel {
    RunProbe { command: CommandModel },
    PickPath { label: Seq<char>, default_path: Option<Seq<char>> },
    LoadCache { path: Seq<char> },
    AskText { heading: Option<Seq<char>>, message: Seq<char>, default: Seq<char> },
    AskSelect { prompt: SelectModel },
    AskConfirm { message: Seq<char>, default_yes: bool },
    ListDirectory { path: Seq<char> },
    CreateDirectory { path: Seq<char> },
    RunTagger { remove: Seq<char>, command: CommandModel },
    WriteCache { path: Seq<char>, album: AlbumModel },
    Finish { message: Seq<char> },
    Abort { message: Seq<char>, cause: Seq<char> },
    Closed,
}

impl View for WizardRequest {
    type V = RequestModel;

    open spec fn view(&self) -> RequestModel {
        match *self {
            WizardRequest::RunProbe { command } => RequestModel::RunProbe { command: command@ },
            WizardRequest::PickPath { label, default_path } => RequestModel::PickPath {
                label: label@,
                default_path: opt_text(default_path),
            },
            WizardRequest::LoadCache { path } => RequestModel::LoadCache { path: path@ },
            WizardRequest::AskText { heading, message, default } => RequestModel::AskText {
                heading: opt_text(heading),
                message: message@,
                default: default@,
            },
            WizardRequest::AskSelect { prompt } => RequestModel::AskSelect { prompt: prompt@ },
            WizardRequest::AskConfirm { message, default_yes } => RequestModel::AskConfirm {
                message: message@,
                default_yes,
            },
            WizardRequest::ListDirectory { path } => RequestModel::ListDirectory { path: path@ },
            WizardRequest::CreateDirectory { path } => RequestModel::CreateDirectory {
                path: path@,
            },
            WizardRequest::RunTagger { remove, command } => RequestModel::RunTagger {
                remove: remove@,
                command: command@,
            },
            WizardRequest::WriteCache { path, album } => RequestModel::WriteCache {
                path: path@,
                album: album@,
            },
            WizardRequest::Finish { message } => RequestModel::Finish { message: message@ },
            WizardRequest::Abort { message, cause } => RequestModel::Abort {
                message: message@,
                cause: cause@,
            },
            WizardRequest::Closed => RequestModel::Closed,
        }
    }
}

/// What came of the request made last.
#[derive(Clone, Debug, PartialEq, Eq)]
pub enum WizardReply {
    /// It was done.
    Done,
    /// It could not be done, or the user broke it off; `cause` says why.
    Failed { cause: String },
    /// The user picked this path.
    Path(String),
    /// What the cache holds; `None` where there is no cache.
    Cache(Option<AlbumMetadata>),
    /// There is a cache, but it cannot be made sense of.
    Malformed { cause: String },
    /// The user gave this answer.
    Text(String),
    /// The user said yes or no.
    Confirmed(bool),
    /// The entries of the directory.
    Entries(Vec<DirEntry>),
    /// The utility ran; `success` tells whether its exit status was zero.
    Exited { success: bool },
    /// The utility was started, but how it ended is not known.
    Lost { cause: String },
}

/// A reply as the contracts see it.
pub enum ReplyModel {
    Done,
    Failed { cause: Seq<char> },
    Path(Seq<char>),
    Cache(Option<AlbumModel>),
    Malformed { cause: Seq<char> },
    Text(Seq<char>),
    Confirmed(bool),
    Entries(Seq<EntryModel>),
    Exited { success: bool },
    Lost { cause: Seq<char> },
}

impl View for WizardReply {
    type V = ReplyModel;

    open spec fn view(&self) -> ReplyModel {
        match *self {
            WizardReply::Done => ReplyModel::Done,
            WizardReply::Failed { cause } => ReplyModel::Failed { cause: cause@ },
            WizardReply::Path(path) => ReplyModel::Path(path@),
            WizardReply::Cache(cache) => ReplyModel::Cache(
                match cache {
                    Some(album) => Some(album@),
                    None => None,
                },
            ),
            WizardReply::Malformed { cause } => ReplyModel::Malformed { cause: cause@ },
            WizardReply::Text(answer) => ReplyModel::Text(answer@),
            WizardReply::Confirmed(yes) => ReplyModel::Confirmed(yes),
            WizardReply::Entries(entries) => ReplyModel::Entries(entries.deep_view()),
            WizardReply::Exited { success } => ReplyModel::Exited { success },
            WizardReply::Lost { cause } => ReplyModel::Lost { cause: cause@ },
        }
    }
}

/// A reply, with what the wizard needs to know of the texts in it.
#[derive(Clone, Debug, PartialEq, Eq)]
pub enum WizardEvent {
    /// The request was done.
    Done,
    /// The request could not be done, or the user broke it off.
    Failed { cause: String },
    /// The user picked the input directory `path`; its cache is kept at
    /// `cache_path`, and its tagged tracks go to `output_directory`.
    Directory { path: String, cache_path: String, output_directory: String },
    /// The user picked this path.
    Path(String),
    /// What the cache holds, and under which file name each of its tracks
    /// was recorded.
    Cache { album: Option<AlbumMetadata>, recorded: Vec<Option<String>> },
    /// There is a cache, but it cannot be made sense of.
    Malformed { cause: String },
    /// The user gave this answer; `blank` tells whether it holds nothing but
    /// white space.
    Text { answer: String, blank: bool },
    /// The user said yes or no.
    Confirmed(bool),
    /// The tracks of the directory, in the order in which to tag them.
    Tracks(Vec<TrackFile>),
    /// The utility ran; `success` tells whether its exit status was zero.
    Exited { success: bool },
    /// The utility was started, but how it ended is not known.
    Lost { cause: String },
}

/// An event as the contracts see it.
pub enum EventModel {
    Done,
    Failed { cause: Seq<char> },
    Directory { path: Seq<char>, cache_path: Seq<char>, output_directory: Seq<char> },
    Path(Seq<char>),
    Cache { album: Option<AlbumModel>, recorded: Seq<Option<Seq<char>>> },
    Malformed { cause: Seq<char> },
    Text { answer: Seq<char>, blank: bool },
    Confirmed(bool),
    Tracks(Seq<FileModel>),
    Exited { success: bool },
    Lost { cause: Seq<char> },
}

impl View for WizardEvent {
    type V = EventModel;

    open spec fn view(&self) -> EventModel {
        match *self {
            WizardEvent::Done => EventModel::Done,
            WizardEvent::Failed { cause } => EventModel::Failed { cause: cause@ },
            WizardEvent::Directory { path, cache_path, output_directory } => EventModel::Directory {
                path: path@,
                cache_path: cache_path@,
                output_directory: output_directory@,
            },
            WizardEvent::Path(path) => EventModel::Path(path@),
            WizardEvent::Cache { album, recorded } => EventModel::Cache {
                album: match album {
                    Some(album) => Some(album@),
                    None => None,
                },
                recorded: recorded.deep_view(),
            },
            WizardEvent::Malformed { cause } => EventModel::Malformed { cause: cause@ },
            WizardEvent::Text { answer, blank } => EventModel::Text { answer: answer@, blank },
            WizardEvent::Confirmed(yes) => EventModel::Confirmed(yes),
            WizardEvent::Tracks(files) => EventModel::Tracks(files.deep_view()),
            WizardEvent::Exited { success } => EventModel::Exited { success },
            WizardEvent::Lost { cause } => EventModel::Lost { cause: cause@ },
        }
    }
}

/// One run of the wizard. It is made by [`Wizard::start`] and moved on by
/// [`Wizard::step`].
#[derive(Debug)]
pub struct Wizard {
    phase: Phase,
    input_directory: String,
    cache_path: String,
    output_directory: String,
    album: AlbumMetadata,
    recorded: Vec<Option<String>>,
    authors: Vec<String>,
    files: Vec<TrackFile>,
    tagged: Vec<TrackMetadata>,
    title: String,
    number: String,
}

/// A run of the wizard as the contracts see it.
pub struct WizardModel {
    /// The request that the wizard waits on.
    pub phase: Phase,
    /// The directory that holds the tracks.
    pub input_directory: Seq<char>,
    /// Where the cache is kept.
    pub cache_path: Seq<char>,
    /// Where the tagged tracks go.
    pub output_directory: Seq<char>,
    /// The album: what the cache held, overwritten answer by answer. Its
    /// tracks are those of the cache until the end of the run.
    pub album: AlbumModel,
    /// The file name under which each track of the cache was recorded.
    pub recorded: Seq<Option<Seq<char>>>,
    /// The authors entered in this run.
    pub authors: Seq<Seq<char>>,
    /// The tracks to tag, in the order in which they are tagged.
    pub files: Seq<FileModel>,
    /// The tracks tagged in this run.
    pub tagged: Seq<TrackModel>,
    /// The title and the number entered for the track that is being tagged.
    pub title: Seq<char>,
    pub number: Seq<char>,
}

impl View for Wizard {
    type V = WizardModel;

    closed spec fn view(&self) -> WizardModel {
        WizardModel {
            phase: self.phase,
            input_directory: self.input_directory@,
            cache_path: self.cache_path@,
            output_directory: self.output_directory@,
            album: self.album@,
            recorded: self.recorded.deep_view(),
            authors: self.authors.deep_view(),
            files: self.files.deep_view(),
            tagged: self.tagged.deep_view(),
            title: self.title@,
            number: self.number@,
        }
    }
}

/// The wizard at its start.
pub open spec fn opening() -> WizardModel {
    WizardModel {
        phase: Phase::Probing,
        input_directory: Seq::empty(),
        cache_path: Seq::empty(),
        output_directory: Seq::empty(),
        album: empty_album(),
        recorded: Seq::empty(),
        authors: Seq::empty(),
        files: Seq::empty(),
        tagged: Seq::empty(),
        title: Seq::empty(),
        number: Seq::empty(),
    }
}

/// Where the cache of the album in `directory` is kept.
pub open spec fn cache_path(directory: Seq<char>) -> Seq<char> {
    join_of(directory, "album.toml"@)
}

/// Where the tagged tracks of the album in `directory` go.
pub open spec fn output_directory(directory: Seq<char>) -> Seq<char> {
    join_of(directory, "tagged"@)
}

/// What the wizard makes of a reply. Of the input directory it notes where
/// the cache and the tagged tracks go; of the cache, under which file name
/// each track was recorded; of an answer, whether it is blank; and of a
/// listing it keeps the tracks, in ascending order of their paths, each with
/// its file name and with the place of its tagged copy, which is under the
/// same file name in the output directory.
pub open spec fn digested(m: WizardModel, reply: ReplyModel) -> EventModel {
    match reply {
        ReplyModel::Done => EventModel::Done,
        ReplyModel::Failed { cause } => EventModel::Failed { cause },
        ReplyModel::Path(path) => if m.phase == Phase::PickingInput {
            EventModel::Directory {
                path,
                cache_path: cache_path(path),
                output_directory: output_directory(path),
            }
        } else {
            EventModel::Path(path)
        },
        ReplyModel::Cache(cache) => EventModel::Cache {
            album: cache,
            recorded: match cache {
                Some(album) => recorded_names(album.tracks),
                None => Seq::empty(),
            },
        },
        ReplyModel::Malformed { cause } => EventModel::Malformed { cause },
        ReplyModel::Text(answer) => EventModel::Text { answer, blank: blank(answer) },
        ReplyModel::Confirmed(yes) => EventModel::Confirmed(yes),
        ReplyModel::Entries(entries) => EventModel::Tracks(
            files_of(tracks_of(entries), m.output_directory),
        ),
        ReplyModel::Exited { success } => EventModel::Exited { success },
        ReplyModel::Lost { cause } => EventModel::Lost { cause },
    }
}

/// What goes wrong where a request of the given phase cannot be done. A
/// failure to pick the input directory speaks for itself and has no message
/// of the wizard's.
pub open spec fn context(phase: Phase) -> Seq<char> {
    match phase {
        Phase::Probing => "ffmpeg is not accessible via $PATH"@,
        Phase::PickingInput => Seq::empty(),
        Phase::LoadingCache => "Failed to read album metadata cache"@,
        Phase::AskingAlbum => "Failed to get album name"@,
        Phase::AskingYear => "Failed to get album year"@,
        Phase::AskingGenre => "Failed to select genre"@,
        Phase::AskingAuthor => "Failed to get author name"@,
        Phase::AskingCover => "Failed to prompt for whether album"@,
        Phase::PickingCover => "Failed to get cover image path"@,
        Phase::Listing => "Failed to read contents of input directory"@,
        Phase::CreatingOutput => "Failed to create tagged output directory"@,
        Phase::AskingTitle => "Failed to get track title"@,
        Phase::AskingNumber => "Failed to get track number"@,
        Phase::Tagging => "Failed to spawn ffmpeg"@,
        Phase::WritingCache => "Failed to write album metadata cache"@,
        Phase::Done => Seq::empty(),
        Phase::Failed => Seq::empty(),
    }
}

/// Why a request failed, as far as the event says.
pub open spec fn cause_of(event: EventModel) -> Seq<char> {
    match event {
        EventModel::Failed { cause } => cause,
        EventModel::Malformed { cause } => cause,
        EventModel::Lost { cause } => cause,
        _ => Seq::empty(),
    }
}

/// Ends the run with a failure.
pub open spec fn abort(m: WizardModel, message: Seq<char>, cause: Seq<char>) -> (
    WizardModel,
    RequestModel,
) {
    (WizardModel { phase: Phase::Failed, ..m }, RequestModel::Abort { message, cause })
}

/// Ends the run because the request made last did not give what it was made
/// for.
pub open spec fn give_up(m: WizardModel, event: EventModel) -> (WizardModel, RequestModel) {
    abort(m, context(m.phase), cause_of(event))
}

/// A question for a line of text, without a heading.
pub open spec fn ask(message: Seq<char>, default: Seq<char>) -> RequestModel {
    RequestModel::AskText { heading: None, message, default }
}

/// Asks for the next author, offering the author that the cache has in the
/// same place.
pub open spec fn ask_author(m: WizardModel) -> (WizardModel, RequestModel) {
    (
        WizardModel { phase: Phase::AskingAuthor, ..m },
        ask(
            "Enter author name (blank to finish):"@,
            if m.authors.len() < m.album.authors.len() {
                m.album.authors[m.authors.len() as int]
            } else {
                Seq::empty()
            },
        ),
    )
}

/// Asks for the listing of the input directory.
pub open spec fn list(m: WizardModel) -> (WizardModel, RequestModel) {
    (
        WizardModel { phase: Phase::Listing, ..m },
        RequestModel::ListDirectory { path: m.input_directory },
    )
}

/// The track that is being asked about or tagged: the first one that is not
/// tagged yet.
pub open spec fn current_file(m: WizardModel) -> FileModel {
    m.files[m.tagged.len() as int]
}

/// What the cache offers for the current track: the title and the number of
/// the first track that it has under the same file name.
pub open spec fn current_defaults(m: WizardModel) -> (Seq<char>, Seq<char>) {
    defaults_given(m.album.tracks, m.recorded, current_file(m).name)
}

/// Asks for the title of the current track, under its file name as heading.
pub open spec fn ask_title(m: WizardModel) -> (WizardModel, RequestModel) {
    (
        WizardModel { phase: Phase::AskingTitle, ..m },
        RequestModel::AskText {
            heading: Some(current_file(m).name + ":"@),
            message: "Track title:"@,
            default: current_defaults(m).0,
        },
    )
}

/// What is recorded of the current track.
pub open spec fn current_track(m: WizardModel) -> TrackModel {
    TrackModel { path: current_file(m).path, name: m.title, number: m.number }
}

/// Asks for the current track to be tagged.
pub open spec fn tag(m: WizardModel) -> (WizardModel, RequestModel) {
    (
        WizardModel { phase: Phase::Tagging, ..m },
        RequestModel::RunTagger {
            remove: current_file(m).output,
            command: tagging_of(
                current_file(m).path,
                current_file(m).output,
                current_track(m),
                m.album,
            ),
        },
    )
}

/// Records the current track as tagged and goes on: to the next track, or,
/// after the last one, to the cache, whose tracks become those of this run.
pub open spec fn tagged(m: WizardModel) -> (WizardModel, RequestModel) {
    let done = m.tagged.push(current_track(m));
    if done.len() < m.files.len() {
        ask_title(WizardModel { tagged: done, ..m })
    } else {
        let album = AlbumModel { tracks: done, ..m.album };
        (
            WizardModel { phase: Phase::WritingCache, tagged: done, album, ..m },
            RequestModel::WriteCache { path: m.cache_path, album },
        )
    }
}

/// What follows when a wizard in state `m` is told `event`.
pub open spec fn advance(m: WizardModel, event: EventModel) -> (WizardModel, RequestModel) {
    match m.phase {
        Phase::Probing => match event {
            EventModel::Done => (
                WizardModel { phase: Phase::PickingInput, ..m },
                RequestModel::PickPath { label: "Choose input directory"@, default_path: None },
            ),
            _ => give_up(m, event),
        },
        Phase::PickingInput => match event {
            EventModel::Directory { path, cache_path, output_directory } => (
                WizardModel {
                    phase: Phase::LoadingCache,
                    input_directory: path,
                    cache_path,
                    output_directory,
                    ..m
                },
                RequestModel::LoadCache { path: cache_path },
            ),
            _ => abort(m, cause_of(event), Seq::empty()),
        },
        Phase::LoadingCache => match event {
            EventModel::Cache { album, recorded } => {
                let album = match album {
                    Some(album) => album,
                    None => empty_album(),
                };
                (
                    WizardModel { phase: Phase::AskingAlbum, album, recorded, ..m },
                    ask("Enter album name:"@, text_or_empty(album.album)),
                )
            },
            EventModel::Malformed { cause } => abort(
                m,
                "Failed to parse album metadata cache"@,
                cause,
            ),
            _ => give_up(m, event),
        },
        Phase::AskingAlbum => match event {
            EventModel::Text { answer, .. } => (
                WizardModel {
                    phase: Phase::AskingYear,
                    album: AlbumModel { album: Some(answer), ..m.album },
                    ..m
                },
                ask("Enter album year:"@, text_or_empty(m.album.year)),
            ),
            _ => give_up(m, event),
        },
        Phase::AskingYear => match event {
            EventModel::Text { answer, .. } => (
                WizardModel {
                    phase: Phase::AskingGenre,
                    album: AlbumModel { year: Some(answer), ..m.album },
                    ..m
                },
                RequestModel::AskSelect { prompt: genre_question(m.album.genre) },
            ),
            _ => give_up(m, event),
        },
        Phase::AskingGenre => match event {
            EventModel::Text { answer, .. } => ask_author(
                WizardModel {
                    album: AlbumModel { genre: Some(answer), ..m.album },
                    authors: Seq::empty(),
                    ..m
                },
            ),
            _ => give_up(m, event),
        },
        Phase::AskingAuthor => match event {
            EventModel::Text { answer, blank } => if blank {
                (
                    WizardModel {
                        phase: Phase::AskingCover,
                        album: AlbumModel { authors: m.authors, ..m.album },
                        ..m
                    },
                    RequestModel::AskConfirm {
                        message: "Add album cover? [y/n]"@,
                        default_yes: true,
                    },
                )
            } else {
                ask_author(WizardModel { authors: m.authors.push(answer), ..m })
            },
            _ => give_up(m, event),
        },
        Phase::AskingCover => match event {
            EventModel::Confirmed(yes) => if yes {
                (
                    WizardModel { phase: Phase::PickingCover, ..m },
                    RequestModel::PickPath {
                        label: "Choose cover image"@,
                        default_path: m.album.cover_image,
                    },
                )
            } else {
                list(m)
            },
            _ => give_up(m, event),
        },
        Phase::PickingCover => match event {
            EventModel::Path(path) => list(
                WizardModel { album: AlbumModel { cover_image: Some(path), ..m.album }, ..m },
            ),
            _ => give_up(m, event),
        },
        Phase::Listing => match event {
            EventModel::Tracks(files) => if files.len() == 0 {
                abort(m, m.input_directory + " has no mp3 files"@, Seq::empty())
            } else {
                (
                    WizardModel { phase: Phase::CreatingOutput, files, tagged: Seq::empty(), ..m },
                    RequestModel::CreateDirectory { path: m.output_directory },
                )
            },
            _ => give_up(m, event),
        },
        Phase::CreatingOutput => match event {
            EventModel::Done => ask_title(m),
            _ => give_up(m, event),
        },
        Phase::AskingTitle => match event {
            EventModel::Text { answer, .. } => (
                WizardModel { phase: Phase::AskingNumber, title: answer, ..m },
                ask("Track number:"@, current_defaults(m).1),
            ),
            _ => give_up(m, event),
        },
        Phase::AskingNumber => match event {
            EventModel::Text { answer, .. } => tag(WizardModel { number: answer, ..m }),
            _ => give_up(m, event),
        },
        Phase::Tagging => match event {
            EventModel::Exited { success } => if success {
                tagged(m)
            } else {
                abort(m, "ffmpeg failed"@, Seq::empty())
            },
            EventModel::Lost { cause } => abort(m, "Failed to wait for ffmpeg"@, cause),
            _ => give_up(m, event),
        },
        Phase::WritingCache => match event {
            EventModel::Done => (
                WizardModel { phase: Phase::Done, ..m },
                RequestModel::Finish {
                    message: "All tracks processed and saved to: "@ + m.output_directory,
                },
            ),
            _ => give_up(m, event),
        },
        Phase::Done => (m, RequestModel::Closed),
        Phase::Failed => (m, RequestModel::Closed),
    }
}

/// What holds of every wizard that was made by [`Wizard::start`] and moved on
/// by [`Wizard::step`].
pub open spec fn consistent(m: WizardModel) -> bool {
    &&& m.tagged.len() <= m.files.len()
    &&& forall|k: int| 0 <= k < m.tagged.len() ==> (#[trigger] m.tagged[k]).path == m.files[k].path
    &&& m.phase == Phase::CreatingOutput ==> m.tagged.len() == 0 && m.files.len() > 0
    &&& (m.phase == Phase::AskingTitle || m.phase == Phase::AskingNumber || m.phase
        == Phase::Tagging) ==> m.tagged.len() < m.files.len()
    &&& (m.phase == Phase::WritingCache || m.phase == Phase::Done) ==> m.tagged.len()
        == m.files.len() && m.album.tracks == m.tagged
}

/// The place of a phase in the order of a run.
pub open spec fn rank(phase: Phase) -> int {
    match phase {
        Phase::Probing => 0,
        Phase::PickingInput => 1,
        Phase::LoadingCache => 2,
        Phase::AskingAlbum => 3,
        Phase::AskingYear => 4,
        Phase::AskingGenre => 5,
        Phase::AskingAuthor => 6,
        Phase::AskingCover => 7,
        Phase::PickingCover => 8,
        Phase::Listing => 9,
        Phase::CreatingOutput => 10,
        Phase::AskingTitle => 11,
        Phase::AskingNumber => 11,
        Phase::Tagging => 11,
        Phase::WritingCache => 12,
        Phase::Done => 13,
        Phase::Failed => 13,
    }
}

/// A run: where the wizard in state `m` gets to when it is told `events` one
/// after another, and the requests it makes on the way, one for each event.
pub open spec fn run(m: WizardModel, events: Seq<EventModel>) -> (WizardModel, Seq<RequestModel>)
    decreases events.len(),
{
    if events.len() == 0 {
        (m, Seq::empty())
    } else {
        let before = run(m, events.drop_last());
        let last = advance(before.0, events.last());
        (last.0, before.1.push(last.1))
    }
}

/// Whether the tagging utility is asked to tag anything in `requests`.
pub open spec fn tags_anything(requests: Seq<RequestModel>) -> bool {
    exists|i: int| 0 <= i < requests.len() && #[trigger] requests[i] is RunTagger
}

/// Whether the cache is asked to be written in `requests`.
pub open spec fn writes_cache(requests: Seq<RequestModel>) -> bool {
    exists|i: int| 0 <= i < requests.len() && #[trigger] requests[i] is WriteCache
}

/// One step keeps the wizard consistent and never goes back in the order of
/// the run; the utility is asked to tag only on the way into the tagging
/// phase, and the cache is asked to be written only on the way into the
/// writing phase.
pub proof fn lemma_advance(m: WizardModel, event: EventModel)
    requires
        consistent(m),
    ensures
        consistent(advance(m, event).0),
        rank(m.phase) <= rank(advance(m, event).0.phase),
        advance(m, event).1 is RunTagger ==> advance(m, event).0.phase == Phase::Tagging,
        advance(m, event).1 is WriteCache ==> advance(m, event).0.phase == Phase::WritingCache
            && m.phase == Phase::Tagging,
        m.phase == Phase::Failed || m.phase == Phase::Done ==> advance(m, event) == (
            m,
            RequestModel::Closed,
        ),
{
    if m.phase == Phase::Tagging {
        if let EventModel::Exited { success } = event {
            if success {
                let done = m.tagged.push(current_track(m));
                assert forall|k: int| 0 <= k < done.len() implies (#[trigger] done[k]).path
                    == m.files[k].path by {
                    if k < m.tagged.len() {
                        assert(done[k] == m.tagged[k]);
                    }
                }
            }
        }
    }
}

/// Every run from the start leaves the wizard consistent. As long as the
/// wizard has not come to the tracks, the utility was not asked to tag
/// anything; and as long as it has not come to the end of the tracks, the
/// cache was not asked to be written.
pub proof fn law_order_of_a_run(events: Seq<EventModel>)
    ensures
        consistent(run(opening(), events).0),
        rank(run(opening(), events).0.phase) <= rank(Phase::CreatingOutput) ==> !tags_anything(
            run(opening(), events).1,
        ),
        rank(run(opening(), events).0.phase) <= rank(Phase::Tagging) ==> !writes_cache(
            run(opening(), events).1,
        ),
        run(opening(), events).1.len() == events.len(),
    decreases events.len(),
{
    if events.len() > 0 {
        law_order_of_a_run(events.drop_last());
        let before = run(opening(), events.drop_last());
        lemma_advance(before.0, events.last());
        let last = advance(before.0, events.last());
        let requests = before.1.push(last.1);
        assert(run(opening(), events) == (last.0, requests));
        if rank(last.0.phase) <= rank(Phase::CreatingOutput) {
            assert forall|i: int| 0 <= i < requests.len() implies !(#[trigger] requests[i]
                is RunTagger) by {
                if i < before.1.len() {
                    assert(requests[i] == before.1[i]);
                }
            }
        }
        if rank(last.0.phase) <= rank(Phase::Tagging) {
            assert forall|i: int| 0 <= i < requests.len() implies !(#[trigger] requests[i]
                is WriteCache) by {
                if i < before.1.len() {
                    assert(requests[i] == before.1[i]);
                }
            }
        }
    }
}

/// Once the run is over, in either way, the wizard asks for nothing more.
pub proof fn law_over_is_over(m: WizardModel, events: Seq<EventModel>)
    requires
        m.phase == Phase::Failed || m.phase == Phase::Done,
    ensures
        run(m, events).0 == m,
        run(m, events).1.len() == events.len(),
        forall|i: int| 0 <= i < events.len() ==> #[trigger] run(m, events).1[i] is Closed,
    decreases events.len(),
{
    if events.len() > 0 {
        law_over_is_over(m, events.drop_last());
        let before = run(m, events.drop_last());
        let requests = run(m, events).1;
        assert forall|i: int| 0 <= i < events.len() implies #[trigger] requests[i] is Closed by {
            if i < before.1.len() {
                assert(requests[i] == before.1[i]);
            }
        }
    }
}

/// A directory without audio files ends the run. Whatever happened `before`,
/// where the wizard then waits for the listing and the listing holds no
/// regular file with the extension `mp3` or `m4a`, the wizard gives up saying
/// so; and in the whole run, whatever happens `after`, the utility is never
/// asked to tag anything and the cache is never asked to be written.
pub proof fn law_no_audio_files_end_the_run(
    before: Seq<EventModel>,
    entries: Seq<EntryModel>,
    after: Seq<EventModel>,
)
    requires
        run(opening(), before).0.phase == Phase::Listing,
        tracks_of(entries).len() == 0,
    ensures
        ({
            let start = run(opening(), before);
            let failed = advance(start.0, digested(start.0, ReplyModel::Entries(entries)));
            let rest = run(failed.0, after);
            &&& failed.1 == RequestModel::Abort {
                message: start.0.input_directory + " has no mp3 files"@,
                cause: Seq::empty(),
            }
            &&& failed.0.phase == Phase::Failed
            &&& rest.0.phase == Phase::Failed
            &&& !tags_anything(start.1) && !tags_anything(rest.1)
            &&& !writes_cache(start.1) && !writes_cache(rest.1)
        }),
{
    law_order_of_a_run(before);
    let start = run(opening(), before);
    let failed = advance(start.0, digested(start.0, ReplyModel::Entries(entries)));
    law_over_is_over(failed.0, after);
}

/// A track that the utility fails on ends the run before the cache is
/// written. Whatever happened `before`, where the wizard then waits for the
/// utility and the utility exits with a status that is not zero, the wizard
/// gives up; and in the whole run, whatever happens `after`, the cache is
/// never asked to be written.
pub proof fn law_failed_track_ends_the_run(before: Seq<EventModel>, after: Seq<EventModel>)
    requires
        run(opening(), before).0.phase == Phase::Tagging,
    ensures
        ({
            let start = run(opening(), before);
            let failed = advance(start.0, EventModel::Exited { success: false });
            let rest = run(failed.0, after);
            &&& failed.1 == RequestModel::Abort { message: "ffmpeg failed"@, cause: Seq::empty() }
            &&& failed.0.phase == Phase::Failed
            &&& rest.0.phase == Phase::Failed
            &&& !writes_cache(start.1) && !writes_cache(rest.1)
            &&& forall|i: int| 0 <= i < after.len() ==> #[trigger] rest.1[i] is Closed
        }),
{
    law_order_of_a_run(before);
    let start = run(opening(), before);
    let failed = advance(start.0, EventModel::Exited { success: false });
    law_over_is_over(failed.0, after);
}

/// Any failure ends the run at once: an event that makes the wizard give up
/// leaves it failed, and a failed wizard asks for nothing more.
pub proof fn law_failure_ends_the_run(m: WizardModel, event: EventModel, after: Seq<EventModel>)
    requires
        advance(m, event).1 is Abort,
    ensures
        advance(m, event).0.phase == Phase::Failed,
        forall|i: int|
            0 <= i < after.len() ==> #[trigger] run(advance(m, event).0, after).1[i] is Closed,
{
    law_over_is_over(advance(m, event).0, after);
}

/// The cache records exactly the tracks of the run that writes it: where the
/// wizard asks for the cache to be written, the album's tracks are the tracks
/// to tag, one entry for each, in the order in which they were tagged, and
/// nothing is left of the tracks that the cache held before.
pub proof fn law_cache_holds_this_run(m: WizardModel, event: EventModel)
    requires
        consistent(m),
        advance(m, event).1 is WriteCache,
    ensures
        ({
            let next = advance(m, event).0;
            let album = advance(m, event).1->WriteCache_album;
            &&& album == next.album
            &&& album.tracks == next.tagged
            &&& album.tracks.len() == m.files.len()
            &&& forall|k: int|
                0 <= k < m.files.len() ==> (#[trigger] album.tracks[k]).path == m.files[k].path
            &&& advance(m, event).1->WriteCache_path == m.cache_path
        }),
{
    lemma_advance(m, event);
}

/// The tracks that the wizard takes from a listing are the regular files
/// with the extension `mp3` or `m4a`, in ascending order of their paths; each
/// goes by its own file name, and its tagged copy goes under that name.
pub proof fn law_tracks_of_a_listing(m: WizardModel, entries: Seq<EntryModel>)
    ensures
        digested(m, ReplyModel::Entries(entries)) is Tracks,
        ({
            let files = digested(m, ReplyModel::Entries(entries))->Tracks_0;
            &&& files.len() == tracks_of(entries).len()
            &&& forall|k: int|
                0 <= k < files.len() ==> {
                    &&& (#[trigger] files[k]).path == tracks_of(entries)[k]
                    &&& file_name_of(files[k].path) == Some(files[k].name)
                    &&& files[k].output == join_of(m.output_directory, files[k].name)
                }
        }),
{
    law_tracks_are_sorted_audio_files(entries);
    let files = files_of(tracks_of(entries), m.output_directory);
    assert forall|k: int| 0 <= k < files.len() implies {
        &&& (#[trigger] files[k]).path == tracks_of(entries)[k]
        &&& file_name_of(files[k].path) == Some(files[k].name)
        &&& files[k].output == join_of(m.output_directory, files[k].name)
    } by {
        assert(file_name_of(tracks_of(entries)[k]) is Some);
    }
}

/// The message that goes with a request of the given phase that could not be
/// done.
pub fn context_message(phase: Phase) -> (out: String)
    ensures
        out@ == context(phase),
{
    match phase {
        Phase::Probing => String::from_str("ffmpeg is not accessible via $PATH"),
        Phase::PickingInput => String::new(),
        Phase::LoadingCache => String::from_str("Failed to read album metadata cache"),
        Phase::AskingAlbum => String::from_str("Failed to get album name"),
        Phase::AskingYear => String::from_str("Failed to get album year"),
        Phase::AskingGenre => String::from_str("Failed to select genre"),
        Phase::AskingAuthor => String::from_str("Failed to get author name"),
        Phase::AskingCover => String::from_str("Failed to prompt for whether album"),
        Phase::PickingCover => String::from_str("Failed to get cover image path"),
        Phase::Listing => String::from_str("Failed to read contents of input directory"),
        Phase::CreatingOutput => String::from_str("Failed to create tagged output directory"),
        Phase::AskingTitle => String::from_str("Failed to get track title"),
        Phase::AskingNumber => String::from_str("Failed to get track number"),
        Phase::Tagging => String::from_str("Failed to spawn ffmpeg"),
        Phase::WritingCache => String::from_str("Failed to write album metadata cache"),
        Phase::Done => String::new(),
        Phase::Failed => String::new(),
    }
}

/// Why a request failed, as far as the event says.
pub fn event_cause(event: WizardEvent) -> (out: String)
    ensures
        out@ == cause_of(event@),
{
    match event {
        WizardEvent::Failed { cause } => cause,
        WizardEvent::Malformed { cause } => cause,
        WizardEvent::Lost { cause } => cause,
        _ => String::new(),
    }
}

impl Wizard {
    #[verifier::type_invariant]
    spec fn well_formed(self) -> bool {
        consistent(self@)
    }

    /// Starts a run. Gives the wizard and the first thing to do: to see
    /// whether the tagging utility is there.
    pub fn start() -> (out: (Wizard, WizardRequest))
        ensures
            out.0@ == opening(),
            out.1@ == (RequestModel::RunProbe { command: probe_of() }),
            consistent(out.0@),
    {
        let album = AlbumMetadata::default();
        let wizard = Wizard {
            phase: Phase::Probing,
            input_directory: String::new(),
            cache_path: String::new(),
            output_directory: String::new(),
            album,
            recorded: Vec::new(),
            authors: Vec::new(),
            files: Vec::new(),
            tagged: Vec::new(),
            title: String::new(),
            number: String::new(),
        };
        proof {
            assert(wizard.recorded.deep_view() =~= Seq::empty());
            assert(wizard.authors.deep_view() =~= Seq::empty());
            assert(wizard.files.deep_view() =~= Seq::empty());
            assert(wizard.tagged.deep_view() =~= Seq::empty());
        }
        (wizard, WizardRequest::RunProbe { command: probe_command() })
    }

    /// The request that the wizard waits on.
    pub fn phase(&self) -> (out: Phase)
        ensures
            out == self@.phase,
    {
        self.phase
    }

    /// Whether the run is over.
    pub fn is_over(&self) -> (out: bool)
        ensures
            out == (self@.phase == Phase::Done || self@.phase == Phase::Failed),
    {
        match self.phase {
            Phase::Done => true,
            Phase::Failed => true,
            _ => false,
        }
    }

    fn abort(self, message: String, cause: String) -> (out: (Wizard, WizardRequest))
        ensures
            (out.0@, out.1@) == abort(self@, message@, cause@),
    {
        proof {
            use_type_invariant(&self);
        }
        (Wizard { phase: Phase::Failed, ..self }, WizardRequest::Abort { message, cause })
    }

    fn give_up(self, event: WizardEvent) -> (out: (Wizard, WizardRequest))
        ensures
            (out.0@, out.1@) == give_up(self@, event@),
    {
        let message = context_message(self.phase);
        self.abort(message, event_cause(event))
    }

    fn ask_author(self) -> (out: (Wizard, WizardRequest))
        requires
            self@.phase != Phase::WritingCache,
            self@.phase != Phase::Done,
            self@.phase != Phase::CreatingOutput,
            self@.phase != Phase::AskingTitle,
            self@.phase != Phase::AskingNumber,
            self@.phase != Phase::Tagging,
        ensures
            (out.0@, out.1@) == ask_author(self@),
    {
        proof {
            use_type_invariant(&self);
        }
        let default = if self.authors.len() < self.album.authors.len() {
            self.album.authors[self.authors.len()].clone()
        } else {
            String::new()
        };
        (
            Wizard { phase: Phase::AskingAuthor, ..self },
            WizardRequest::AskText {
                heading: None,
                message: String::from_str("Enter author name (blank to finish):"),
                default,
            },
        )
    }

    fn list(self) -> (out: (Wizard, WizardRequest))
        ensures
            (out.0@, out.1@) == list(self@),
    {
        proof {
            use_type_invariant(&self);
        }
        let path = self.input_directory.clone();
        (Wizard { phase: Phase::Listing, ..self }, WizardRequest::ListDirectory { path })
    }

    fn ask_title(self) -> (out: (Wizard, WizardRequest))
        requires
            self@.tagged.len() < self@.files.len(),
        ensures
            (out.0@, out.1@) == ask_title(self@),
    {
        proof {
            use_type_invariant(&self);
        }
        let file = &self.files[self.tagged.len()];
        let defaults = defaults_from(&self.album.tracks, &self.recorded, file.name.as_str());
        let heading = concat2(file.name.as_str(), ":");
        (
            Wizard { phase: Phase::AskingTitle, ..self },
            WizardRequest::AskText {
                heading: Some(heading),
                message: String::from_str("Track title:"),
                default: defaults.0,
            },
        )
    }

    /// What is recorded of the current track.
    fn current_track(&self) -> (out: TrackMetadata)
        requires
            self@.tagged.len() < self@.files.len(),
        ensures
            out@ == current_track(self@),
    {
        TrackMetadata {
            path: self.files[self.tagged.len()].path.clone(),
            name: self.title.clone(),
            number: self.number.clone(),
        }
    }

    fn tag(self) -> (out: (Wizard, WizardRequest))
        requires
            self@.tagged.len() < self@.files.len(),
        ensures
            (out.0@, out.1@) == tag(self@),
    {
        proof {
            use_type_invariant(&self);
        }
        let track = self.current_track();
        let file = &self.files[self.tagged.len()];
        let remove = file.output.clone();
        let command = edit_metadata(file.path.as_str(), file.output.as_str(), &track, &self.album);
        (Wizard { phase: Phase::Tagging, ..self }, WizardRequest::RunTagger { remove, command })
    }

    fn tagged(self) -> (out: (Wizard, WizardRequest))
        requires
            self@.phase == Phase::Tagging,
        ensures
            (out.0@, out.1@) == tagged(self@),
    {
        proof {
            use_type_invariant(&self);
            lemma_advance(self@, EventModel::Exited { success: true });
        }
        let track = self.current_track();
        let ghost before = self@;
        let Wizard {
            phase: _,
            input_directory,
            cache_path,
            output_directory,
            album,
            recorded,
            authors,
            files,
            tagged,
            title,
            number,
        } = self;
        let mut tagged = tagged;
        tagged.push(track);
        assert(tagged.deep_view() =~= before.tagged.push(current_track(before)));
        if tagged.len() < files.len() {
            let next = Wizard {
                phase: Phase::AskingTitle,
                input_directory,
                cache_path,
                output_directory,
                album,
                recorded,
                authors,
                files,
                tagged,
                title,
                number,
            };
            next.ask_title()
        } else {
            let album = AlbumMetadata {
                album: album.album,
                year: album.year,
                genre: album.genre,
                authors: album.authors,
                cover_image: album.cover_image,
                tracks: copy_tracks(&tagged),
            };
            let path = cache_path.clone();
            let written = album.copy();
            (
                Wizard {
                    phase: Phase::WritingCache,
                    input_directory,
                    cache_path,
                    output_directory,
                    album,
                    recorded,
                    authors,
                    files,
                    tagged,
                    title,
                    number,
                },
                WizardRequest::WriteCache { path, album: written },
            )
        }
    }

    /// What the wizard makes of `reply`.
    pub fn digest(&self, reply: WizardReply) -> (out: WizardEvent)
        ensures
            out@ == digested(self@, reply@),
    {
        match reply {
            WizardReply::Done => WizardEvent::Done,
            WizardReply::Failed { cause } => WizardEvent::Failed { cause },
            WizardReply::Path(path) => match self.phase {
                Phase::PickingInput => {
                    let cache_path = path_join(path.as_str(), "album.toml");
                    let output_directory = path_join(path.as_str(), "tagged");
                    WizardEvent::Directory { path, cache_path, output_directory }
                },
                _ => WizardEvent::Path(path),
            },
            WizardReply::Cache(album) => {
                let recorded = match &album {
                    Some(album) => recorded_file_names(&album.tracks),
                    None => Vec::new(),
                };
                assert(album is None ==> recorded.deep_view() =~= Seq::empty());
                WizardEvent::Cache { album, recorded }
            },
            WizardReply::Malformed { cause } => WizardEvent::Malformed { cause },
            WizardReply::Text(answer) => {
                let blank = is_blank(answer.as_str());
                WizardEvent::Text { answer, blank }
            },
            WizardReply::Confirmed(yes) => WizardEvent::Confirmed(yes),
            WizardReply::Entries(entries) => {
                let paths = enumerate_tracks(&entries);
                WizardEvent::Tracks(track_files(&paths, self.output_directory.as_str()))
            },
            WizardReply::Exited { success } => WizardEvent::Exited { success },
            WizardReply::Lost { cause } => WizardEvent::Lost { cause },
        }
    }

    /// Takes what came of the request made last and gives the next request.
    pub fn step(self, reply: WizardReply) -> (out: (Wizard, WizardRequest))
        ensures
            (out.0@, out.1@) == advance(self@, digested(self@, reply@)),
            consistent(self@),
            consistent(out.0@),
    {
        let event = self.digest(reply);
        self.apply(event)
    }

    /// Takes what came of the request made last, as an event, and gives the
    /// next request.
    pub fn apply(self, event: WizardEvent) -> (out: (Wizard, WizardRequest))
        ensures
            (out.0@, out.1@) == advance(self@, event@),
            consistent(self@),
            consistent(out.0@),
    {
        proof {
            use_type_invariant(&self);
            lemma_advance(self@, event@);
        }
        match self.phase {
            Phase::Probing => match event {
                WizardEvent::Done => (
                    Wizard { phase: Phase::PickingInput, ..self },
                    WizardRequest::PickPath {
                        label: String::from_str("Choose input directory"),
                        default_path: None,
                    },
                ),
                _ => self.give_up(event),
            },
            Phase::PickingInput => match event {
                WizardEvent::Directory { path, cache_path, output_directory } => {
                    let cache = cache_path.clone();
                    (
                        Wizard {
                            phase: Phase::LoadingCache,
                            input_directory: path,
                            cache_path,
                            output_directory,
                            ..self
                        },
                        WizardRequest::LoadCache { path: cache },
                    )
                },
                _ => self.abort(event_cause(event), String::new()),
            },
            Phase::LoadingCache => match event {
                WizardEvent::Cache { album, recorded } => {
                    let album = match album {
                        Some(album) => album,
                        None => AlbumMetadata::default(),
                    };
                    let default = or_empty(&album.album);
                    (
                        Wizard { phase: Phase::AskingAlbum, album, recorded, ..self },
                        WizardRequest::AskText {
                            heading: None,
                            message: String::from_str("Enter album name:"),
                            default,
                        },
                    )
                },
                WizardEvent::Malformed { cause } => self.abort(
                    String::from_str("Failed to parse album metadata cache"),
                    cause,
                ),
                _ => self.give_up(event),
            },
            Phase::AskingAlbum => match event {
                WizardEvent::Text { answer, .. } => {
                    let default = or_empty(&self.album.year);
                    let Wizard {
                        phase: _,
                        input_directory,
                        cache_path,
                        output_directory,
                        album,
                        recorded,
                        authors,
                        files,
                        tagged,
                        title,
                        number,
                    } = self;
                    let album = AlbumMetadata { album: Some(answer), ..album };
                    (
                        Wizard {
                            phase: Phase::AskingYear,
                            input_directory,
                            cache_path,
                            output_directory,
                            album,
                            recorded,
                            authors,
                            files,
                            tagged,
                            title,
                            number,
                        },
                        WizardRequest::AskText {
                            heading: None,
                            message: String::from_str("Enter album year:"),
                            default,
                        },
                    )
                },
                _ => self.give_up(event),
            },
            Phase::AskingYear => match event {
                WizardEvent::Text { answer, .. } => {
                    let prompt = select_genre(&self.album.genre);
                    let Wizard {
                        phase: _,
                        input_directory,
                        cache_path,
                        output_directory,
                        album,
                        recorded,
                        authors,
                        files,
                        tagged,
                        title,
                        number,
                    } = self;
                    let album = AlbumMetadata { year: Some(answer), ..album };
                    (
                        Wizard {
                            phase: Phase::AskingGenre,
                            input_directory,
                            cache_path,
                            output_directory,
                            album,
                            recorded,
                            authors,
                            files,
                            tagged,
                            title,
                            number,
                        },
                        WizardRequest::AskSelect { prompt },
                    )
                },
                _ => self.give_up(event),
            },
            Phase::AskingGenre => match event {
                WizardEvent::Text { answer, .. } => {
                    let Wizard {
                        phase: _,
                        input_directory,
                        cache_path,
                        output_directory,
                        album,
                        recorded,
                        authors,
                        files,
                        tagged,
                        title,
                        number,
                    } = self;
                    let album = AlbumMetadata { genre: Some(answer), ..album };
                    let authors: Vec<String> = Vec::new();
                    assert(authors.deep_view() =~= Seq::empty());
                    let next = Wizard {
                        phase: Phase::AskingGenre,
                        input_directory,
                        cache_path,
                        output_directory,
                        album,
                        recorded,
                        authors,
                        files,
                        tagged,
                        title,
                        number,
                    };
                    next.ask_author()
                },
                _ => self.give_up(event),
            },
            Phase::AskingAuthor => match event {
                WizardEvent::Text { answer, blank } => {
                    let Wizard {
                        phase: _,
                        input_directory,
                        cache_path,
                        output_directory,
                        album,
                        recorded,
                        authors,
                        files,
                        tagged,
                        title,
                        number,
                    } = self;
                    if blank {
                        let album = AlbumMetadata { authors: copy_all(&authors), ..album };
                        (
                            Wizard {
                                phase: Phase::AskingCover,
                                input_directory,
                                cache_path,
                                output_directory,
                                album,
                                recorded,
                                authors,
                                files,
                                tagged,
                                title,
                                number,
                            },
                            WizardRequest::AskConfirm {
                                message: String::from_str("Add album cover? [y/n]"),
                                default_yes: true,
                            },
                        )
                    } else {
                        let ghost before = authors.deep_view();
                        let mut authors = authors;
                        authors.push(answer);
                        assert(authors.deep_view() =~= before.push(answer@));
                        let next = Wizard {
                            phase: Phase::AskingAuthor,
                            input_directory,
                            cache_path,
                            output_directory,
                            album,
                            recorded,
                            authors,
                            files,
                            tagged,
                            title,
                            number,
                        };
                        next.ask_author()
                    }
                },
                _ => self.give_up(event),
            },
            Phase::AskingCover => match event {
                WizardEvent::Confirmed(yes) => {
                    if yes {
                        let default_path = copy_opt(&self.album.cover_image);
                        (
                            Wizard { phase: Phase::PickingCover, ..self },
                            WizardRequest::PickPath {
                                label: String::from_str("Choose cover image"),
                                default_path,
                            },
                        )
                    } else {
                        self.list()
                    }
                },
                _ => self.give_up(event),
            },
            Phase::PickingCover => match event {
                WizardEvent::Path(path) => {
                    let Wizard {
                        phase: _,
                        input_directory,
                        cache_path,
                        output_directory,
                        album,
                        recorded,
                        authors,
                        files,
                        tagged,
                        title,
                        number,
                    } = self;
                    let album = AlbumMetadata { cover_image: Some(path), ..album };
                    let next = Wizard {
                        phase: Phase::PickingCover,
                        input_directory,
                        cache_path,
                        output_directory,
                        album,
                        recorded,
                        authors,
                        files,
                        tagged,
                        title,
                        number,
                    };
                    next.list()
                },
                _ => self.give_up(event),
            },
            Phase::Listing => match event {
                WizardEvent::Tracks(found) => {
                    if found.len() == 0 {
                        let message = concat2(self.input_directory.as_str(), " has no mp3 files");
                        self.abort(message, String::new())
                    } else {
                        let path = self.output_directory.clone();
                        let Wizard {
                            phase: _,
                            input_directory,
                            cache_path,
                            output_directory,
                            album,
                            recorded,
                            authors,
                            files,
                            tagged,
                            title,
                            number,
                        } = self;
                        let tagged: Vec<TrackMetadata> = Vec::new();
                        assert(tagged.deep_view() =~= Seq::empty());
                        (
                            Wizard {
                                phase: Phase::CreatingOutput,
                                input_directory,
                                cache_path,
                                output_directory,
                                album,
                                recorded,
                                authors,
                                files: found,
                                tagged,
                                title,
                                number,
                            },
                            WizardRequest::CreateDirectory { path },
                        )
                    }
                },
                _ => self.give_up(event),
            },
            Phase::CreatingOutput => match event {
                WizardEvent::Done => self.ask_title(),
                _ => self.give_up(event),
            },
            Phase::AskingTitle => match event {
                WizardEvent::Text { answer, .. } => {
                    let file = &self.files[self.tagged.len()];
                    let defaults = defaults_from(
                        &self.album.tracks,
                        &self.recorded,
                        file.name.as_str(),
                    );
                    (
                        Wizard { phase: Phase::AskingNumber, title: answer, ..self },
                        WizardRequest::AskText {
                            heading: None,
                            message: String::from_str("Track number:"),
                            default: defaults.1,
                        },
                    )
                },
                _ => self.give_up(event),
            },
            Phase::AskingNumber => match event {
                WizardEvent::Text { answer, .. } => {
                    let next = Wizard { number: answer, ..self };
                    next.tag()
                },
                _ => self.give_up(event),
            },
            Phase::Tagging => match event {
                WizardEvent::Exited { success } => {
                    if success {
                        self.tagged()
                    } else {
                        self.abort(String::from_str("ffmpeg failed"), String::new())
                    }
                },
                WizardEvent::Lost { cause } => self.abort(
                    String::from_str("Failed to wait for ffmpeg"),
                    cause,
                ),
                _ => self.give_up(event),
            },
            Phase::WritingCache => match event {
                WizardEvent::Done => {
                    let message = concat2(
                        "All tracks processed and saved to: ",
                        self.output_directory.as_str(),
                    );
                    (Wizard { phase: Phase::Done, ..self }, WizardRequest::Finish { message })
                },
                _ => self.give_up(event),
            },
            Phase::Done => (self, WizardRequest::Closed),
            Phase::Failed => (self, WizardRequest::Closed),
        }
    }
}

} // verus!
