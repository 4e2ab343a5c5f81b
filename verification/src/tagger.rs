//! Tag applier: the command line that tags one track.
//!
//! The tagging utility is run once per track. This module decides what it is
//! run with; running it is the driver's part.

use vstd::prelude::*;
use vstd::string::*;
use crate::metadata::{AlbumMetadata, AlbumModel, TrackMetadata, TrackModel};
use crate::text::{concat2, join, joined, or_empty, text_or_empty};

verus! {

/// One run of the tagging utility.
#[derive(Clone, Debug, PartialEq, Eq)]
pub struct Command {
    /// The program to run.
    pub program: String,
    /// Its arguments, in order.
    pub args: Vec<String>,
}

/// A command as the contracts see it.
pub struct CommandModel {
    pub program: Seq<char>,
    pub args: Seq<Seq<char>>,
}

impl View for Command {
    type V = CommandModel;

    open spec fn view(&self) -> CommandModel {
        CommandModel { program: self.program@, args: self.args.deep_view() }
    }
}

/// The command that asks the utility for its version.
pub open spec fn probe_of() -> CommandModel {
    CommandModel { program: tagger_program(), args: probe_arguments() }
}

/// The command that tags the file `input` as `track` of `album` and writes
/// the result to `output`.
pub open spec fn tagging_of(
    input: Seq<char>,
    output: Seq<char>,
    track: TrackModel,
    album: AlbumModel,
) -> CommandModel {
    CommandModel { program: tagger_program(), args: tagger_arguments(input, output, track, album) }
}

/// The name under which the tagging utility is found.
pub open spec fn tagger_program() -> Seq<char> {
    "ffmpeg"@
}

/// The arguments that only ask the utility for its version.
pub open spec fn probe_arguments() -> Seq<Seq<char>> {
    seq!["-version"@]
}

/// The arguments that add the cover image as a second input and say which
/// stream of which input goes to the output. Empty without a cover.
pub open spec fn cover_inputs(cover: Option<Seq<char>>) -> Seq<Seq<char>> {
    match cover {
        Some(image) => seq!["-i"@, image, "-map"@, "0:a"@, "-map"@, "1:v"@],
        None => Seq::empty(),
    }
}

/// The arguments that label the cover image's stream. Empty without a cover.
pub open spec fn cover_labels(cover: Option<Seq<char>>) -> Seq<Seq<char>> {
    match cover {
        Some(_) => seq![
            "-metadata:s:v"@,
            "title=Album cover"@,
            "-metadata:s:v"@,
            "comment=Cover (front)"@,
        ],
        None => Seq::empty(),
    }
}

/// The six tags, each behind its `-metadata`. A field of the album that was
/// never filled in gives an empty value, never a missing tag.
pub open spec fn tag_arguments(track: TrackModel, album: AlbumModel) -> Seq<Seq<char>> {
    seq![
        "-metadata"@,
        "album="@ + text_or_empty(album.album),
        "-metadata"@,
        "artist="@ + joined(album.authors, "; "@),
        "-metadata"@,
        "title="@ + track.name,
        "-metadata"@,
        "track="@ + track.number,
        "-metadata"@,
        "date="@ + text_or_empty(album.year),
        "-metadata"@,
        "genre="@ + text_or_empty(album.genre),
    ]
}

/// The arguments that tag the file `input` as `track` of `album` and write
/// the result to `output`.
pub open spec fn tagger_arguments(
    input: Seq<char>,
    output: Seq<char>,
    track: TrackModel,
    album: AlbumModel,
) -> Seq<Seq<char>> {
    seq!["-y"@, "-i"@, input] + cover_inputs(album.cover_image) + seq![
        "-c"@,
        "copy"@,
        "-id3v2_version"@,
        "3"@,
    ] + tag_arguments(track, album) + cover_labels(album.cover_image) + seq![output]
}

/// Whether `word` is one of the three options that depend on the cover.
pub open spec fn is_stream_option(word: Seq<char>) -> bool {
    word == "-i"@ || word == "-map"@ || word == "-metadata:s:v"@
}

/// What the literals of the command line hold.
proof fn lemma_words()
    ensures
        "-y"@.len() == 2 && "-y"@[1] == 'y',
        "-i"@.len() == 2 && "-i"@[1] == 'i',
        "-c"@.len() == 2 && "-c"@[1] == 'c',
        "-map"@.len() == 4,
        "0:a"@.len() == 3,
        "1:v"@.len() == 3,
        "0:a"@[0] == '0',
        "1:v"@[0] == '1',
        "copy"@.len() == 4 && "copy"@[0] == 'c',
        "-map"@[0] == '-',
        "-id3v2_version"@.len() == 14,
        "3"@.len() == 1,
        "-metadata"@.len() == 9,
        "-metadata:s:v"@.len() == 13 && "-metadata:s:v"@[0] == '-',
        "title=Album cover"@.len() == 17,
        "comment=Cover (front)"@.len() == 21,
        "album="@.len() == 6 && "album="@[0] == 'a',
        "artist="@.len() == 7 && "artist="@[0] == 'a',
        "title="@.len() == 6 && "title="@[0] == 't',
        "track="@.len() == 6 && "track="@[0] == 't',
        "date="@.len() == 5 && "date="@[0] == 'd',
        "genre="@.len() == 6 && "genre="@[0] == 'g',
{
    reveal_strlit("-y");
    reveal_strlit("-i");
    reveal_strlit("-c");
    reveal_strlit("-map");
    reveal_strlit("0:a");
    reveal_strlit("1:v");
    reveal_strlit("copy");
    reveal_strlit("-id3v2_version");
    reveal_strlit("3");
    reveal_strlit("-metadata");
    reveal_strlit("-metadata:s:v");
    reveal_strlit("title=Album cover");
    reveal_strlit("comment=Cover (front)");
    reveal_strlit("album=");
    reveal_strlit("artist=");
    reveal_strlit("title=");
    reveal_strlit("track=");
    reveal_strlit("date=");
    reveal_strlit("genre=");
}

/// A tag is none of the options that depend on the cover: it begins with the
/// letter of its key.
proof fn lemma_tag_is_no_option(key: Seq<char>, value: Seq<char>)
    requires
        key.len() > 0,
        key[0] != '-',
    ensures
        !is_stream_option(key + value),
{
    lemma_words();
    assert((key + value)[0] == key[0]);
    assert("-i"@[0] == '-') by {
        reveal_strlit("-i");
    }
}

/// Without a cover image the command line maps no stream and labels none, and
/// names one input. With a cover image it names one more input, the image,
/// maps the audio of the first input and the picture of the second, and
/// labels the picture twice.
///
/// This holds where none of the three paths is itself `-i`, `-map` or
/// `-metadata:s:v`.
pub proof fn law_cover_decides_stream_options(
    input: Seq<char>,
    output: Seq<char>,
    track: TrackModel,
    album: AlbumModel,
)
    requires
        !is_stream_option(input),
        !is_stream_option(output),
        album.cover_image is Some ==> !is_stream_option(album.cover_image->0),
    ensures
        ({
            let args = tagger_arguments(input, output, track, album);
            &&& album.cover_image is None ==> {
                &&& args.len() == 20
                &&& forall|i: int|
                    0 <= i < args.len() ==> {
                        &&& (#[trigger] args[i] == "-i"@ <==> i == 1)
                        &&& args[i] != "-map"@
                        &&& args[i] != "-metadata:s:v"@
                    }
            }
            &&& album.cover_image is Some ==> {
                &&& args.len() == 30
                &&& args[4] == album.cover_image->0
                &&& args[6] == "0:a"@
                &&& args[8] == "1:v"@
                &&& forall|i: int|
                    0 <= i < args.len() ==> {
                        &&& (#[trigger] args[i] == "-i"@ <==> i == 1 || i == 3)
                        &&& (args[i] == "-map"@ <==> i == 5 || i == 7)
                        &&& (args[i] == "-metadata:s:v"@ <==> i == 25 || i == 27)
                    }
            }
        }),
{
    lemma_words();
    let args = tagger_arguments(input, output, track, album);
    let tags = tag_arguments(track, album);
    lemma_tag_is_no_option("album="@, text_or_empty(album.album));
    lemma_tag_is_no_option("artist="@, joined(album.authors, "; "@));
    lemma_tag_is_no_option("title="@, track.name);
    lemma_tag_is_no_option("track="@, track.number);
    lemma_tag_is_no_option("date="@, text_or_empty(album.year));
    lemma_tag_is_no_option("genre="@, text_or_empty(album.genre));
    assert(tags.len() == 12);
    assert forall|k: int| 0 <= k < 12 implies {
        &&& (k % 2 == 0 ==> #[trigger] tags[k] == "-metadata"@)
        &&& (k % 2 == 1 ==> !is_stream_option(tags[k]))
    } by {
        if k == 0 || k == 2 || k == 4 || k == 6 || k == 8 || k == 10 {
        } else if k == 1 {
        } else if k == 3 {
        } else if k == 5 {
        } else if k == 7 {
        } else if k == 9 {
        } else {
            assert(k == 11);
        }
    }
    match album.cover_image {
        None => {
            assert(args.len() == 20);
            assert forall|i: int| 0 <= i < args.len() implies {
                &&& (#[trigger] args[i] == "-i"@ <==> i == 1)
                &&& args[i] != "-map"@
                &&& args[i] != "-metadata:s:v"@
            } by {
                if 7 <= i < 19 {
                    assert(args[i] == tags[i - 7]);
                }
            }
        },
        Some(image) => {
            assert(args.len() == 30);
            assert forall|i: int| 0 <= i < args.len() implies {
                &&& (#[trigger] args[i] == "-i"@ <==> i == 1 || i == 3)
                &&& (args[i] == "-map"@ <==> i == 5 || i == 7)
                &&& (args[i] == "-metadata:s:v"@ <==> i == 25 || i == 27)
            } by {
                if 13 <= i < 25 {
                    assert(args[i] == tags[i - 13]);
                }
            }
        },
    }
}

/// The command that asks the tagging utility for its version, to see whether
/// it can be run at all.
pub fn probe_command() -> (out: Command)
    ensures
        out@ == probe_of(),
{
    let mut args: Vec<String> = Vec::new();
    args.push(String::from_str("-version"));
    assert(args.deep_view() =~= probe_arguments());
    Command { program: String::from_str("ffmpeg"), args }
}

/// The command that tags the file `input` as `meta` of `album` and writes the
/// result to `output`.
pub fn edit_metadata(
    input: &str,
    output: &str,
    meta: &TrackMetadata,
    album: &AlbumMetadata,
) -> (out: Command)
    ensures
        out@ == tagging_of(input@, output@, meta@, album@),
{
    let album_metadata = concat2("album=", or_empty(&album.album).as_str());
    let artist_metadata = concat2("artist=", join(&album.authors, "; ").as_str());
    let title_metadata = concat2("title=", meta.name.as_str());
    let track_metadata = concat2("track=", meta.number.as_str());
    let date_metadata = concat2("date=", or_empty(&album.year).as_str());
    let genre_metadata = concat2("genre=", or_empty(&album.genre).as_str());

    let mut command: Vec<String> = Vec::new();
    command.push(String::from_str("-y"));
    command.push(String::from_str("-i"));
    command.push(input.to_owned());
    assert(command.deep_view() =~= seq!["-y"@, "-i"@, input@]);

    if let Some(cover) = &album.cover_image {
        command.push(String::from_str("-i"));
        command.push(cover.clone());
        command.push(String::from_str("-map"));
        command.push(String::from_str("0:a"));
        command.push(String::from_str("-map"));
        command.push(String::from_str("1:v"));
    }
    assert(command.deep_view() =~= seq!["-y"@, "-i"@, input@] + cover_inputs(album@.cover_image));

    command.push(String::from_str("-c"));
    command.push(String::from_str("copy"));
    command.push(String::from_str("-id3v2_version"));
    command.push(String::from_str("3"));
    assert(command.deep_view() =~= seq!["-y"@, "-i"@, input@] + cover_inputs(album@.cover_image)
        + seq!["-c"@, "copy"@, "-id3v2_version"@, "3"@]);

    command.push(String::from_str("-metadata"));
    command.push(album_metadata);
    command.push(String::from_str("-metadata"));
    command.push(artist_metadata);
    command.push(String::from_str("-metadata"));
    command.push(title_metadata);
    command.push(String::from_str("-metadata"));
    command.push(track_metadata);
    command.push(String::from_str("-metadata"));
    command.push(date_metadata);
    command.push(String::from_str("-metadata"));
    command.push(genre_metadata);
    assert(command.deep_view() =~= seq!["-y"@, "-i"@, input@] + cover_inputs(album@.cover_image)
        + seq!["-c"@, "copy"@, "-id3v2_version"@, "3"@] + tag_arguments(meta@, album@));

    if album.cover_image.is_some() {
        command.push(String::from_str("-metadata:s:v"));
        command.push(String::from_str("title=Album cover"));
        command.push(String::from_str("-metadata:s:v"));
        command.push(String::from_str("comment=Cover (front)"));
    }
    assert(command.deep_view() =~= seq!["-y"@, "-i"@, input@] + cover_inputs(album@.cover_image)
        + seq!["-c"@, "copy"@, "-id3v2_version"@, "3"@] + tag_arguments(meta@, album@)
        + cover_labels(album@.cover_image));

    command.push(output.to_owned());
    assert(command.deep_view() =~= tagger_arguments(input@, output@, meta@, album@));

    Command { program: String::from_str("ffmpeg"), args: command }
}

} // verus!
