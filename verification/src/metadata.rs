//! What is known about an album and its tracks, and how the answers of an
//! earlier run supply the defaults of the next.

use vstd::prelude::*;
use vstd::string::*;
use crate::paths::{file_name_of, path_file_name};
use crate::text::{copy_all, copy_opt, opt_text};

verus! {

/// What was entered for one track.
#[derive(Clone, Debug, PartialEq, Eq)]
pub struct TrackMetadata {
    /// The path of the source file.
    pub path: String,
    /// The title.
    pub name: String,
    /// The track number, kept as text so that forms like `3/12` survive.
    pub number: String,
}

/// A track as the contracts see it.
pub struct TrackModel {
    pub path: Seq<char>,
    pub name: Seq<char>,
    pub number: Seq<char>,
}

impl View for TrackMetadata {
    type V = TrackModel;

    open spec fn view(&self) -> TrackModel {
        TrackModel { path: self.path@, name: self.name@, number: self.number@ }
    }
}

impl DeepView for TrackMetadata {
    type V = TrackModel;

    open spec fn deep_view(&self) -> TrackModel {
        self@
    }
}

/// What was entered for an album, with one entry per track of the last run.
#[derive(Clone, Debug, PartialEq, Eq)]
pub struct AlbumMetadata {
    pub album: Option<String>,
    pub year: Option<String>,
    pub genre: Option<String>,
    pub authors: Vec<String>,
    pub cover_image: Option<String>,
    pub tracks: Vec<TrackMetadata>,
}

/// An album as the contracts see it.
pub struct AlbumModel {
    pub album: Option<Seq<char>>,
    pub year: Option<Seq<char>>,
    pub genre: Option<Seq<char>>,
    pub authors: Seq<Seq<char>>,
    pub cover_image: Option<Seq<char>>,
    pub tracks: Seq<TrackModel>,
}

impl View for AlbumMetadata {
    type V = AlbumModel;

    open spec fn view(&self) -> AlbumModel {
        AlbumModel {
            album: opt_text(self.album),
            year: opt_text(self.year),
            genre: opt_text(self.genre),
            authors: self.authors.deep_view(),
            cover_image: opt_text(self.cover_image),
            tracks: self.tracks.deep_view(),
        }
    }
}

/// The album of which nothing is known yet.
pub open spec fn empty_album() -> AlbumModel {
    AlbumModel {
        album: None,
        year: None,
        genre: None,
        authors: Seq::empty(),
        cover_image: None,
        tracks: Seq::empty(),
    }
}

impl Default for AlbumMetadata {
    fn default() -> (out: AlbumMetadata)
        ensures
            out@ == empty_album(),
    {
        let out = AlbumMetadata {
            album: None,
            year: None,
            genre: None,
            authors: Vec::new(),
            cover_image: None,
            tracks: Vec::new(),
        };
        assert(out.authors.deep_view() =~= Seq::empty());
        assert(out.tracks.deep_view() =~= Seq::empty());
        out
    }
}

impl TrackMetadata {
    /// A copy of this track.
    pub fn copy(&self) -> (out: TrackMetadata)
        ensures
            out@ == self@,
    {
        TrackMetadata {
            path: self.path.clone(),
            name: self.name.clone(),
            number: self.number.clone(),
        }
    }
}

/// A copy of a list of tracks.
pub fn copy_tracks(tracks: &Vec<TrackMetadata>) -> (out: Vec<TrackMetadata>)
    ensures
        out.deep_view() == tracks.deep_view(),
{
    let mut out: Vec<TrackMetadata> = Vec::new();
    let mut i: usize = 0;
    while i < tracks.len()
        invariant
            i <= tracks.len(),
            out.len() == i,
            forall|j: int| 0 <= j < i ==> out[j]@ == tracks[j]@,
        decreases tracks.len() - i,
    {
        out.push(tracks[i].copy());
        i = i + 1;
    }
    assert(out.deep_view() =~= tracks.deep_view());
    out
}

impl AlbumMetadata {
    /// A copy of this album.
    pub fn copy(&self) -> (out: AlbumMetadata)
        ensures
            out@ == self@,
    {
        AlbumMetadata {
            album: copy_opt(&self.album),
            year: copy_opt(&self.year),
            genre: copy_opt(&self.genre),
            authors: copy_all(&self.authors),
            cover_image: copy_opt(&self.cover_image),
            tracks: copy_tracks(&self.tracks),
        }
    }
}

/// The first place in `names` that holds `file_name`, if any does.
pub open spec fn first_named(names: Seq<Option<Seq<char>>>, file_name: Seq<char>) -> Option<int>
    decreases names.len(),
{
    if names.len() == 0 {
        None
    } else {
        match first_named(names.drop_last(), file_name) {
            Some(i) => Some(i),
            None => if names.last() == Some(file_name) {
                Some(names.len() - 1)
            } else {
                None
            },
        }
    }
}

/// The file names under which the tracks were recorded.
pub open spec fn recorded_names(tracks: Seq<TrackModel>) -> Seq<Option<Seq<char>>> {
    Seq::new(tracks.len(), |i: int| file_name_of(tracks[i].path))
}

/// The earlier track that supplies the defaults for the file called
/// `file_name`: the first one that was recorded under that file name, whatever
/// directory it was in.
pub open spec fn default_track_of(tracks: Seq<TrackModel>, file_name: Seq<char>) -> Option<int> {
    first_named(recorded_names(tracks), file_name)
}

/// The title and the number to offer for the file called `file_name`, given
/// the file name that each track was recorded under: those of the first track
/// recorded under that name, or empty text.
pub open spec fn defaults_given(
    tracks: Seq<TrackModel>,
    names: Seq<Option<Seq<char>>>,
    file_name: Seq<char>,
) -> (Seq<char>, Seq<char>) {
    match first_named(names, file_name) {
        Some(i) => if i < tracks.len() {
            (tracks[i].name, tracks[i].number)
        } else {
            (Seq::empty(), Seq::empty())
        },
        None => (Seq::empty(), Seq::empty()),
    }
}

/// The title and the number to offer for the file called `file_name`: those of
/// its earlier track, or empty text.
pub open spec fn defaults_of(tracks: Seq<TrackModel>, file_name: Seq<char>) -> (
    Seq<char>,
    Seq<char>,
) {
    defaults_given(tracks, recorded_names(tracks), file_name)
}

/// `first_named` gives a place that holds the name and is the first to do so,
/// and gives none only where no place holds it.
pub proof fn law_first_named_is_first(names: Seq<Option<Seq<char>>>, file_name: Seq<char>)
    ensures
        match first_named(names, file_name) {
            Some(i) => {
                &&& 0 <= i < names.len()
                &&& names[i] == Some(file_name)
                &&& forall|j: int| 0 <= j < i ==> names[j] != Some(file_name)
            },
            None => forall|j: int| 0 <= j < names.len() ==> names[j] != Some(file_name),
        },
    decreases names.len(),
{
    if names.len() > 0 {
        law_first_named_is_first(names.drop_last(), file_name);
        match first_named(names.drop_last(), file_name) {
            Some(i) => {
                assert(names[i] == names.drop_last()[i]);
                assert forall|j: int| 0 <= j < i implies names[j] != Some(file_name) by {
                    assert(names[j] == names.drop_last()[j]);
                }
            },
            None => {
                assert forall|j: int| 0 <= j < names.len() - 1 implies names[j] != Some(
                    file_name,
                ) by {
                    assert(names[j] == names.drop_last()[j]);
                }
            },
        }
    }
}

/// Which file name a track was recorded under does not depend on the
/// directory it was recorded in: two track lists whose paths have the same
/// file names supply the same default track.
pub proof fn law_defaults_go_by_file_name(
    old_tracks: Seq<TrackModel>,
    new_tracks: Seq<TrackModel>,
    file_name: Seq<char>,
)
    requires
        old_tracks.len() == new_tracks.len(),
        forall|i: int|
            0 <= i < old_tracks.len() ==> file_name_of(old_tracks[i].path) == file_name_of(
                new_tracks[i].path,
            ),
    ensures
        default_track_of(old_tracks, file_name) == default_track_of(new_tracks, file_name),
{
    assert(recorded_names(old_tracks) =~= recorded_names(new_tracks));
}

/// Tells whether a track recorded under `recorded` belongs to the file called
/// `file_name`.
pub fn names_match(recorded: &Option<String>, file_name: &str) -> (out: bool)
    ensures
        out == (opt_text(*recorded) == Some(file_name@)),
{
    match recorded {
        Some(name) => {
            let wanted = file_name.to_owned();
            *name == wanted
        },
        None => false,
    }
}

/// The first place in `names` that holds `file_name`.
pub fn position_of_name(names: &Vec<Option<String>>, file_name: &str) -> (out: Option<usize>)
    ensures
        match out {
            Some(i) => first_named(names.deep_view(), file_name@) == Some(i as int),
            None => first_named(names.deep_view(), file_name@) is None,
        },
{
    let mut i: usize = 0;
    while i < names.len()
        invariant
            i <= names.len(),
            first_named(names.deep_view().take(i as int), file_name@) is None,
        decreases names.len() - i,
    {
        let ghost upto = names.deep_view().take(i + 1);
        assert(upto.drop_last() =~= names.deep_view().take(i as int));
        assert(upto.last() == opt_text(names[i as int]));
        if names_match(&names[i], file_name) {
            proof {
                lemma_first_named_grows(names.deep_view(), file_name@, i + 1);
            }
            return Some(i);
        }
        i = i + 1;
    }
    assert(names.deep_view().take(i as int) =~= names.deep_view());
    None
}

/// A match found among the first `upto` names is the match among all.
proof fn lemma_first_named_grows(names: Seq<Option<Seq<char>>>, file_name: Seq<char>, upto: int)
    requires
        0 <= upto <= names.len(),
        first_named(names.take(upto), file_name) is Some,
    ensures
        first_named(names, file_name) == first_named(names.take(upto), file_name),
    decreases names.len() - upto,
{
    if upto < names.len() {
        assert(names.take(upto + 1).drop_last() =~= names.take(upto));
        lemma_first_named_grows(names, file_name, upto + 1);
    } else {
        assert(names.take(upto) =~= names);
    }
}

/// The file names under which `tracks` were recorded.
pub fn recorded_file_names(tracks: &Vec<TrackMetadata>) -> (out: Vec<Option<String>>)
    ensures
        out.deep_view() == recorded_names(tracks.deep_view()),
{
    let mut out: Vec<Option<String>> = Vec::new();
    let mut i: usize = 0;
    while i < tracks.len()
        invariant
            i <= tracks.len(),
            out.len() == i,
            forall|j: int| 0 <= j < i ==> opt_text(out[j]) == file_name_of(tracks[j].path@),
        decreases tracks.len() - i,
    {
        out.push(path_file_name(tracks[i].path.as_str()));
        i = i + 1;
    }
    assert(out.deep_view() =~= recorded_names(tracks.deep_view()));
    out
}

/// The earlier track that supplies the defaults for the file called
/// `file_name`.
pub fn default_track(tracks: &Vec<TrackMetadata>, file_name: &str) -> (out: Option<usize>)
    ensures
        match out {
            Some(i) => default_track_of(tracks.deep_view(), file_name@) == Some(i as int),
            None => default_track_of(tracks.deep_view(), file_name@) is None,
        },
{
    let names = recorded_file_names(tracks);
    position_of_name(&names, file_name)
}

/// The title and the number to offer for the file called `file_name`, given
/// the file name that each track was recorded under.
pub fn defaults_from(
    tracks: &Vec<TrackMetadata>,
    names: &Vec<Option<String>>,
    file_name: &str,
) -> (out: (String, String))
    ensures
        (out.0@, out.1@) == defaults_given(tracks.deep_view(), names.deep_view(), file_name@),
{
    match position_of_name(names, file_name) {
        Some(i) => {
            if i < tracks.len() {
                (tracks[i].name.clone(), tracks[i].number.clone())
            } else {
                (String::new(), String::new())
            }
        },
        None => (String::new(), String::new()),
    }
}

/// The title and the number to offer for the file called `file_name`.
pub fn track_defaults(tracks: &Vec<TrackMetadata>, file_name: &str) -> (out: (String, String))
    ensures
        (out.0@, out.1@) == defaults_of(tracks.deep_view(), file_name@),
{
    let names = recorded_file_names(tracks);
    defaults_from(tracks, &names, file_name)
}

} // verus!
