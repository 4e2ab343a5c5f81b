//! Which entries of the input directory are tracks, and in what order they
//! are processed.

use vstd::prelude::*;
use vstd::relations::*;
use vstd::seq_lib::*;
use vstd::string::*;
use crate::paths::{
    extension_in, extension_of, file_name_of, join_of, name_extension, path_file_name, path_join,
};
use crate::text::{
    ascending, in_order, lemma_text_order_total, opt_text, precedes, text_le, text_or_empty,
    text_order,
};

verus! {

/// One entry of a directory listing.
#[derive(Clone, Debug, PartialEq, Eq)]
pub struct DirEntry {
    /// The path of the entry.
    pub path: String,
    /// Whether the entry is a regular file.
    pub is_file: bool,
}

/// A directory entry as the contracts see it.
pub struct EntryModel {
    pub path: Seq<char>,
    pub is_file: bool,
}

impl View for DirEntry {
    type V = EntryModel;

    open spec fn view(&self) -> EntryModel {
        EntryModel { path: self.path@, is_file: self.is_file }
    }
}

impl DeepView for DirEntry {
    type V = EntryModel;

    open spec fn deep_view(&self) -> EntryModel {
        self@
    }
}

/// A track to tag: where it is, what it is called, and where its tagged copy
/// goes.
#[derive(Clone, Debug, PartialEq, Eq)]
pub struct TrackFile {
    /// The path of the source file.
    pub path: String,
    /// Its file name.
    pub name: String,
    /// The path of the tagged copy.
    pub output: String,
}

/// A track to tag as the contracts see it.
pub struct FileModel {
    pub path: Seq<char>,
    pub name: Seq<char>,
    pub output: Seq<char>,
}

impl View for TrackFile {
    type V = FileModel;

    open spec fn view(&self) -> FileModel {
        FileModel { path: self.path@, name: self.name@, output: self.output@ }
    }
}

impl DeepView for TrackFile {
    type V = FileModel;

    open spec fn deep_view(&self) -> FileModel {
        self@
    }
}

/// Whether `ext` is one of the two extensions of audio files. Case counts.
pub open spec fn audio_extension(ext: Option<Seq<char>>) -> bool {
    ext == Some("mp3"@) || ext == Some("m4a"@)
}

/// Whether a file of this name is an audio file.
pub open spec fn audio_name(name: Option<Seq<char>>) -> bool {
    match name {
        Some(name) => audio_extension(extension_in(name)),
        None => false,
    }
}

/// Whether the entry at `i` is a track: a regular file whose name, the one at
/// `i` in `names`, has an audio extension.
pub open spec fn is_track(entries: Seq<EntryModel>, names: Seq<Option<Seq<char>>>, i: int) -> bool {
    &&& 0 <= i < entries.len()
    &&& i < names.len()
    &&& entries[i].is_file
    &&& audio_name(names[i])
}

/// The paths of the tracks among `entries`, in the order of the listing.
pub open spec fn track_paths(
    entries: Seq<EntryModel>,
    names: Seq<Option<Seq<char>>>,
) -> Seq<Seq<char>>
    decreases entries.len(),
{
    if entries.len() == 0 {
        Seq::empty()
    } else {
        let before = track_paths(entries.drop_last(), names);
        if is_track(entries, names, entries.len() - 1) {
            before.push(entries.last().path)
        } else {
            before
        }
    }
}

/// The file name of each entry's path.
pub open spec fn names_of(entries: Seq<EntryModel>) -> Seq<Option<Seq<char>>> {
    Seq::new(entries.len(), |i: int| file_name_of(entries[i].path))
}

/// The tracks of a directory: the paths of its audio files in ascending order.
pub open spec fn tracks_of(entries: Seq<EntryModel>) -> Seq<Seq<char>> {
    in_order(track_paths(entries, names_of(entries)))
}

/// The track at `path`, with its tagged copy under the same file name in
/// `output_directory`.
pub open spec fn file_of(path: Seq<char>, output_directory: Seq<char>) -> FileModel {
    FileModel {
        path,
        name: text_or_empty(file_name_of(path)),
        output: join_of(output_directory, text_or_empty(file_name_of(path))),
    }
}

/// The tracks at `paths`, in the same order.
pub open spec fn files_of(paths: Seq<Seq<char>>, output_directory: Seq<char>) -> Seq<FileModel> {
    Seq::new(paths.len(), |i: int| file_of(paths[i], output_directory))
}

/// A path is among the track paths exactly if it is the path of a track.
pub proof fn lemma_track_paths(
    entries: Seq<EntryModel>,
    names: Seq<Option<Seq<char>>>,
    path: Seq<char>,
)
    ensures
        track_paths(entries, names).contains(path) <==> exists|i: int|
            is_track(entries, names, i) && #[trigger] entries[i].path == path,
        track_paths(entries, names).len() <= entries.len(),
    decreases entries.len(),
{
    if entries.len() > 0 {
        let rest = entries.drop_last();
        let last = entries.len() - 1;
        lemma_track_paths(rest, names, path);
        let before = track_paths(rest, names);
        assert forall|i: int| 0 <= i < last implies is_track(rest, names, i) == is_track(
            entries,
            names,
            i,
        ) && rest[i] == entries[i] by {}
        if track_paths(entries, names).contains(path) {
            if before.contains(path) {
                let i = choose|i: int| is_track(rest, names, i) && #[trigger] rest[i].path == path;
                assert(is_track(entries, names, i) && entries[i].path == path);
            } else {
                assert(is_track(entries, names, last));
                let found = track_paths(entries, names);
                let at = choose|at: int| 0 <= at < found.len() && found[at] == path;
                if at < before.len() {
                    assert(before[at] == path);
                }
                assert(entries[last].path == path);
            }
        }
        if exists|i: int| is_track(entries, names, i) && #[trigger] entries[i].path == path {
            let i = choose|i: int| is_track(entries, names, i) && #[trigger] entries[i].path == path;
            if i < last {
                assert(is_track(rest, names, i) && rest[i].path == path);
                assert(before.contains(path));
                let at = choose|at: int| 0 <= at < before.len() && before[at] == path;
                assert(track_paths(entries, names)[at] == path);
            } else {
                assert(track_paths(entries, names) == before.push(path));
                assert(before.push(path)[before.len() as int] == path);
            }
        }
    }
}

/// The tracks of a directory are its regular files with the extension `mp3`
/// or `m4a`, each as often as it is listed, in ascending order; and each of
/// them has a file name.
pub proof fn law_tracks_are_sorted_audio_files(entries: Seq<EntryModel>)
    ensures
        ascending(tracks_of(entries)),
        tracks_of(entries).to_multiset() == track_paths(entries, names_of(entries)).to_multiset(),
        tracks_of(entries).len() == track_paths(entries, names_of(entries)).len(),
        forall|path: Seq<char>|
            tracks_of(entries).contains(path) <==> exists|i: int|
                0 <= i < entries.len() && entries[i].is_file && audio_extension(
                    extension_of(entries[i].path),
                ) && #[trigger] entries[i].path == path,
        forall|k: int|
            0 <= k < tracks_of(entries).len() ==> file_name_of(#[trigger] tracks_of(entries)[k])
                is Some,
{
    broadcast use group_to_multiset_ensures;

    let names = names_of(entries);
    let listed = track_paths(entries, names);
    lemma_text_order_total();
    listed.lemma_sort_by_ensures(text_order());
    to_multiset_len(listed);
    to_multiset_len(tracks_of(entries));
    assert forall|path: Seq<char>|
        tracks_of(entries).contains(path) <==> exists|i: int|
            0 <= i < entries.len() && entries[i].is_file && audio_extension(
                extension_of(entries[i].path),
            ) && #[trigger] entries[i].path == path by {
        lemma_track_paths(entries, names, path);
        assert(tracks_of(entries).contains(path) <==> tracks_of(entries).to_multiset().count(path)
            > 0);
        assert(listed.contains(path) <==> listed.to_multiset().count(path) > 0);
        if listed.contains(path) {
            let i = choose|i: int| is_track(entries, names, i) && #[trigger] entries[i].path == path;
            assert(audio_extension(extension_of(entries[i].path)));
        }
        if exists|i: int|
            0 <= i < entries.len() && entries[i].is_file && audio_extension(
                extension_of(entries[i].path),
            ) && #[trigger] entries[i].path == path {
            let i = choose|i: int|
                0 <= i < entries.len() && entries[i].is_file && audio_extension(
                    extension_of(entries[i].path),
                ) && #[trigger] entries[i].path == path;
            assert(is_track(entries, names, i));
        }
    }
    assert forall|k: int| 0 <= k < tracks_of(entries).len() implies file_name_of(
        #[trigger] tracks_of(entries)[k],
    ) is Some by {
        let path = tracks_of(entries)[k];
        assert(tracks_of(entries).contains(path));
        lemma_track_paths(entries, names, path);
        assert(listed.contains(path) <==> listed.to_multiset().count(path) > 0);
        assert(tracks_of(entries).contains(path) <==> tracks_of(entries).to_multiset().count(path)
            > 0);
        let i = choose|i: int| is_track(entries, names, i) && #[trigger] entries[i].path == path;
        assert(names[i] is Some);
    }
}

/// Tells whether `ext` is one of the two extensions of audio files.
pub fn is_audio_extension(ext: &Option<String>) -> (out: bool)
    ensures
        out == audio_extension(opt_text(*ext)),
{
    match ext {
        Some(e) => {
            let mp3 = String::from_str("mp3");
            let m4a = String::from_str("m4a");
            *e == mp3 || *e == m4a
        },
        None => false,
    }
}

/// Tells whether a file of this name is an audio file.
pub fn is_audio_name(name: &Option<String>) -> (out: bool)
    ensures
        out == audio_name(opt_text(*name)),
{
    match name {
        Some(name) => is_audio_extension(&name_extension(name.as_str())),
        None => false,
    }
}

/// Picks the tracks among `entries`, given each entry's file name.
pub fn select_audio(entries: &Vec<DirEntry>, names: &Vec<Option<String>>) -> (out: Vec<String>)
    ensures
        out.deep_view() == track_paths(entries.deep_view(), names.deep_view()),
{
    let mut out: Vec<String> = Vec::new();
    let mut i: usize = 0;
    while i < entries.len()
        invariant
            i <= entries.len(),
            out.deep_view() == track_paths(entries.deep_view().take(i as int), names.deep_view()),
        decreases entries.len() - i,
    {
        let ghost upto = entries.deep_view().take(i + 1);
        assert(upto.drop_last() =~= entries.deep_view().take(i as int));
        assert(upto.last() == entries[i as int]@);
        let ghost before = out.deep_view();
        if i < names.len() && entries[i].is_file && is_audio_name(&names[i]) {
            out.push(entries[i].path.clone());
            assert(out.deep_view() =~= before.push(entries[i as int].path@));
        }
        i = i + 1;
    }
    assert(entries.deep_view().take(i as int) =~= entries.deep_view());
    out
}

/// Puts paths in ascending order.
pub fn sort_paths(paths: &Vec<String>) -> (out: Vec<String>)
    ensures
        out.deep_view() == in_order(paths.deep_view()),
        ascending(out.deep_view()),
        out.deep_view().to_multiset() == paths.deep_view().to_multiset(),
{
    let mut out: Vec<String> = Vec::new();
    let mut i: usize = 0;
    proof {
        lemma_text_order_total();
        assert(paths.deep_view().take(0) =~= out.deep_view());
    }
    while i < paths.len()
        invariant
            i <= paths.len(),
            out.len() == i,
            total_ordering(text_order()),
            ascending(out.deep_view()),
            out.deep_view().to_multiset() == paths.deep_view().take(i as int).to_multiset(),
        decreases paths.len() - i,
    {
        let item = paths[i].clone();
        let mut at: usize = 0;
        while at < out.len() && precedes(out[at].as_str(), item.as_str())
            invariant
                at <= out.len(),
                forall|j: int| 0 <= j < at ==> text_le(#[trigger] out[j]@, item@),
            decreases out.len() - at,
        {
            at = at + 1;
        }
        let ghost before = out.deep_view();
        out.insert(at, item);
        proof {
            let after = out.deep_view();
            let order = text_order();
            assert(after =~= before.insert(at as int, item@));
            assert forall|a: int, b: int| 0 <= a < b < after.len() implies #[trigger] order(
                after[a],
                after[b],
            ) by {
                if b < at {
                    assert(order(before[a], before[b]));
                } else if b == at {
                    assert(text_le(before[a], item@));
                } else if a == at {
                    assert(order(before[at as int], item@) || order(item@, before[at as int]));
                    if b - 1 > at {
                        assert(order(before[at as int], before[b - 1]));
                    }
                    assert(order(item@, before[at as int]) && order(before[at as int], before[b - 1])
                        ==> order(item@, before[b - 1]));
                } else if a < at {
                    assert(order(before[a], before[b - 1]));
                } else {
                    assert(order(before[a - 1], before[b - 1]));
                }
            }
            let done = paths.deep_view().take(i as int);
            let upto = paths.deep_view().take(i + 1);
            assert(upto =~= done.push(item@));
            to_multiset_build(done, item@);
            to_multiset_insert(before, at as int, item@);
            assert(after.to_multiset() == upto.to_multiset());
        }
        i = i + 1;
    }
    proof {
        assert(paths.deep_view().take(i as int) =~= paths.deep_view());
        paths.deep_view().lemma_sort_by_ensures(text_order());
        lemma_sorted_unique(out.deep_view(), in_order(paths.deep_view()), text_order());
    }
    out
}

/// The file name of each entry's path.
pub fn file_names(entries: &Vec<DirEntry>) -> (out: Vec<Option<String>>)
    ensures
        out.deep_view() == names_of(entries.deep_view()),
{
    let mut out: Vec<Option<String>> = Vec::new();
    let mut i: usize = 0;
    while i < entries.len()
        invariant
            i <= entries.len(),
            out.len() == i,
            forall|j: int| 0 <= j < i ==> opt_text(out[j]) == file_name_of(entries[j].path@),
        decreases entries.len() - i,
    {
        out.push(path_file_name(entries[i].path.as_str()));
        i = i + 1;
    }
    assert(out.deep_view() =~= names_of(entries.deep_view()));
    out
}

/// The tracks of a directory listing: the paths of the regular files whose
/// extension is `mp3` or `m4a`, in ascending order.
pub fn enumerate_tracks(entries: &Vec<DirEntry>) -> (out: Vec<String>)
    ensures
        out.deep_view() == tracks_of(entries.deep_view()),
{
    let names = file_names(entries);
    let listed = select_audio(entries, &names);
    sort_paths(&listed)
}

/// The tracks at `paths`, each with its file name and with the place of its
/// tagged copy in `output_directory`.
pub fn track_files(paths: &Vec<String>, output_directory: &str) -> (out: Vec<TrackFile>)
    ensures
        out.deep_view() == files_of(paths.deep_view(), output_directory@),
{
    let mut out: Vec<TrackFile> = Vec::new();
    let mut i: usize = 0;
    while i < paths.len()
        invariant
            i <= paths.len(),
            out.len() == i,
            forall|j: int| 0 <= j < i ==> out[j]@ == file_of(paths[j]@, output_directory@),
        decreases paths.len() - i,
    {
        let name = match path_file_name(paths[i].as_str()) {
            Some(name) => name,
            None => String::new(),
        };
        let output = path_join(output_directory, name.as_str());
        out.push(TrackFile { path: paths[i].clone(), name, output });
        i = i + 1;
    }
    assert(out.deep_view() =~= files_of(paths.deep_view(), output_directory@));
    out
}

} // verus!
