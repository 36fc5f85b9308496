//! Playlists as they are written out and read back: one manifest for each,
//! under the escaped name of the playlist.

use crate::manifest::{parse_manifest, paths_in, texts_of};
use crate::names::{unescape_name, unescaped};
use crate::playlist::{inserted, PlaylistStore, PlaylistView};
use crate::song::{identifier, path_identifier};
use vstd::prelude::*;

verus! {

/// What is written out for one playlist: its name, escaped so that it can
/// be part of a file name, and its manifest.
#[derive(Debug)]
pub struct PlaylistFile {
    pub name: String,
    pub text: String,
}

/// What was written out for one playlist: its escaped name and its
/// manifest.
pub struct PlaylistFileView {
    pub name: Seq<char>,
    pub text: Seq<char>,
}

impl View for PlaylistFile {
    type V = PlaylistFileView;

    open spec fn view(&self) -> PlaylistFileView {
        PlaylistFileView { name: self.name@, text: self.text@ }
    }
}

/// The written playlists as plain values.
pub open spec fn files_of(files: Seq<PlaylistFile>) -> Seq<PlaylistFileView> {
    files.map_values(|f: PlaylistFile| f@)
}

/// The identifiers that the paths give.
pub open spec fn identifiers_of(paths: Seq<Seq<char>>) -> Seq<u128> {
    paths.map_values(|p: Seq<char>| path_identifier(p))
}

/// The playlist that a written manifest holds.
pub open spec fn playlist_in(file: PlaylistFileView) -> PlaylistView {
    PlaylistView { name: unescaped(file.name), ids: identifiers_of(paths_in(file.text)) }
}

/// The playlists that written manifests hold, each put in after those
/// before it.
pub open spec fn restored(files: Seq<PlaylistFileView>) -> Seq<PlaylistView>
    decreases files.len(),
{
    if files.len() == 0 {
        Seq::empty()
    } else {
        inserted(restored(files.drop_last()), playlist_in(files.last()))
    }
}

/// The identifiers that the paths give.
pub fn identifiers(paths: &Vec<String>) -> (ids: Vec<u128>)
    ensures
        ids@ == identifiers_of(texts_of(paths@)),
{
    let mut ids: Vec<u128> = Vec::new();
    let mut i: usize = 0;
    while i < paths.len()
        invariant
            i <= paths.len(),
            ids@ == identifiers_of(texts_of(paths@)).take(i as int),
        decreases paths.len() - i,
    {
        ids.push(identifier(paths[i].as_str()));
        proof {
            assert(ids@ =~= identifiers_of(texts_of(paths@)).take(i + 1));
        }
        i += 1;
    }
    proof {
        assert(ids@ =~= identifiers_of(texts_of(paths@)));
    }
    ids
}

/// The playlists that written manifests hold. The name of a playlist is the
/// unescaped name of its manifest. A manifest names its songs by their
/// paths; each path gives the identifier of its song again. Of two manifests
/// under one name the later counts.
pub fn restore(files: &Vec<PlaylistFile>) -> (store: PlaylistStore)
    ensures
        store@ == restored(files_of(files@)),
        store.wf(),
{
    let mut store = PlaylistStore::new();
    let mut i: usize = 0;
    proof {
        assert(files_of(files@).take(0) =~= Seq::<PlaylistFileView>::empty());
    }
    while i < files.len()
        invariant
            i <= files.len(),
            store.wf(),
            store@ == restored(files_of(files@).take(i as int)),
        decreases files.len() - i,
    {
        let file = &files[i];
        let paths = parse_manifest(file.text.as_str());
        let ids = identifiers(&paths);
        proof {
            let all = files_of(files@);
            assert(all.take(i + 1).drop_last() =~= all.take(i as int));
            assert(all.take(i + 1).last() == file@);
        }
        store.insert(unescape_name(file.name.as_str()), ids);
        i += 1;
    }
    proof {
        assert(files_of(files@).take(files@.len() as int) =~= files_of(files@));
    }
    store
}

} // verus!
