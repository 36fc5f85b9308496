//! Playlists: named lists of song identifiers, kept in the order of their
//! names, each name once.

use crate::order::lemma_filter_none;
use crate::text::{
    chars_of, lemma_text_lt_asymmetric, lemma_text_lt_irreflexive, lemma_text_lt_total,
    lemma_text_lt_transitive, same_text, text_before, text_lt,
};
use vstd::prelude::*;

verus! {

/// A named list of song identifiers, in the order in which they were chosen.
#[derive(Debug)]
pub struct Playlist {
    pub name: String,
    pub ids: Vec<u128>,
}

/// A playlist as plain values.
pub struct PlaylistView {
    pub name: Seq<char>,
    pub ids: Seq<u128>,
}

impl View for Playlist {
    type V = PlaylistView;

    open spec fn view(&self) -> PlaylistView {
        PlaylistView { name: self.name@, ids: self.ids@ }
    }
}

/// The playlists of a sequence as plain values.
pub open spec fn lists_of(lists: Seq<Playlist>) -> Seq<PlaylistView> {
    lists.map_values(|p: Playlist| p@)
}

/// Why a playlist was not created.
#[derive(Clone, Copy, Debug, PartialEq, Eq, Structural)]
pub enum PlaylistError {
    /// Neither a name nor a song was given.
    MissingNameAndSongs,
    /// No name was given.
    MissingName,
    /// No song was given.
    MissingSongs,
}

impl PlaylistError {
    /// The words that tell the user what is missing.
    pub open spec fn message_text(self) -> Seq<char> {
        match self {
            PlaylistError::MissingNameAndSongs => "Need a name and at least 1 song"@,
            PlaylistError::MissingName => "Need a name "@,
            PlaylistError::MissingSongs => "Need at least 1 song"@,
        }
    }

    /// The words that tell the user what is missing.
    pub fn message(&self) -> (text: String)
        ensures
            text@ == self.message_text(),
    {
        match self {
            PlaylistError::MissingNameAndSongs => "Need a name and at least 1 song".to_owned(),
            PlaylistError::MissingName => "Need a name ".to_owned(),
            PlaylistError::MissingSongs => "Need at least 1 song".to_owned(),
        }
    }
}

/// What keeps a playlist of this name and these songs from being created,
/// if anything does: an empty name, an empty selection, or both.
pub open spec fn refusal(name: Seq<char>, ids: Seq<u128>) -> Option<PlaylistError> {
    if name.len() == 0 && ids.len() == 0 {
        Some(PlaylistError::MissingNameAndSongs)
    } else if name.len() == 0 {
        Some(PlaylistError::MissingName)
    } else if ids.len() == 0 {
        Some(PlaylistError::MissingSongs)
    } else {
        None
    }
}

/// The names rise strictly along the sequence, so none occurs twice.
pub open spec fn sorted_by_name(lists: Seq<PlaylistView>) -> bool {
    forall|i: int, j: int| 0 <= i < j < lists.len() ==> text_lt(lists[i].name, lists[j].name)
}

/// The place of the first playlist of that name, or the length of the
/// sequence where there is none.
pub open spec fn find(lists: Seq<PlaylistView>, name: Seq<char>) -> int
    decreases lists.len(),
{
    if lists.len() == 0 {
        0
    } else if lists[0].name == name {
        0
    } else {
        1 + find(lists.drop_first(), name)
    }
}

/// The songs of the playlist of that name, if there is one.
pub open spec fn lookup(lists: Seq<PlaylistView>, name: Seq<char>) -> Option<Seq<u128>> {
    if find(lists, name) < lists.len() {
        Some(lists[find(lists, name)].ids)
    } else {
        None
    }
}

/// The playlists with `list` put in: in place of the playlist of its name,
/// or, where there is none, before the first whose name comes after its own.
pub open spec fn inserted(lists: Seq<PlaylistView>, list: PlaylistView) -> Seq<PlaylistView>
    decreases lists.len(),
{
    if lists.len() == 0 {
        seq![list]
    } else if lists[0].name == list.name {
        seq![list] + lists.drop_first()
    } else if text_lt(list.name, lists[0].name) {
        seq![list] + lists
    } else {
        seq![lists[0]] + inserted(lists.drop_first(), list)
    }
}

/// The playlists without the one of that name.
pub open spec fn without(lists: Seq<PlaylistView>, name: Seq<char>) -> Seq<PlaylistView> {
    if find(lists, name) < lists.len() {
        lists.remove(find(lists, name))
    } else {
        lists
    }
}

/// `find` gives the first place at which the name stands.
pub proof fn lemma_find(lists: Seq<PlaylistView>, name: Seq<char>)
    ensures
        0 <= find(lists, name) <= lists.len(),
        find(lists, name) < lists.len() ==> lists[find(lists, name)].name == name,
        forall|j: int| 0 <= j < find(lists, name) ==> (#[trigger] lists[j]).name != name,
    decreases lists.len(),
{
    if lists.len() > 0 && lists[0].name != name {
        let rest = lists.drop_first();
        lemma_find(rest, name);
        assert forall|j: int| 0 <= j < find(lists, name) implies (#[trigger] lists[j]).name
            != name by {
            if j > 0 {
                assert(lists[j] == rest[j - 1]);
            }
        }
    }
}

/// A place before which the name does not stand, and at which it stands or
/// the sequence ends, is the place that `find` gives.
pub proof fn lemma_find_at(lists: Seq<PlaylistView>, name: Seq<char>, at: int)
    requires
        0 <= at <= lists.len(),
        forall|j: int| 0 <= j < at ==> (#[trigger] lists[j]).name != name,
        at < lists.len() ==> lists[at].name == name,
    ensures
        find(lists, name) == at,
{
    lemma_find(lists, name);
    let found = find(lists, name);
    if found < at {
        assert(lists[found].name == name);
    }
}

/// Putting a playlist in, seen from the place where it goes: every name
/// before that place comes before the new name, and the name at that place,
/// if there is one, does not.
pub proof fn lemma_inserted_at(lists: Seq<PlaylistView>, list: PlaylistView, at: int)
    requires
        0 <= at <= lists.len(),
        forall|j: int| 0 <= j < at ==> text_lt((#[trigger] lists[j]).name, list.name),
        at < lists.len() ==> !text_lt(lists[at].name, list.name),
    ensures
        inserted(lists, list) == if at < lists.len() && lists[at].name == list.name {
            lists.update(at, list)
        } else {
            lists.insert(at, list)
        },
    decreases at,
{
    if lists.len() == 0 {
        assert(seq![list] =~= lists.insert(0, list));
    } else if at == 0 {
        if lists[0].name == list.name {
            assert(seq![list] + lists.drop_first() =~= lists.update(0, list));
        } else {
            lemma_text_lt_total(list.name, lists[0].name);
            assert(seq![list] + lists =~= lists.insert(0, list));
        }
    } else {
        let rest = lists.drop_first();
        assert(text_lt(lists[0].name, list.name));
        lemma_text_lt_irreflexive(list.name);
        lemma_text_lt_asymmetric(lists[0].name, list.name);
        assert forall|j: int| 0 <= j < at - 1 implies text_lt(
            (#[trigger] rest[j]).name,
            list.name,
        ) by {
            assert(rest[j] == lists[j + 1]);
        }
        if at - 1 < rest.len() {
            assert(rest[at - 1] == lists[at]);
        }
        lemma_inserted_at(rest, list, at - 1);
        if at < lists.len() && lists[at].name == list.name {
            assert(seq![lists[0]] + rest.update(at - 1, list) =~= lists.update(at, list));
        } else {
            assert(seq![lists[0]] + rest.insert(at - 1, list) =~= lists.insert(at, list));
        }
    }
}

/// Putting a playlist into playlists that are in the order of their names
/// leaves them in that order.
pub proof fn lemma_inserted_sorted(lists: Seq<PlaylistView>, list: PlaylistView)
    requires
        sorted_by_name(lists),
    ensures
        sorted_by_name(inserted(lists, list)),
    decreases lists.len(),
{
    if lists.len() == 0 {
    } else if lists[0].name == list.name {
        let result = seq![list] + lists.drop_first();
        assert forall|i: int, j: int| 0 <= i < j < result.len() implies text_lt(
            result[i].name,
            result[j].name,
        ) by {
            assert(result[j] == lists[j]);
            assert(result[i].name == lists[i].name);
        }
    } else if text_lt(list.name, lists[0].name) {
        let result = seq![list] + lists;
        assert forall|i: int, j: int| 0 <= i < j < result.len() implies text_lt(
            result[i].name,
            result[j].name,
        ) by {
            assert(result[j] == lists[j - 1]);
            if i == 0 {
                if j > 1 {
                    lemma_text_lt_transitive(list.name, lists[0].name, lists[j - 1].name);
                }
            } else {
                assert(result[i] == lists[i - 1]);
            }
        }
    } else {
        let rest = lists.drop_first();
        let tail = inserted(rest, list);
        let result = seq![lists[0]] + tail;
        assert forall|i: int, j: int| 0 <= i < j < rest.len() implies text_lt(
            rest[i].name,
            rest[j].name,
        ) by {
            assert(rest[i] == lists[i + 1]);
            assert(rest[j] == lists[j + 1]);
        }
        lemma_inserted_sorted(rest, list);
        lemma_text_lt_total(list.name, lists[0].name);
        assert forall|i: int, j: int| 0 <= i < j < result.len() implies text_lt(
            result[i].name,
            result[j].name,
        ) by {
            assert(result[j] == tail[j - 1]);
            if i == 0 {
                lemma_inserted_names(rest, list, j - 1);
                if tail[j - 1].name != list.name {
                    let k = choose|k: int| 0 <= k < rest.len() && rest[k].name == tail[j - 1].name;
                    assert(rest[k] == lists[k + 1]);
                }
            } else {
                assert(result[i] == tail[i - 1]);
            }
        }
    }
}

/// Putting a playlist in makes the playlists one more, or, where it takes
/// the place of another, leaves their number.
pub proof fn lemma_inserted_len(lists: Seq<PlaylistView>, list: PlaylistView)
    ensures
        lists.len() <= inserted(lists, list).len() <= lists.len() + 1,
        inserted(lists, list).len() > 0,
    decreases lists.len(),
{
    if lists.len() > 0 && lists[0].name != list.name && !text_lt(list.name, lists[0].name) {
        lemma_inserted_len(lists.drop_first(), list);
    }
}

/// Every name after putting a playlist in is its name or one that was there.
pub proof fn lemma_inserted_names(lists: Seq<PlaylistView>, list: PlaylistView, at: int)
    requires
        0 <= at < inserted(lists, list).len(),
    ensures
        inserted(lists, list)[at].name == list.name || exists|k: int|
            0 <= k < lists.len() && lists[k].name == inserted(lists, list)[at].name,
    decreases lists.len(),
{
    if lists.len() == 0 {
    } else if lists[0].name == list.name {
        if at > 0 {
            assert(inserted(lists, list)[at] == lists[at]);
        }
    } else if text_lt(list.name, lists[0].name) {
        if at > 0 {
            assert(inserted(lists, list)[at] == lists[at - 1]);
        }
    } else {
        let rest = lists.drop_first();
        if at == 0 {
            assert(inserted(lists, list)[0] == lists[0]);
        } else {
            assert(inserted(lists, list)[at] == inserted(rest, list)[at - 1]);
            lemma_inserted_names(rest, list, at - 1);
            if inserted(rest, list)[at - 1].name != list.name {
                let k = choose|k: int|
                    0 <= k < rest.len() && rest[k].name == inserted(rest, list)[at - 1].name;
                assert(lists[k + 1] == rest[k]);
            }
        }
    }
}

/// The search for a name in a sequence with one more playlist in front.
proof fn lemma_find_behind(first: PlaylistView, rest: Seq<PlaylistView>, name: Seq<char>)
    ensures
        find(seq![first] + rest, name) == if first.name == name {
            0
        } else {
            1 + find(rest, name)
        },
        lookup(seq![first] + rest, name) == if first.name == name {
            Some(first.ids)
        } else {
            lookup(rest, name)
        },
{
    let all = seq![first] + rest;
    assert(all.drop_first() =~= rest);
    assert(all[0] == first);
    lemma_find(rest, name);
    if first.name != name && find(rest, name) < rest.len() {
        assert(all[1 + find(rest, name)] == rest[find(rest, name)]);
    }
}

/// After a playlist was put in, its name leads to its songs, and every
/// other name to what it led to before.
pub proof fn lemma_inserted_lookup(lists: Seq<PlaylistView>, list: PlaylistView, name: Seq<char>)
    ensures
        lookup(inserted(lists, list), name) == if name == list.name {
            Some(list.ids)
        } else {
            lookup(lists, name)
        },
    decreases lists.len(),
{
    if lists.len() == 0 {
        lemma_find_behind(list, Seq::empty(), name);
        assert(seq![list] + Seq::<PlaylistView>::empty() =~= seq![list]);
    } else {
        let rest = lists.drop_first();
        assert(lists =~= seq![lists[0]] + rest);
        lemma_find_behind(lists[0], rest, name);
        if lists[0].name == list.name {
            lemma_find_behind(list, rest, name);
        } else if text_lt(list.name, lists[0].name) {
            lemma_find_behind(list, lists, name);
        } else {
            lemma_inserted_lookup(rest, list, name);
            lemma_find_behind(lists[0], inserted(rest, list), name);
        }
    }
}

/// Taking a playlist out of playlists that are in the order of their names
/// leaves them in that order.
pub proof fn lemma_without_sorted(lists: Seq<PlaylistView>, name: Seq<char>)
    requires
        sorted_by_name(lists),
    ensures
        sorted_by_name(without(lists, name)),
{
    lemma_find(lists, name);
    if find(lists, name) < lists.len() {
        lemma_remove_sorted(lists, find(lists, name));
    }
}

/// Taking the playlist at a place out of playlists that are in the order of
/// their names leaves them in that order.
pub proof fn lemma_remove_sorted(lists: Seq<PlaylistView>, at: int)
    requires
        sorted_by_name(lists),
        0 <= at < lists.len(),
    ensures
        sorted_by_name(lists.remove(at)),
{
    let result = lists.remove(at);
    assert forall|i: int, j: int| 0 <= i < j < result.len() implies text_lt(
        result[i].name,
        result[j].name,
    ) by {
        let from_i = if i < at { i } else { i + 1 };
        let from_j = if j < at { j } else { j + 1 };
        assert(result[i] == lists[from_i]);
        assert(result[j] == lists[from_j]);
    }
}

/// The playlists of the player, in the order of their names.
#[derive(Debug)]
pub struct PlaylistStore {
    lists: Vec<Playlist>,
}

impl View for PlaylistStore {
    type V = Seq<PlaylistView>;

    closed spec fn view(&self) -> Seq<PlaylistView> {
        lists_of(self.lists@)
    }
}

impl PlaylistStore {
    /// The playlists stand in the order of their names, each name once.
    pub open spec fn wf(&self) -> bool {
        sorted_by_name(self@)
    }

    /// A store without playlists.
    pub fn new() -> (store: PlaylistStore)
        ensures
            store@ == Seq::<PlaylistView>::empty(),
            store.wf(),
    {
        let store = PlaylistStore { lists: Vec::new() };
        proof {
            assert(store@ =~= Seq::<PlaylistView>::empty());
        }
        store
    }

    /// The number of playlists.
    pub fn len(&self) -> (count: usize)
        ensures
            count == self@.len(),
    {
        self.lists.len()
    }

    /// The playlist at `index` in the order of the names.
    pub fn get(&self, index: usize) -> (found: Option<&Playlist>)
        ensures
            match found {
                Some(list) => index < self@.len() && list@ == self@[index as int],
                None => index >= self@.len(),
            },
    {
        if index < self.lists.len() {
            Some(&self.lists[index])
        } else {
            None
        }
    }

    /// The place of the playlist of that name.
    pub fn position(&self, name: &str) -> (found: Option<usize>)
        ensures
            match found {
                Some(at) => at < self@.len() && at == find(self@, name@),
                None => find(self@, name@) == self@.len(),
            },
    {
        let mut at: usize = 0;
        while at < self.lists.len()
            invariant
                at <= self.lists.len(),
                forall|j: int| 0 <= j < at ==> (#[trigger] self@[j]).name != name@,
            decreases self.lists.len() - at,
        {
            if same_text(self.lists[at].name.as_str(), name) {
                proof {
                    lemma_find_at(self@, name@, at as int);
                }
                return Some(at);
            }
            at += 1;
        }
        proof {
            lemma_find_at(self@, name@, at as int);
        }
        None
    }

    fn name_before(&self, at: usize, key: &Vec<char>) -> (before: bool)
        requires
            at < self@.len(),
        ensures
            before == text_lt(self@[at as int].name, key@),
    {
        let name = chars_of(self.lists[at].name.as_str());
        text_before(&name, key)
    }

    /// Put a playlist in: in place of the one of its name, or, where there
    /// is none, at its place in the order of the names.
    pub fn insert(&mut self, name: String, ids: Vec<u128>)
        requires
            old(self).wf(),
        ensures
            final(self)@ == inserted(old(self)@, PlaylistView { name: name@, ids: ids@ }),
            final(self).wf(),
    {
        let key = chars_of(name.as_str());
        let mut at: usize = 0;
        while at < self.lists.len() && self.name_before(at, &key)
            invariant
                at <= self.lists.len(),
                *self == *old(self),
                key@ == name@,
                forall|j: int| 0 <= j < at ==> text_lt((#[trigger] self@[j]).name, name@),
            decreases self.lists.len() - at,
        {
            at += 1;
        }
        let list = Playlist { name, ids };
        proof {
            lemma_inserted_at(self@, list@, at as int);
            lemma_inserted_sorted(self@, list@);
        }
        if at < self.lists.len() && same_text(self.lists[at].name.as_str(), list.name.as_str()) {
            self.lists[at] = list;
            proof {
                assert(self@ =~= old(self)@.update(at as int, list@));
            }
        } else {
            self.lists.insert(at, list);
            proof {
                assert(self@ =~= old(self)@.insert(at as int, list@));
            }
        }
    }

    /// Create a playlist of the given songs under the given name. An empty
    /// name and an empty selection are refused, each under its own error and
    /// both together under a third; the store is then left as it was. A
    /// playlist that had the name is replaced.
    pub fn create(&mut self, name: String, ids: Vec<u128>) -> (result: Result<(), PlaylistError>)
        requires
            old(self).wf(),
        ensures
            final(self).wf(),
            match refusal(name@, ids@) {
                Some(error) => result == Err::<(), PlaylistError>(error) && final(self)@ == old(
                    self,
                )@,
                None => result is Ok && final(self)@ == inserted(
                    old(self)@,
                    PlaylistView { name: name@, ids: ids@ },
                ),
            },
    {
        let no_name: bool = name.as_str().is_empty();
        let no_songs: bool = ids.len() == 0;
        if no_name && no_songs {
            Err(PlaylistError::MissingNameAndSongs)
        } else if no_name {
            Err(PlaylistError::MissingName)
        } else if no_songs {
            Err(PlaylistError::MissingSongs)
        } else {
            self.insert(name, ids);
            Ok(())
        }
    }

    /// Take the playlist of that name out. Says whether there was one.
    pub fn delete(&mut self, name: &str) -> (removed: bool)
        requires
            old(self).wf(),
        ensures
            final(self)@ == without(old(self)@, name@),
            removed == (find(old(self)@, name@) < old(self)@.len()),
            final(self).wf(),
    {
        proof {
            lemma_without_sorted(self@, name@);
        }
        match self.position(name) {
            Some(at) => {
                let _ = self.lists.remove(at);
                proof {
                    assert(self@ =~= old(self)@.remove(at as int));
                }
                true
            },
            None => false,
        }
    }

    /// Take the playlist at `index` out and hand it over.
    pub fn remove_at(&mut self, index: usize) -> (list: Playlist)
        requires
            old(self).wf(),
            index < old(self)@.len(),
        ensures
            final(self)@ == old(self)@.remove(index as int),
            list@ == old(self)@[index as int],
            final(self).wf(),
    {
        let list = self.lists.remove(index);
        proof {
            assert(self@ =~= old(self)@.remove(index as int));
            lemma_remove_sorted(old(self)@, index as int);
        }
        list
    }

    /// The playlists, in the order of their names.
    pub fn lists(&self) -> (lists: &Vec<Playlist>)
        ensures
            lists_of(lists@) == self@,
    {
        &self.lists
    }
}

/// Whether `id` is among `ids`.
pub fn has_id(ids: &Vec<u128>, id: u128) -> (found: bool)
    ensures
        found == ids@.contains(id),
{
    let mut i: usize = 0;
    while i < ids.len()
        invariant
            i <= ids.len(),
            forall|j: int| 0 <= j < i ==> ids@[j] != id,
        decreases ids.len() - i,
    {
        if ids[i] == id {
            return true;
        }
        i += 1;
    }
    false
}

/// The identifiers without `id`.
pub open spec fn not_id(id: u128) -> spec_fn(u128) -> bool {
    |other: u128| other != id
}

/// The place of the first `id` among `ids`.
pub fn find_id(ids: &Vec<u128>, id: u128) -> (found: Option<usize>)
    ensures
        match found {
            Some(at) => ids@.index_of_first(id) == Some(at as int),
            None => ids@.index_of_first(id) is None,
        },
{
    proof {
        ids@.index_of_first_ensures(id);
    }
    let mut i: usize = 0;
    while i < ids.len()
        invariant
            i <= ids.len(),
            forall|j: int| 0 <= j < i ==> ids@[j] != id,
        decreases ids.len() - i,
    {
        if ids[i] == id {
            proof {
                ids@.index_of_first_ensures(id);
                assert(ids@[i as int] == id);
            }
            return Some(i);
        }
        i += 1;
    }
    None
}

/// The identifiers without `id`, in their order.
pub fn without_id(ids: &Vec<u128>, id: u128) -> (rest: Vec<u128>)
    ensures
        rest@ == ids@.filter(not_id(id)),
{
    let mut rest: Vec<u128> = Vec::new();
    let mut i: usize = 0;
    proof {
        assert(ids@.take(0) =~= Seq::<u128>::empty());
        lemma_filter_none(ids@.take(0), not_id(id));
    }
    while i < ids.len()
        invariant
            i <= ids.len(),
            rest@ == ids@.take(i as int).filter(not_id(id)),
        decreases ids.len() - i,
    {
        proof {
            assert(ids@.take(i + 1) =~= ids@.take(i as int).push(ids@[i as int]));
            Seq::lemma_filter_push(ids@.take(i as int), ids@[i as int], not_id(id));
        }
        if ids[i] != id {
            rest.push(ids[i]);
        }
        i += 1;
    }
    proof {
        assert(ids@.take(ids@.len() as int) =~= ids@);
    }
    rest
}

/// A copy of the identifiers.
pub fn copy_ids(ids: &Vec<u128>) -> (copy: Vec<u128>)
    ensures
        copy@ == ids@,
{
    let mut copy: Vec<u128> = Vec::new();
    let mut i: usize = 0;
    while i < ids.len()
        invariant
            i <= ids.len(),
            copy@ == ids@.take(i as int),
        decreases ids.len() - i,
    {
        copy.push(ids[i]);
        proof {
            assert(copy@ =~= ids@.take(i + 1));
        }
        i += 1;
    }
    proof {
        assert(ids@.take(ids@.len() as int) =~= ids@);
    }
    copy
}

} // verus!
