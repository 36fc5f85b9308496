//! The order of the catalog under a sort criterion, and what sorting by it
//! means.

use crate::song::SongView;
use crate::text::{
    lemma_text_lt_asymmetric, lemma_text_lt_irreflexive, lemma_text_lt_total,
    lemma_text_lt_transitive, lowercase, text_lt,
};
use crate::utils::SortCriteria;
use vstd::prelude::*;

verus! {

/// `a` has to stand before `b`: by title or artist without regard to case,
/// or by duration. Under `Shuffle` no song has to stand before another.
pub open spec fn sorts_before(a: SongView, b: SongView, by: SortCriteria) -> bool {
    match by {
        SortCriteria::Title => text_lt(lowercase(a.title), lowercase(b.title)),
        SortCriteria::Artist => text_lt(lowercase(a.artist), lowercase(b.artist)),
        SortCriteria::Duration => a.duration < b.duration,
        SortCriteria::Shuffle => false,
    }
}

/// Neither song has to stand before the other.
pub open spec fn same_rank(a: SongView, b: SongView, by: SortCriteria) -> bool {
    !sorts_before(a, b, by) && !sorts_before(b, a, by)
}

/// No song of the sequence stands behind one that it has to stand before.
pub open spec fn ordered(songs: Seq<SongView>, by: SortCriteria) -> bool {
    forall|i: int, j: int| 0 <= i < j < songs.len() ==> !sorts_before(songs[j], songs[i], by)
}

/// Where `song` goes into `sorted`: behind the last song that it does not
/// have to stand before.
pub open spec fn insert_position(sorted: Seq<SongView>, song: SongView, by: SortCriteria) -> int
    decreases sorted.len(),
{
    if sorted.len() == 0 {
        0
    } else if sorts_before(song, sorted.last(), by) {
        insert_position(sorted.drop_last(), song, by)
    } else {
        sorted.len() as int
    }
}

/// The songs in the order of the criterion, songs of the same rank in the
/// order in which they came.
pub open spec fn sorted_by(songs: Seq<SongView>, by: SortCriteria) -> Seq<SongView>
    decreases songs.len(),
{
    if songs.len() == 0 {
        songs
    } else {
        let front = sorted_by(songs.drop_last(), by);
        front.insert(insert_position(front, songs.last(), by), songs.last())
    }
}

/// `sorts_before` is a strict order whose complement is transitive too.
pub proof fn lemma_rank_laws(a: SongView, b: SongView, c: SongView, by: SortCriteria)
    ensures
        !sorts_before(a, a, by),
        sorts_before(a, b, by) ==> !sorts_before(b, a, by),
        sorts_before(a, b, by) && sorts_before(b, c, by) ==> sorts_before(a, c, by),
        !sorts_before(b, a, by) && !sorts_before(c, b, by) ==> !sorts_before(c, a, by),
{
    match by {
        SortCriteria::Title => {
            lemma_text_laws(lowercase(a.title), lowercase(b.title), lowercase(c.title));
        },
        SortCriteria::Artist => {
            lemma_text_laws(lowercase(a.artist), lowercase(b.artist), lowercase(c.artist));
        },
        _ => {},
    }
}

proof fn lemma_text_laws(a: Seq<char>, b: Seq<char>, c: Seq<char>)
    ensures
        !text_lt(a, a),
        text_lt(a, b) ==> !text_lt(b, a),
        text_lt(a, b) && text_lt(b, c) ==> text_lt(a, c),
        !text_lt(b, a) && !text_lt(c, b) ==> !text_lt(c, a),
{
    lemma_text_lt_irreflexive(a);
    if text_lt(a, b) {
        lemma_text_lt_asymmetric(a, b);
        if text_lt(b, c) {
            lemma_text_lt_transitive(a, b, c);
        }
    }
    if !text_lt(b, a) && !text_lt(c, b) && text_lt(c, a) {
        lemma_text_lt_total(a, b);
        if text_lt(a, b) {
            lemma_text_lt_transitive(c, a, b);
        }
    }
}

/// The place that `insert_position` gives lies within the sequence, every
/// song from there on has to stand behind the new one, and the song just
/// before it does not.
pub proof fn lemma_insert_position(sorted: Seq<SongView>, song: SongView, by: SortCriteria)
    ensures
        0 <= insert_position(sorted, song, by) <= sorted.len(),
        forall|j: int|
            insert_position(sorted, song, by) <= j < sorted.len() ==> sorts_before(
                song,
                #[trigger] sorted[j],
                by,
            ),
        insert_position(sorted, song, by) > 0 ==> !sorts_before(
            song,
            sorted[insert_position(sorted, song, by) - 1],
            by,
        ),
    decreases sorted.len(),
{
    if sorted.len() > 0 && sorts_before(song, sorted.last(), by) {
        let front = sorted.drop_last();
        lemma_insert_position(front, song, by);
        assert forall|j: int| insert_position(sorted, song, by) <= j < sorted.len() implies sorts_before(
            song,
            #[trigger] sorted[j],
            by,
        ) by {
            if j < front.len() {
                assert(sorted[j] == front[j]);
            }
        }
        if insert_position(sorted, song, by) > 0 {
            assert(sorted[insert_position(sorted, song, by) - 1] == front[insert_position(
                front,
                song,
                by,
            ) - 1]);
        }
    }
}

/// Sorting keeps the number of songs.
pub proof fn lemma_sorted_len(songs: Seq<SongView>, by: SortCriteria)
    ensures
        sorted_by(songs, by).len() == songs.len(),
    decreases songs.len(),
{
    if songs.len() > 0 {
        lemma_sorted_len(songs.drop_last(), by);
        lemma_insert_position(sorted_by(songs.drop_last(), by), songs.last(), by);
    }
}

/// Sorting rearranges: every song occurs in the result as often as before.
pub proof fn lemma_sorted_is_permutation(songs: Seq<SongView>, by: SortCriteria)
    ensures
        sorted_by(songs, by).to_multiset() == songs.to_multiset(),
    decreases songs.len(),
{
    if songs.len() > 0 {
        let front = sorted_by(songs.drop_last(), by);
        let at = insert_position(front, songs.last(), by);
        lemma_sorted_is_permutation(songs.drop_last(), by);
        lemma_insert_position(front, songs.last(), by);
        vstd::seq_lib::to_multiset_insert(front, at, songs.last());
        vstd::seq_lib::to_multiset_build(songs.drop_last(), songs.last());
        assert(songs.drop_last().push(songs.last()) =~= songs);
    }
}

/// The result of sorting holds the songs that went in, and no others.
pub proof fn lemma_sorted_same_songs(songs: Seq<SongView>, by: SortCriteria, song: SongView)
    ensures
        sorted_by(songs, by).contains(song) <==> songs.contains(song),
{
    lemma_sorted_is_permutation(songs, by);
    vstd::seq_lib::to_multiset_contains(songs, song);
    vstd::seq_lib::to_multiset_contains(sorted_by(songs, by), song);
}

/// The result of sorting is in order.
pub proof fn lemma_sorted_is_ordered(songs: Seq<SongView>, by: SortCriteria)
    ensures
        ordered(sorted_by(songs, by), by),
    decreases songs.len(),
{
    if songs.len() > 0 {
        let front = sorted_by(songs.drop_last(), by);
        let new = songs.last();
        let at = insert_position(front, new, by);
        let result = front.insert(at, new);
        lemma_sorted_is_ordered(songs.drop_last(), by);
        lemma_insert_position(front, new, by);
        assert forall|i: int, j: int| 0 <= i < j < result.len() implies !sorts_before(
            result[j],
            result[i],
            by,
        ) by {
            if j == at {
                // result[i] stands at or before the song just before the new one
                lemma_rank_laws(front[i], front[at - 1], new, by);
            } else if i == at {
                assert(result[j] == front[j - 1]);
                lemma_rank_laws(new, front[j - 1], new, by);
            } else {
                let fi = if i < at { i } else { i - 1 };
                let fj = if j < at { j } else { j - 1 };
                assert(result[i] == front[fi]);
                assert(result[j] == front[fj]);
            }
        }
    }
}

/// The songs that rank with `of`.
pub open spec fn ranks_with(of: SongView, by: SortCriteria) -> spec_fn(SongView) -> bool {
    |s: SongView| same_rank(of, s, by)
}

/// Sorting is stable: the songs of one rank keep the order in which they
/// came.
pub proof fn lemma_sorted_is_stable(songs: Seq<SongView>, by: SortCriteria, of: SongView)
    ensures
        sorted_by(songs, by).filter(ranks_with(of, by)) == songs.filter(ranks_with(of, by)),
    decreases songs.len(),
{
    let same = ranks_with(of, by);
    if songs.len() > 0 {
        let before = songs.drop_last();
        let front = sorted_by(before, by);
        let new = songs.last();
        let at = insert_position(front, new, by);
        let head = front.take(at);
        let tail = front.skip(at);
        lemma_sorted_is_stable(before, by, of);
        lemma_insert_position(front, new, by);
        assert(front =~= head + tail);
        assert(front.insert(at, new) =~= (head + seq![new]) + tail);
        assert(songs =~= before + seq![new]);
        Seq::filter_distributes_over_add(head, tail, same);
        Seq::filter_distributes_over_add(head, seq![new], same);
        Seq::filter_distributes_over_add(head + seq![new], tail, same);
        Seq::filter_distributes_over_add(before, seq![new], same);
        let h = head.filter(same);
        let n = seq![new].filter(same);
        let t = tail.filter(same);
        assert(sorted_by(songs, by).filter(same) == (h + n) + t);
        assert(songs.filter(same) == (h + t) + n);
        if same(new) {
            assert forall|j: int| 0 <= j < tail.len() implies !same(#[trigger] tail[j]) by {
                assert(tail[j] == front[at + j]);
                lemma_rank_laws(tail[j], of, new, by);
                lemma_rank_laws(new, of, tail[j], by);
            }
            lemma_filter_none(tail, same);
            assert((h + n) + t =~= (h + t) + n);
        } else {
            lemma_filter_none(seq![new], same);
            assert((h + n) + t =~= (h + t) + n);
        }
    }
}

/// A filter that no element passes leaves nothing.
pub proof fn lemma_filter_none<A>(s: Seq<A>, pred: spec_fn(A) -> bool)
    requires
        forall|i: int| 0 <= i < s.len() ==> !pred(#[trigger] s[i]),
    ensures
        s.filter(pred) == Seq::<A>::empty(),
    decreases s.len(),
{
    reveal(Seq::filter);
    if s.len() > 0 {
        lemma_filter_none(s.drop_last(), pred);
    }
}

} // verus!
