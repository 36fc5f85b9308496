//! The manifest of a playlist: a text with a header line and then the path of
//! each song on a line of its own. A playlist is written as such a text and
//! read back from it.

use crate::order::lemma_filter_none;
use crate::text::chars_of;
use vstd::prelude::*;
use vstd::string::StringExecFns;

verus! {

/// The first line of every manifest.
pub open spec fn header() -> Seq<char> {
    "#EXTM3U"@
}

/// The character that ends a line.
pub open spec fn line_end() -> char {
    '\n'
}

/// The character has the Unicode property White_Space.
pub open spec fn is_white(c: char) -> bool {
    let code = c as u32;
    ||| 0x09 <= code <= 0x0D
    ||| code == 0x20
    ||| code == 0x85
    ||| code == 0xA0
    ||| code == 0x1680
    ||| 0x2000 <= code <= 0x200A
    ||| code == 0x2028
    ||| code == 0x2029
    ||| code == 0x202F
    ||| code == 0x205F
    ||| code == 0x3000
}

/// The line holds nothing but white space.
pub open spec fn blank(line: Seq<char>) -> bool {
    forall|i: int| 0 <= i < line.len() ==> is_white(#[trigger] line[i])
}

/// The line is a comment (it begins with `#`) or blank: it names no song.
pub open spec fn skipped(line: Seq<char>) -> bool {
    (line.len() > 0 && line[0] == '#') || blank(line)
}

/// The place of the first line end in the text, or the length of the text
/// where there is none.
pub open spec fn first_break(text: Seq<char>) -> nat
    decreases text.len(),
{
    if text.len() == 0 {
        0
    } else if text[0] == line_end() {
        0
    } else {
        1 + first_break(text.drop_first())
    }
}

/// The line without the carriage return that may end it.
pub open spec fn without_return(line: Seq<char>) -> Seq<char> {
    if line.len() > 0 && line.last() == '\r' {
        line.drop_last()
    } else {
        line
    }
}

/// The lines of a text. A line ends at a line end, which is not part of it,
/// nor is a carriage return just before the line end. What follows the last
/// line end is a line too, unless it is empty.
pub open spec fn lines_of(text: Seq<char>) -> Seq<Seq<char>>
    decreases text.len(),
{
    if text.len() == 0 {
        Seq::empty()
    } else if first_break(text) >= text.len() {
        seq![text]
    } else {
        seq![without_return(text.take(first_break(text) as int))] + lines_of(
            text.skip(first_break(text) as int + 1),
        )
    }
}

/// The lines that name a song.
pub open spec fn names_song() -> spec_fn(Seq<char>) -> bool {
    |line: Seq<char>| !skipped(line)
}

/// The paths that a manifest names: its lines but for comments and blank
/// lines, in order.
pub open spec fn paths_in(text: Seq<char>) -> Seq<Seq<char>> {
    lines_of(text).filter(names_song())
}

/// One line for each path, each ended by a line end.
pub open spec fn body_of(paths: Seq<Seq<char>>) -> Seq<char>
    decreases paths.len(),
{
    if paths.len() == 0 {
        Seq::empty()
    } else {
        paths[0] + seq![line_end()] + body_of(paths.drop_first())
    }
}

/// The manifest that names these paths: the header line, then the paths.
pub open spec fn manifest_of(paths: Seq<Seq<char>>) -> Seq<char> {
    header() + seq![line_end()] + body_of(paths)
}

/// A path that a manifest can carry: it holds no line end, does not end in a
/// carriage return, and is neither a comment nor blank.
pub open spec fn carried(path: Seq<char>) -> bool {
    &&& !path.contains(line_end())
    &&& !(path.len() > 0 && path.last() == '\r')
    &&& !skipped(path)
}

/// The texts of a sequence of strings.
pub open spec fn texts_of(strings: Seq<String>) -> Seq<Seq<char>> {
    strings.map_values(|s: String| s@)
}

/// `first_break` gives the first place at which a line end stands.
pub proof fn lemma_first_break(text: Seq<char>)
    ensures
        0 <= first_break(text) <= text.len(),
        first_break(text) < text.len() ==> text[first_break(text) as int] == line_end(),
        forall|j: int| 0 <= j < first_break(text) ==> #[trigger] text[j] != line_end(),
    decreases text.len(),
{
    if text.len() > 0 && text[0] != line_end() {
        let rest = text.drop_first();
        lemma_first_break(rest);
        assert forall|j: int| 0 <= j < first_break(text) implies #[trigger] text[j]
            != line_end() by {
            if j > 0 {
                assert(text[j] == rest[j - 1]);
            }
        }
    }
}

/// A place before which no line end stands, and at which one stands or the
/// text ends, is the place that `first_break` gives.
pub proof fn lemma_first_break_at(text: Seq<char>, at: int)
    requires
        0 <= at <= text.len(),
        forall|j: int| 0 <= j < at ==> #[trigger] text[j] != line_end(),
        at < text.len() ==> text[at] == line_end(),
    ensures
        first_break(text) == at,
{
    lemma_first_break(text);
    let found = first_break(text) as int;
    if found < at {
        assert(text[found] == line_end());
    }
}

/// The body for one more path is the body so far and then the line of that
/// path.
pub proof fn lemma_body_push(paths: Seq<Seq<char>>, path: Seq<char>)
    ensures
        body_of(paths.push(path)) == body_of(paths) + path + seq![line_end()],
    decreases paths.len(),
{
    let more = paths.push(path);
    if paths.len() == 0 {
        assert(more.drop_first() =~= Seq::<Seq<char>>::empty());
        assert(body_of(more.drop_first()) =~= Seq::<char>::empty());
        assert(body_of(more) =~= body_of(paths) + path + seq![line_end()]);
    } else {
        assert(more.drop_first() =~= paths.drop_first().push(path));
        lemma_body_push(paths.drop_first(), path);
        assert(body_of(more) =~= body_of(paths) + path + seq![line_end()]);
    }
}

/// The lines of a text that begins with a line without a carriage return at
/// its end: that line, then the lines of the rest.
pub proof fn lemma_lines_behind(line: Seq<char>, rest: Seq<char>)
    requires
        !line.contains(line_end()),
        !(line.len() > 0 && line.last() == '\r'),
    ensures
        lines_of(line + seq![line_end()] + rest) == seq![line] + lines_of(rest),
{
    let text = line + seq![line_end()] + rest;
    assert forall|j: int| 0 <= j < line.len() implies #[trigger] text[j] != line_end() by {
        assert(text[j] == line[j]);
        assert(line.contains(line[j]));
    }
    assert(text[line.len() as int] == line_end());
    lemma_first_break_at(text, line.len() as int);
    assert(text.take(line.len() as int) =~= line);
    assert(text.skip(line.len() as int + 1) =~= rest);
}

/// The lines of a body are its paths, where a manifest can carry each.
pub proof fn lemma_lines_of_body(paths: Seq<Seq<char>>)
    requires
        forall|i: int| 0 <= i < paths.len() ==> carried(#[trigger] paths[i]),
    ensures
        lines_of(body_of(paths)) == paths,
    decreases paths.len(),
{
    if paths.len() > 0 {
        let rest = paths.drop_first();
        assert(carried(paths[0]));
        assert forall|i: int| 0 <= i < rest.len() implies carried(#[trigger] rest[i]) by {
            assert(rest[i] == paths[i + 1]);
        }
        lemma_lines_of_body(rest);
        lemma_lines_behind(paths[0], body_of(rest));
        assert(seq![paths[0]] + rest =~= paths);
    } else {
        assert(lines_of(body_of(paths)) =~= paths);
    }
}

/// A filter that every element passes leaves everything.
pub proof fn lemma_filter_all<A>(s: Seq<A>, pred: spec_fn(A) -> bool)
    requires
        forall|i: int| 0 <= i < s.len() ==> pred(#[trigger] s[i]),
    ensures
        s.filter(pred) == s,
    decreases s.len(),
{
    reveal(Seq::filter);
    if s.len() > 0 {
        let front = s.drop_last();
        assert forall|i: int| 0 <= i < front.len() implies pred(#[trigger] front[i]) by {
            assert(front[i] == s[i]);
        }
        lemma_filter_all(front, pred);
        assert(front.push(s.last()) =~= s);
    }
}

/// Written and read back, a manifest names the paths that went into it,
/// where it can carry each of them.
pub proof fn lemma_manifest_round_trip(paths: Seq<Seq<char>>)
    requires
        forall|i: int| 0 <= i < paths.len() ==> carried(#[trigger] paths[i]),
    ensures
        paths_in(manifest_of(paths)) == paths,
{
    reveal_strlit("#EXTM3U");
    let head = header();
    assert(!head.contains(line_end())) by {
        if head.contains(line_end()) {
            let i = choose|i: int| 0 <= i < head.len() && head[i] == line_end();
            assert(head[i] != line_end());
        }
    }
    lemma_lines_behind(head, body_of(paths));
    lemma_lines_of_body(paths);
    let lines = seq![head] + paths;
    assert(lines_of(manifest_of(paths)) == lines);
    Seq::filter_distributes_over_add(seq![head], paths, names_song());
    assert(skipped(head));
    lemma_filter_none(seq![head], names_song());
    lemma_filter_all(paths, names_song());
    assert(Seq::<Seq<char>>::empty() + paths =~= paths);
}

/// The manifest that names these paths.
pub fn render_manifest(paths: &Vec<String>) -> (text: String)
    ensures
        text@ == manifest_of(texts_of(paths@)),
{
    let mut text: String = "#EXTM3U".to_owned();
    text.push('\n');
    let mut i: usize = 0;
    proof {
        assert(texts_of(paths@).take(0) =~= Seq::<Seq<char>>::empty());
        assert(text@ =~= manifest_of(texts_of(paths@).take(0)));
    }
    while i < paths.len()
        invariant
            i <= paths.len(),
            text@ == manifest_of(texts_of(paths@).take(i as int)),
        decreases paths.len() - i,
    {
        proof {
            let all = texts_of(paths@);
            assert(all.take(i + 1) =~= all.take(i as int).push(paths@[i as int]@));
            lemma_body_push(all.take(i as int), paths@[i as int]@);
        }
        let ghost before = text@;
        text.append(paths[i].as_str());
        text.push('\n');
        proof {
            assert(text@ =~= before + paths@[i as int]@ + seq![line_end()]);
            assert(text@ =~= manifest_of(texts_of(paths@).take(i + 1)));
        }
        i += 1;
    }
    proof {
        assert(texts_of(paths@).take(paths@.len() as int) =~= texts_of(paths@));
    }
    text
}

/// Whether the character has the Unicode property White_Space.
pub fn is_whitespace(c: char) -> (white: bool)
    ensures
        white == is_white(c),
{
    let code: u32 = c as u32;
    (0x09 <= code && code <= 0x0D) || code == 0x20 || code == 0x85 || code == 0xA0 || code
        == 0x1680 || (0x2000 <= code && code <= 0x200A) || code == 0x2028 || code == 0x2029
        || code == 0x202F || code == 0x205F || code == 0x3000
}

fn is_skipped(chars: &Vec<char>, from: usize, to: usize) -> (skip: bool)
    requires
        from <= to <= chars.len(),
    ensures
        skip == skipped(chars@.subrange(from as int, to as int)),
{
    let ghost line = chars@.subrange(from as int, to as int);
    if from < to && chars[from] == '#' {
        proof {
            assert(line[0] == chars@[from as int]);
        }
        return true;
    }
    let mut i: usize = from;
    while i < to
        invariant
            from <= i <= to <= chars.len(),
            line == chars@.subrange(from as int, to as int),
            from < to ==> chars@[from as int] != '#',
            forall|j: int| 0 <= j < i - from ==> is_white(#[trigger] line[j]),
        decreases to - i,
    {
        if !is_whitespace(chars[i]) {
            proof {
                assert(line[i - from] == chars@[i as int]);
                if from < to {
                    assert(line[0] == chars@[from as int]);
                }
            }
            return false;
        }
        i += 1;
    }
    true
}

fn text_from(chars: &Vec<char>, from: usize, to: usize) -> (text: String)
    requires
        from <= to <= chars.len(),
    ensures
        text@ == chars@.subrange(from as int, to as int),
{
    let mut text = String::new();
    let mut i: usize = from;
    while i < to
        invariant
            from <= i <= to <= chars.len(),
            text@ == chars@.subrange(from as int, i as int),
        decreases to - i,
    {
        text.push(chars[i]);
        proof {
            assert(text@ =~= chars@.subrange(from as int, i + 1));
        }
        i += 1;
    }
    text
}

/// The paths that a manifest names, in order.
pub fn parse_manifest(text: &str) -> (paths: Vec<String>)
    ensures
        texts_of(paths@) == paths_in(text@),
{
    let chars = chars_of(text);
    let n: usize = chars.len();
    let mut paths: Vec<String> = Vec::new();
    let ghost mut done: Seq<Seq<char>> = Seq::empty();
    let mut start: usize = 0;
    let mut i: usize = 0;
    proof {
        assert(chars@.skip(0) =~= chars@);
        assert(done + lines_of(chars@.skip(0)) =~= lines_of(chars@));
        assert(texts_of(paths@) =~= Seq::<Seq<char>>::empty());
        lemma_filter_none(done, names_song());
    }
    while i < n
        invariant
            start <= i <= n,
            n == chars.len(),
            chars@ == text@,
            lines_of(text@) == done + lines_of(chars@.skip(start as int)),
            texts_of(paths@) == done.filter(names_song()),
            forall|j: int| start <= j < i ==> #[trigger] chars@[j] != line_end(),
        decreases n - i,
    {
        if chars[i] == '\n' {
            let end: usize = if start < i && chars[i - 1] == '\r' {
                (i - 1) as usize
            } else {
                i
            };
            proof {
                let rest = chars@.skip(start as int);
                assert forall|j: int| 0 <= j < i - start implies #[trigger] rest[j]
                    != line_end() by {
                    assert(rest[j] == chars@[start + j]);
                }
                assert(rest[i - start] == chars@[i as int]);
                lemma_first_break_at(rest, i - start);
                let whole = rest.take(i - start);
                assert(whole =~= chars@.subrange(start as int, i as int));
                if whole.len() > 0 {
                    assert(whole.last() == chars@[i - 1]);
                }
                assert(without_return(whole) =~= chars@.subrange(start as int, end as int));
                assert(rest.skip(i - start + 1) =~= chars@.skip(i + 1));
                let line = chars@.subrange(start as int, end as int);
                assert(lines_of(text@) =~= done.push(line) + lines_of(chars@.skip(i + 1)));
                Seq::lemma_filter_push(done, line, names_song());
            }
            if !is_skipped(&chars, start, end) {
                let path = text_from(&chars, start, end);
                proof {
                    assert(texts_of(paths@.push(path)) =~= texts_of(paths@).push(path@));
                }
                paths.push(path);
            }
            proof {
                done = done.push(chars@.subrange(start as int, end as int));
            }
            start = i + 1;
        }
        i += 1;
    }
    proof {
        let rest = chars@.skip(start as int);
        if start < n {
            assert forall|j: int| 0 <= j < n - start implies #[trigger] rest[j] != line_end() by {
                assert(rest[j] == chars@[start + j]);
            }
            lemma_first_break_at(rest, n - start);
            assert(rest =~= chars@.subrange(start as int, n as int));
            assert(lines_of(text@) =~= done.push(rest));
            Seq::lemma_filter_push(done, rest, names_song());
        } else {
            assert(lines_of(text@) =~= done);
        }
    }
    if start < n {
        if !is_skipped(&chars, start, n) {
            let path = text_from(&chars, start, n);
            proof {
                assert(texts_of(paths@.push(path)) =~= texts_of(paths@).push(path@));
            }
            paths.push(path);
        }
    }
    paths
}

} // verus!
