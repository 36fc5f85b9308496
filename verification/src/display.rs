//! The texts that the screen shows: times, the details of a song, the
//! progress of the song that plays.

use crate::manifest::texts_of;
use crate::song::{Song, SongView};
use vstd::prelude::*;
use vstd::string::StringExecFns;

verus! {

/// The width, in columns, to which the details of a song are wrapped.
pub const DETAILS_WIDTH: usize = 29;

/// The lines into which a text is wrapped at a width.
pub uninterp spec fn wrapped(text: Seq<char>, width: usize) -> Seq<Seq<char>>;

/// Calls `textwrap::wrap` with the width and otherwise default options, and
/// owns each line. How a text is wrapped depends on the text and the width
/// alone; the contract names the lines `wrapped` and claims nothing else of
/// them.
#[verifier::external_body]
fn wrap_text(text: &str, width: usize) -> (lines: Vec<String>)
    ensures
        texts_of(lines@) == wrapped(text@, width),
{
    textwrap::wrap(text, width).into_iter().map(|line| line.into_owned()).collect()
}

/// The digit for a number below ten.
pub open spec fn digit(d: nat) -> char {
    if d == 0 {
        '0'
    } else if d == 1 {
        '1'
    } else if d == 2 {
        '2'
    } else if d == 3 {
        '3'
    } else if d == 4 {
        '4'
    } else if d == 5 {
        '5'
    } else if d == 6 {
        '6'
    } else if d == 7 {
        '7'
    } else if d == 8 {
        '8'
    } else {
        '9'
    }
}

/// The decimal digits of a number, the highest first.
pub open spec fn decimal(n: nat) -> Seq<char>
    decreases n,
{
    if n < 10 {
        seq![digit(n)]
    } else {
        decimal(n / 10).push(digit(n % 10))
    }
}

/// The number in at least two digits: a zero goes before a single digit.
pub open spec fn two_digits(n: nat) -> Seq<char> {
    if n < 10 {
        seq!['0', digit(n)]
    } else {
        decimal(n)
    }
}

/// A time in milliseconds as minutes and seconds, `mm:ss`; the part of a
/// second is dropped.
pub open spec fn clock(ms: u64) -> Seq<char> {
    two_digits((ms / 60000) as nat) + seq![':'] + two_digits(((ms / 1000) % 60) as nat)
}

/// The details of a song as one text of four lines.
pub open spec fn details(song: SongView) -> Seq<char> {
    "Artist: "@ + song.artist + "\nSong: "@ + song.title + "\nAlbum: "@ + song.album
        + "\nDuration: "@ + clock(song.duration)
}

/// The lines as one text, a line end between each two.
pub open spec fn joined(lines: Seq<Seq<char>>) -> Seq<char>
    decreases lines.len(),
{
    if lines.len() == 0 {
        Seq::empty()
    } else if lines.len() == 1 {
        lines[0]
    } else {
        joined(lines.drop_last()) + seq!['\n'] + lines.last()
    }
}

/// The progress of a song as `mm:ss/mm:ss`: the time played, then the
/// duration.
pub open spec fn progress(played: u64, duration: u64) -> Seq<char> {
    clock(played) + seq!['/'] + clock(duration)
}

/// How much of a song has been played, in thousandths; zero for a song of
/// unknown duration and for one that has reached its end.
pub open spec fn thousandths(played: u64, duration: u64) -> int {
    if duration > 0 && played < duration {
        played * 1000 / (duration as int)
    } else {
        0
    }
}

fn digit_of(d: u64) -> (c: char)
    requires
        d < 10,
    ensures
        c == digit(d as nat),
{
    if d == 0 {
        '0'
    } else if d == 1 {
        '1'
    } else if d == 2 {
        '2'
    } else if d == 3 {
        '3'
    } else if d == 4 {
        '4'
    } else if d == 5 {
        '5'
    } else if d == 6 {
        '6'
    } else if d == 7 {
        '7'
    } else if d == 8 {
        '8'
    } else {
        '9'
    }
}

/// Append the decimal digits of a number to a text.
pub fn push_decimal(text: &mut String, n: u64)
    ensures
        final(text)@ == old(text)@ + decimal(n as nat),
    decreases n,
{
    if n >= 10 {
        push_decimal(text, n / 10);
    }
    text.push(digit_of(n % 10));
    proof {
        if n >= 10 {
            assert(text@ =~= old(text)@ + decimal(n as nat));
        } else {
            assert(text@ =~= old(text)@ + decimal(n as nat));
        }
    }
}

/// Append a number in at least two digits to a text.
pub fn push_two_digits(text: &mut String, n: u64)
    ensures
        final(text)@ == old(text)@ + two_digits(n as nat),
{
    if n < 10 {
        text.push('0');
        text.push(digit_of(n));
        proof {
            assert(text@ =~= old(text)@ + two_digits(n as nat));
        }
    } else {
        push_decimal(text, n);
    }
}

/// Append a time as `mm:ss` to a text.
pub fn push_clock(text: &mut String, ms: u64)
    ensures
        final(text)@ == old(text)@ + clock(ms),
{
    push_two_digits(text, ms / 60000);
    text.push(':');
    push_two_digits(text, (ms / 1000) % 60);
    proof {
        assert(text@ =~= old(text)@ + clock(ms));
    }
}

/// A time in milliseconds as minutes and seconds, `mm:ss`.
pub fn clock_text(ms: u64) -> (text: String)
    ensures
        text@ == clock(ms),
{
    let mut text = String::new();
    push_clock(&mut text, ms);
    proof {
        assert(Seq::<char>::empty() + clock(ms) =~= clock(ms));
    }
    text
}

/// The progress of a song as `mm:ss/mm:ss`.
pub fn progress_text(played: u64, duration: u64) -> (text: String)
    ensures
        text@ == progress(played, duration),
{
    let mut text = String::new();
    push_clock(&mut text, played);
    text.push('/');
    push_clock(&mut text, duration);
    proof {
        assert(text@ =~= progress(played, duration));
    }
    text
}

/// How much of a song has been played, in thousandths.
pub fn progress_thousandths(played: u64, duration: u64) -> (part: u16)
    ensures
        part == thousandths(played, duration),
        part < 1000,
{
    if duration > 0 && played < duration {
        let scaled: u128 = (played as u128) * 1000;
        let part: u128 = scaled / (duration as u128);
        proof {
            assert(played * 1000 < duration * 1000) by (nonlinear_arith)
                requires
                    played < duration,
            ;
            assert(scaled / (duration as u128) < 1000) by (nonlinear_arith)
                requires
                    scaled < duration * 1000,
                    duration > 0,
            ;
        }
        part as u16
    } else {
        0
    }
}

/// The details of a song as one text: artist, song, album and duration, a
/// line each.
pub fn details_text(song: &Song) -> (text: String)
    ensures
        text@ == details(song@),
{
    let mut text: String = "Artist: ".to_owned();
    text.append(song.artist.as_str());
    text.append("\nSong: ");
    text.append(song.title.as_str());
    text.append("\nAlbum: ");
    text.append(song.album.as_str());
    text.append("\nDuration: ");
    push_clock(&mut text, song.duration);
    text
}

/// The lines as one text, a line end between each two.
pub fn join_lines(lines: &Vec<String>) -> (text: String)
    ensures
        text@ == joined(texts_of(lines@)),
{
    let mut text = String::new();
    let mut i: usize = 0;
    proof {
        assert(texts_of(lines@).take(0) =~= Seq::<Seq<char>>::empty());
    }
    while i < lines.len()
        invariant
            i <= lines.len(),
            text@ == joined(texts_of(lines@).take(i as int)),
        decreases lines.len() - i,
    {
        proof {
            let all = texts_of(lines@);
            assert(all.take(i + 1).drop_last() =~= all.take(i as int));
            assert(all.take(i + 1).last() == lines@[i as int]@);
            if i == 0 {
                assert(Seq::<char>::empty() + lines@[0]@ =~= lines@[0]@);
            }
        }
        if i > 0 {
            text.push('\n');
        }
        text.append(lines[i].as_str());
        i += 1;
    }
    proof {
        assert(texts_of(lines@).take(lines@.len() as int) =~= texts_of(lines@));
    }
    text
}

/// The details of a song as the side of the screen shows them: wrapped to
/// the width of the details, the lines joined again.
pub fn song_details(song: &Song) -> (text: String)
    ensures
        text@ == joined(wrapped(details(song@), DETAILS_WIDTH)),
{
    let whole = details_text(song);
    let lines = wrap_text(whole.as_str(), DETAILS_WIDTH);
    join_lines(&lines)
}

} // verus!
