//! The names under which playlists are written out. A playlist may have any
//! name; a file may not. So a name is escaped before it becomes part of a
//! file name, and unescaped when it is read back.

use crate::text::chars_of;
use vstd::prelude::*;

verus! {

/// The character may not stand in a file name as it is: a control
/// character, a separator of paths, a character that some file system
/// refuses, or the escape character itself.
pub open spec fn needs_escape(c: char) -> bool {
    let code = c as u32;
    ||| code < 0x20
    ||| code == 0x7F
    ||| c == '/'
    ||| c == '\\'
    ||| c == ':'
    ||| c == '*'
    ||| c == '?'
    ||| c == '"'
    ||| c == '<'
    ||| c == '>'
    ||| c == '|'
    ||| c == '%'
}

/// The hexadecimal digit for a number below sixteen, in upper case.
pub open spec fn hex_digit(d: int) -> char {
    if d == 0 {
        '0'
    } else if d == 1 {
        '1'
    } else if d == 2 {
        '2'
    } else if d == 3 {
        '3'
    } else if d == 4 {
        '4'
    } else if d == 5 {
        '5'
    } else if d == 6 {
        '6'
    } else if d == 7 {
        '7'
    } else if d == 8 {
        '8'
    } else if d == 9 {
        '9'
    } else if d == 10 {
        'A'
    } else if d == 11 {
        'B'
    } else if d == 12 {
        'C'
    } else if d == 13 {
        'D'
    } else if d == 14 {
        'E'
    } else {
        'F'
    }
}

/// The number that a hexadecimal digit in upper case stands for.
pub open spec fn hex_value(c: char) -> Option<int> {
    if c == '0' {
        Some(0)
    } else if c == '1' {
        Some(1)
    } else if c == '2' {
        Some(2)
    } else if c == '3' {
        Some(3)
    } else if c == '4' {
        Some(4)
    } else if c == '5' {
        Some(5)
    } else if c == '6' {
        Some(6)
    } else if c == '7' {
        Some(7)
    } else if c == '8' {
        Some(8)
    } else if c == '9' {
        Some(9)
    } else if c == 'A' {
        Some(10)
    } else if c == 'B' {
        Some(11)
    } else if c == 'C' {
        Some(12)
    } else if c == 'D' {
        Some(13)
    } else if c == 'E' {
        Some(14)
    } else if c == 'F' {
        Some(15)
    } else {
        None
    }
}

/// A character as it stands in a file name: itself, or, where it needs an
/// escape, `%` and the two hexadecimal digits of its code.
pub open spec fn escaped_char(c: char) -> Seq<char> {
    if needs_escape(c) {
        seq!['%', hex_digit(c as u32 as int / 16), hex_digit(c as u32 as int % 16)]
    } else {
        seq![c]
    }
}

/// A name as it stands in a file name: each character escaped.
pub open spec fn escaped(name: Seq<char>) -> Seq<char>
    decreases name.len(),
{
    if name.len() == 0 {
        Seq::empty()
    } else {
        escaped_char(name[0]) + escaped(name.drop_first())
    }
}

/// The text begins with an escape: `%` and two hexadecimal digits of a code
/// below 128.
pub open spec fn begins_with_escape(text: Seq<char>) -> bool {
    &&& text.len() >= 3
    &&& text[0] == '%'
    &&& hex_value(text[1]) is Some
    &&& hex_value(text[2]) is Some
    &&& hex_value(text[1]).unwrap() < 8
}

/// The character that the escape at the beginning of the text stands for.
pub open spec fn escape_at_start(text: Seq<char>) -> char {
    ((hex_value(text[1]).unwrap() * 16 + hex_value(text[2]).unwrap()) as u8) as char
}

/// The name that a part of a file name stands for: each escape replaced by
/// its character, everything else as it is.
pub open spec fn unescaped(text: Seq<char>) -> Seq<char>
    decreases text.len(),
{
    if text.len() == 0 {
        Seq::empty()
    } else if begins_with_escape(text) {
        seq![escape_at_start(text)] + unescaped(text.skip(3))
    } else {
        seq![text[0]] + unescaped(text.drop_first())
    }
}

/// An escaped character read back is the character.
pub proof fn lemma_escaped_char(c: char, rest: Seq<char>)
    ensures
        unescaped(escaped_char(c) + rest) == seq![c] + unescaped(rest),
{
    let text = escaped_char(c) + rest;
    if needs_escape(c) {
        let code = c as u32;
        assert(code < 128);
        assert(text[0] == '%');
        assert(text[1] == hex_digit(code as int / 16));
        assert(text[2] == hex_digit(code as int % 16));
        assert(hex_value(hex_digit(code as int / 16)) == Some(code as int / 16));
        assert(hex_value(hex_digit(code as int % 16)) == Some(code as int % 16));
        assert(begins_with_escape(text));
        assert(text.skip(3) =~= rest);
        assert((code as int / 16) * 16 + code as int % 16 == code);
        vstd::utf8::char_u32_cast(c, code);
        assert(escape_at_start(text) == c);
    } else {
        assert(text[0] == c);
        assert(c != '%');
        assert(!begins_with_escape(text));
        assert(text.drop_first() =~= rest);
    }
}

/// A name that is escaped and read back is the name that it was.
pub proof fn lemma_unescape_escaped(name: Seq<char>)
    ensures
        unescaped(escaped(name)) == name,
    decreases name.len(),
{
    if name.len() > 0 {
        lemma_unescape_escaped(name.drop_first());
        lemma_escaped_char(name[0], escaped(name.drop_first()));
        assert(seq![name[0]] + name.drop_first() =~= name);
    }
}

/// No character of an escaped name needs an escape but `%`.
pub proof fn lemma_escaped_is_safe(name: Seq<char>, at: int)
    requires
        0 <= at < escaped(name).len(),
    ensures
        escaped(name)[at] == '%' || !needs_escape(escaped(name)[at]),
    decreases name.len(),
{
    if name.len() > 0 {
        let head = escaped_char(name[0]);
        let tail = escaped(name.drop_first());
        if at < head.len() {
            assert(escaped(name)[at] == head[at]);
        } else {
            assert(escaped(name)[at] == tail[at - head.len()]);
            lemma_escaped_is_safe(name.drop_first(), at - head.len());
        }
    }
}

fn hex_digit_of(d: u32) -> (c: char)
    requires
        d < 16,
    ensures
        c == hex_digit(d as int),
{
    if d == 0 {
        '0'
    } else if d == 1 {
        '1'
    } else if d == 2 {
        '2'
    } else if d == 3 {
        '3'
    } else if d == 4 {
        '4'
    } else if d == 5 {
        '5'
    } else if d == 6 {
        '6'
    } else if d == 7 {
        '7'
    } else if d == 8 {
        '8'
    } else if d == 9 {
        '9'
    } else if d == 10 {
        'A'
    } else if d == 11 {
        'B'
    } else if d == 12 {
        'C'
    } else if d == 13 {
        'D'
    } else if d == 14 {
        'E'
    } else {
        'F'
    }
}

fn hex_value_of(c: char) -> (value: Option<u8>)
    ensures
        match value {
            Some(v) => hex_value(c) == Some(v as int) && v < 16,
            None => hex_value(c) is None,
        },
{
    if c == '0' {
        Some(0)
    } else if c == '1' {
        Some(1)
    } else if c == '2' {
        Some(2)
    } else if c == '3' {
        Some(3)
    } else if c == '4' {
        Some(4)
    } else if c == '5' {
        Some(5)
    } else if c == '6' {
        Some(6)
    } else if c == '7' {
        Some(7)
    } else if c == '8' {
        Some(8)
    } else if c == '9' {
        Some(9)
    } else if c == 'A' {
        Some(10)
    } else if c == 'B' {
        Some(11)
    } else if c == 'C' {
        Some(12)
    } else if c == 'D' {
        Some(13)
    } else if c == 'E' {
        Some(14)
    } else if c == 'F' {
        Some(15)
    } else {
        None
    }
}

/// Whether the character needs an escape in a file name.
pub fn is_unsafe(c: char) -> (needs: bool)
    ensures
        needs == needs_escape(c),
{
    let code: u32 = c as u32;
    code < 0x20 || code == 0x7F || c == '/' || c == '\\' || c == ':' || c == '*' || c == '?' || c
        == '"' || c == '<' || c == '>' || c == '|' || c == '%'
}

/// The name as it stands in a file name.
pub fn escape_name(name: &str) -> (text: String)
    ensures
        text@ == escaped(name@),
{
    let chars = chars_of(name);
    let mut text = String::new();
    let mut k: usize = 0;
    proof {
        assert(chars@.skip(0) =~= chars@);
        assert(text@ + escaped(chars@.skip(0)) =~= escaped(chars@));
    }
    while k < chars.len()
        invariant
            k <= chars.len(),
            chars@ == name@,
            text@ + escaped(chars@.skip(k as int)) == escaped(chars@),
        decreases chars.len() - k,
    {
        let c: char = chars[k];
        let ghost before = text@;
        proof {
            assert(chars@.skip(k as int).drop_first() =~= chars@.skip(k + 1));
            assert(chars@.skip(k as int)[0] == c);
        }
        if is_unsafe(c) {
            let code: u32 = c as u32;
            text.push('%');
            text.push(hex_digit_of(code / 16));
            text.push(hex_digit_of(code % 16));
        } else {
            text.push(c);
        }
        proof {
            assert(text@ =~= before + escaped_char(c));
            assert(text@ + escaped(chars@.skip(k + 1)) =~= before + escaped(
                chars@.skip(k as int),
            ));
        }
        k += 1;
    }
    proof {
        assert(chars@.skip(chars@.len() as int) =~= Seq::<char>::empty());
        assert(text@ + Seq::<char>::empty() =~= text@);
    }
    text
}

/// The name that a part of a file name stands for.
pub fn unescape_name(text: &str) -> (name: String)
    ensures
        name@ == unescaped(text@),
{
    let chars = chars_of(text);
    let n: usize = chars.len();
    let mut name = String::new();
    let mut k: usize = 0;
    proof {
        assert(chars@.skip(0) =~= chars@);
        assert(name@ + unescaped(chars@.skip(0)) =~= unescaped(chars@));
    }
    while k < n
        invariant
            k <= n,
            n == chars.len(),
            chars@ == text@,
            name@ + unescaped(chars@.skip(k as int)) == unescaped(chars@),
        decreases n - k,
    {
        let ghost before = name@;
        let ghost rest = chars@.skip(k as int);
        let mut step: usize = 1;
        let mut c: char = chars[k];
        proof {
            assert(rest[0] == chars@[k as int]);
            if n - k >= 3 {
                assert(rest[1] == chars@[k + 1]);
                assert(rest[2] == chars@[k + 2]);
            }
        }
        if c == '%' && n - k >= 3 {
            match (hex_value_of(chars[k + 1]), hex_value_of(chars[k + 2])) {
                (Some(high), Some(low)) => {
                    if high < 8 {
                        c = (high * 16 + low) as char;
                        step = 3;
                    }
                },
                _ => {},
            }
        }
        name.push(c);
        proof {
            if step == 3 {
                assert(begins_with_escape(rest));
                assert(c == escape_at_start(rest));
                assert(rest.skip(3) =~= chars@.skip(k + 3));
            } else {
                assert(!begins_with_escape(rest));
                assert(rest.drop_first() =~= chars@.skip(k + 1));
            }
            assert(name@ + unescaped(chars@.skip(k + step)) =~= before + unescaped(rest));
        }
        k += step;
    }
    proof {
        assert(chars@.skip(n as int) =~= Seq::<char>::empty());
        assert(name@ + Seq::<char>::empty() =~= name@);
    }
    name
}

} // verus!
