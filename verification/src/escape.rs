//! JSON string literals.

use vstd::prelude::*;

verus! {

/// The lower-case hexadecimal digit for `n`, which is below sixteen.
pub open spec fn hex_digit(n: int) -> char {
    if n < 10 {
        (0x30 + n) as char
    } else {
        (0x61 + n - 10) as char
    }
}

/// How one character is written inside a JSON string literal: the quote, the backslash and the
/// control characters below U+0020 are escaped, every other character stands for itself.
pub open spec fn escaped_char(c: char) -> Seq<char> {
    if c == '"' {
        seq!['\\', '"']
    } else if c == '\\' {
        seq!['\\', '\\']
    } else if c == '\n' {
        seq!['\\', 'n']
    } else if c == '\r' {
        seq!['\\', 'r']
    } else if c == '\t' {
        seq!['\\', 't']
    } else if c == '\u{08}' {
        seq!['\\', 'b']
    } else if c == '\u{0c}' {
        seq!['\\', 'f']
    } else if (c as u32) < 0x20 {
        seq!['\\', 'u', '0', '0', hex_digit((c as u32) as int / 16), hex_digit((c as u32) as int % 16)]
    } else {
        seq![c]
    }
}

/// The characters of `s`, each written as `escaped_char` says, in order.
pub open spec fn escaped(s: Seq<char>) -> Seq<char>
    decreases s.len(),
{
    if s.len() == 0 {
        Seq::empty()
    } else {
        escaped(s.drop_last()) + escaped_char(s.last())
    }
}

/// The JSON string literal for `s`.
pub open spec fn json_string(s: Seq<char>) -> Seq<char> {
    seq!['"'] + escaped(s) + seq!['"']
}

/// Whether `escaped_char` writes `c` as anything but itself.
pub open spec fn needs_escape(c: char) -> bool {
    c == '"' || c == '\\' || (c as u32) < 0x20
}

/// The value of a hexadecimal digit in either case.
pub open spec fn hex_value(c: char) -> Option<int> {
    if '0' <= c && c <= '9' {
        Some(c as int - 0x30)
    } else if 'a' <= c && c <= 'f' {
        Some(c as int - 0x61 + 10)
    } else if 'A' <= c && c <= 'F' {
        Some(c as int - 0x41 + 10)
    } else {
        None
    }
}

/// The number that four hexadecimal digits write.
pub open spec fn hex_quad(a: char, b: char, c: char, d: char) -> Option<int> {
    match (hex_value(a), hex_value(b), hex_value(c), hex_value(d)) {
        (Some(a), Some(b), Some(c), Some(d)) => Some(((a * 16 + b) * 16 + c) * 16 + d),
        _ => None,
    }
}

/// The UTF-16 code unit that `t` writes as an escape at its start.
pub open spec fn read_unit(t: Seq<char>) -> Option<int> {
    if t.len() >= 6 && t[0] == '\\' && t[1] == 'u' {
        hex_quad(t[2], t[3], t[4], t[5])
    } else {
        None
    }
}

/// The character that `t` writes at its start by its UTF-16 code units, and how many characters
/// of `t` that takes: one escape, or two for a surrogate pair.
pub open spec fn read_escaped_units(t: Seq<char>) -> Option<(char, int)> {
    match read_unit(t) {
        Some(unit) => if unit < 0xd800 || unit > 0xdfff {
            Some((unit as char, 6))
        } else if unit <= 0xdbff {
            match read_unit(t.skip(6)) {
                Some(low) => if 0xdc00 <= low <= 0xdfff {
                    Some(((0x10000 + (unit - 0xd800) * 0x400 + (low - 0xdc00)) as char, 12))
                } else {
                    None
                },
                None => None,
            }
        } else {
            None
        },
        None => None,
    }
}

/// Reads one character of a JSON string literal's inside: the character and how many characters
/// of `t` it takes. `None` where the JSON grammar has no character there, and on an escaped
/// UTF-16 surrogate that is not part of a pair.
pub open spec fn read_char(t: Seq<char>) -> Option<(char, int)> {
    if t.len() == 0 || t[0] == '"' || (t[0] as u32) < 0x20 {
        None
    } else if t[0] != '\\' {
        Some((t[0], 1))
    } else if t.len() == 1 {
        None
    } else if t[1] == '"' || t[1] == '\\' || t[1] == '/' {
        Some((t[1], 2))
    } else if t[1] == 'n' {
        Some(('\n', 2))
    } else if t[1] == 'r' {
        Some(('\r', 2))
    } else if t[1] == 't' {
        Some(('\t', 2))
    } else if t[1] == 'b' {
        Some(('\u{08}', 2))
    } else if t[1] == 'f' {
        Some(('\u{0c}', 2))
    } else {
        read_escaped_units(t)
    }
}

/// Reads the inside of a JSON string literal up to and with its closing quote: the string, and
/// what of `t` is left.
pub open spec fn read_chars(t: Seq<char>) -> Option<(Seq<char>, Seq<char>)>
    decreases t.len(),
{
    if t.len() > 0 && t[0] == '"' {
        Some((Seq::empty(), t.skip(1)))
    } else {
        match read_char(t) {
            Some((c, width)) => if 0 < width <= t.len() {
                match read_chars(t.skip(width)) {
                    Some((s, rest)) => Some((seq![c] + s, rest)),
                    None => None,
                }
            } else {
                None
            },
            None => None,
        }
    }
}

/// Reads a JSON string literal at the start of `t`: the string that it stands for, and what of
/// `t` is left.
pub open spec fn read_literal(t: Seq<char>) -> Option<(Seq<char>, Seq<char>)> {
    if t.len() > 0 && t[0] == '"' {
        read_chars(t.skip(1))
    } else {
        None
    }
}

/// The string that a JSON string literal stands for, `None` where `t` is no such literal.
pub open spec fn read_json_string(t: Seq<char>) -> Option<Seq<char>> {
    match read_literal(t) {
        Some((s, rest)) => if rest.len() == 0 {
            Some(s)
        } else {
            None
        },
        None => None,
    }
}

/// Escaping works character by character: the escaped form of a concatenation is the
/// concatenation of the escaped forms.
pub proof fn escaped_concat(a: Seq<char>, b: Seq<char>)
    ensures
        escaped(a + b) == escaped(a) + escaped(b),
    decreases b.len(),
{
    if b.len() == 0 {
        assert(a + b =~= a);
        assert(escaped(a) + escaped(b) =~= escaped(a));
    } else {
        assert((a + b).drop_last() =~= a + b.drop_last());
        escaped_concat(a, b.drop_last());
        assert(escaped(a + b) =~= escaped(a) + escaped(b));
    }
}

/// Literals are built character by character: the empty string is two quotes, and one more
/// character stands, before the closing quote, as itself or as its escape. The escape is the short
/// one where there is one, and else four lower-case hexadecimal digits.
pub proof fn literals_are_built_by_character(s: Seq<char>, c: char)
    ensures
        json_string(Seq::empty()) == seq!['"', '"'],
        json_string(s.push(c)) == json_string(s).drop_last() + (if c == '"' {
            seq!['\\', '"']
        } else if c == '\\' {
            seq!['\\', '\\']
        } else if c as int >= 0x20 {
            seq![c]
        } else if c as int == 0x08 {
            seq!['\\', 'b']
        } else if c as int == 0x09 {
            seq!['\\', 't']
        } else if c as int == 0x0a {
            seq!['\\', 'n']
        } else if c as int == 0x0c {
            seq!['\\', 'f']
        } else if c as int == 0x0d {
            seq!['\\', 'r']
        } else {
            let high = if c as int >= 0x10 {
                '1'
            } else {
                '0'
            };
            let low = if c as int % 16 < 10 {
                (0x30 + c as int % 16) as char
            } else {
                (0x57 + c as int % 16) as char
            };
            seq!['\\', 'u', '0', '0', high, low]
        }) + seq!['"'],
{
    assert(json_string(Seq::empty()) =~= seq!['"', '"']);
    assert(s.push(c).drop_last() =~= s);
    assert(json_string(s).drop_last() =~= seq!['"'] + escaped(s));
    assert(json_string(s.push(c)) =~= seq!['"'] + escaped(s) + escaped_char(c) + seq!['"']);
}

/// A string without a quote, a backslash or a control character is written verbatim between the
/// quotes.
pub proof fn plain_strings_are_verbatim(s: Seq<char>)
    requires
        forall|i: int| 0 <= i < s.len() ==> !needs_escape(#[trigger] s[i]),
    ensures
        json_string(s) == seq!['"'] + s + seq!['"'],
{
    plain_escaped(s);
}

proof fn plain_escaped(s: Seq<char>)
    requires
        forall|i: int| 0 <= i < s.len() ==> !needs_escape(#[trigger] s[i]),
    ensures
        escaped(s) == s,
    decreases s.len(),
{
    if s.len() > 0 {
        assert forall|i: int| 0 <= i < s.drop_last().len() implies !needs_escape(
            #[trigger] s.drop_last()[i],
        ) by {
            assert(s.drop_last()[i] == s[i]);
        }
        plain_escaped(s.drop_last());
        assert(!needs_escape(s[s.len() - 1]));
    }
    assert(escaped(s) =~= s);
}

/// A JSON string literal holds no control character.
pub proof fn literals_hold_no_control_characters(s: Seq<char>)
    ensures
        forall|i: int| 0 <= i < json_string(s).len() ==> (#[trigger] json_string(s)[i]) as u32 >= 0x20,
{
    escaped_holds_no_control_characters(s);
}

proof fn escaped_holds_no_control_characters(s: Seq<char>)
    ensures
        forall|i: int| 0 <= i < escaped(s).len() ==> (#[trigger] escaped(s)[i]) as u32 >= 0x20,
    decreases s.len(),
{
    if s.len() > 0 {
        let init = escaped(s.drop_last());
        let tail = escaped_char(s.last());
        escaped_holds_no_control_characters(s.drop_last());
        assert(forall|k: int| 0 <= k < tail.len() ==> (#[trigger] tail[k]) as u32 >= 0x20);
        assert forall|i: int| 0 <= i < escaped(s).len() implies (#[trigger] escaped(s)[i]) as u32
            >= 0x20 by {
            if i < init.len() {
                assert(escaped(s)[i] == init[i]);
            } else {
                assert(escaped(s)[i] == tail[i - init.len()]);
            }
        }
    }
}

/// The literal reads back as the string that it was written for.
pub proof fn literals_read_back(s: Seq<char>)
    ensures
        read_json_string(json_string(s)) == Some(s),
{
    literal_is_read(s, Seq::empty());
    assert(json_string(s) + Seq::empty() =~= json_string(s));
}

/// A literal is read to its end, whatever follows it.
pub proof fn literal_is_read(s: Seq<char>, rest: Seq<char>)
    ensures
        read_literal(json_string(s) + rest) == Some((s, rest)),
{
    assert((json_string(s) + rest).skip(1) =~= escaped(s) + (seq!['"'] + rest));
    escaped_is_read(s, rest);
}

/// Two strings with the same literal are the same string.
pub proof fn literals_are_distinct(a: Seq<char>, b: Seq<char>)
    requires
        json_string(a) == json_string(b),
    ensures
        a == b,
{
    literals_read_back(a);
    literals_read_back(b);
}

proof fn escaped_is_read(s: Seq<char>, rest: Seq<char>)
    ensures
        read_chars(escaped(s) + (seq!['"'] + rest)) == Some((s, rest)),
    decreases s.len(),
{
    let end = seq!['"'] + rest;
    if s.len() == 0 {
        assert(escaped(s) + end =~= end);
        assert(end.skip(1) =~= rest);
        assert(s =~= Seq::empty());
    } else {
        let c = s[0];
        let tail = s.skip(1);
        assert(seq![c] + tail =~= s);
        escaped_concat(seq![c], tail);
        assert(escaped(seq![c]) =~= escaped_char(c)) by {
            reveal_with_fuel(escaped, 2);
            assert(seq![c].drop_last() =~= Seq::<char>::empty());
        }
        escaped_is_read(tail, rest);
        let t = escaped(s) + end;
        assert(t =~= escaped_char(c) + (escaped(tail) + end));
        escaped_char_reads_back(c, escaped(tail) + end);
        assert(t[0] == escaped_char(c)[0]);
        assert(t.skip(escaped_char(c).len() as int) =~= escaped(tail) + end);
    }
}

proof fn escaped_char_reads_back(c: char, rest: Seq<char>)
    ensures
        escaped_char(c).len() > 0,
        escaped_char(c)[0] != '"',
        read_char(escaped_char(c) + rest) == Some((c, escaped_char(c).len() as int)),
{
    let t = escaped_char(c) + rest;
    if needs_escape(c) && escaped_char(c).len() == 6 {
        let high = c as int / 16;
        let low = c as int % 16;
        assert(hex_value(hex_digit(high)) == Some(high));
        assert(hex_value(hex_digit(low)) == Some(low));
        assert(hex_quad(t[2], t[3], t[4], t[5]) == Some(high * 16 + low));
        assert(high * 16 + low == c as int);
    }
}

/// The lower-case hexadecimal digit for `n`.
fn hex_digit_char(n: u8) -> (c: char)
    requires
        n < 16,
    ensures
        c == hex_digit(n as int),
{
    if n < 10 {
        (0x30 + n) as char
    } else {
        (0x61 + (n - 10)) as char
    }
}

/// Appends the escaped form of `c` to `out`.
fn push_escaped(out: &mut String, c: char)
    ensures
        final(out)@ == old(out)@ + escaped_char(c),
{
    let ghost before = out@;
    if c == '"' {
        out.push('\\');
        out.push('"');
    } else if c == '\\' {
        out.push('\\');
        out.push('\\');
    } else if c == '\n' {
        out.push('\\');
        out.push('n');
    } else if c == '\r' {
        out.push('\\');
        out.push('r');
    } else if c == '\t' {
        out.push('\\');
        out.push('t');
    } else if c == '\u{08}' {
        out.push('\\');
        out.push('b');
    } else if c == '\u{0c}' {
        out.push('\\');
        out.push('f');
    } else if (c as u32) < 0x20 {
        let code: u8 = (c as u32) as u8;
        out.push_str("\\u00");
        out.push(hex_digit_char(code / 16));
        out.push(hex_digit_char(code % 16));
        proof {
            reveal_strlit("\\u00");
        }
    } else {
        out.push(c);
    }
    assert(out@ =~= before + escaped_char(c));
}

/// Appends `s` to `out` as a JSON string literal: quoted, with the quote, the backslash and the
/// control characters below U+0020 escaped and every other character written verbatim.
pub fn push_json_string(out: &mut String, s: &str)
    ensures
        final(out)@ == old(out)@ + json_string(s@),
{
    let ghost before = out@;
    out.push('"');
    let ghost opened = out@;
    for c in chars: s.chars()
        invariant
            chars.seq() == s@,
            out@ == opened + escaped(s@.take(chars.index() as int)),
    {
        let ghost at = chars.index() as int;
        push_escaped(out, c);
        assert(s@.take(at + 1).drop_last() =~= s@.take(at));
        assert(s@.take(at + 1).last() == c);
        assert(out@ =~= opened + escaped(s@.take(at + 1)));
    }
    assert(s@.take(s@.len() as int) =~= s@);
    out.push('"');
    assert(out@ =~= before + json_string(s@));
}

} // verus!
