//! JSON text and the values that it stands for.

use vstd::prelude::*;

use crate::decimal::{decimal, digits, digits_are_canonical, read_digits};
use crate::escape::{json_string, literal_is_read, read_literal};

verus! {

/// A JSON value. `Number(n, k)` is the number `n` times ten to the power of `k`. The members of
/// an object stand in the order of the text.
pub ghost enum Json {
    Null,
    Bool(bool),
    Number(int, int),
    Text(Seq<char>),
    Array(Seq<Json>),
    Object(Seq<(Seq<char>, Json)>),
}

/// Whether the JSON grammar allows `c` between its tokens.
pub open spec fn is_blank(c: char) -> bool {
    c == ' ' || c == '\t' || c == '\n' || c == '\r'
}

/// What is left of `t` after the blanks at its start.
pub open spec fn skip_blanks(t: Seq<char>) -> Seq<char>
    decreases t.len(),
{
    if t.len() > 0 && is_blank(t[0]) {
        skip_blanks(t.skip(1))
    } else {
        t
    }
}

/// Skipping blanks leaves no more than there was.
pub proof fn skip_blanks_lengthens_nothing(t: Seq<char>)
    ensures
        skip_blanks(t).len() <= t.len(),
    decreases t.len(),
{
    if t.len() > 0 && is_blank(t[0]) {
        skip_blanks_lengthens_nothing(t.skip(1));
    }
}

/// How many decimal digits `t` starts with.
pub open spec fn digit_run(t: Seq<char>) -> nat
    decreases t.len(),
{
    if t.len() > 0 && '0' <= t[0] && t[0] <= '9' {
        1 + digit_run(t.skip(1))
    } else {
        0
    }
}

/// Reads the digits of a number's whole part: at least one, and no leading zero.
pub open spec fn read_whole(t: Seq<char>) -> Option<(Seq<char>, Seq<char>)> {
    let n = digit_run(t) as int;
    if n == 0 || (t[0] == '0' && n > 1) {
        None
    } else {
        Some((t.take(n), t.skip(n)))
    }
}

/// Reads the digits of a number's fraction, which may be missing.
pub open spec fn read_fraction(t: Seq<char>) -> Option<(Seq<char>, Seq<char>)> {
    if t.len() == 0 || t[0] != '.' {
        Some((Seq::empty(), t))
    } else {
        let n = digit_run(t.skip(1)) as int;
        if n == 0 {
            None
        } else {
            Some((t.subrange(1, 1 + n), t.skip(1 + n)))
        }
    }
}

/// Reads a number's exponent, which may be missing.
pub open spec fn read_exponent(t: Seq<char>) -> Option<(int, Seq<char>)> {
    if t.len() == 0 || (t[0] != 'e' && t[0] != 'E') {
        Some((0, t))
    } else {
        let signed = t.len() > 1 && (t[1] == '+' || t[1] == '-');
        let u = t.skip(if signed { 2 } else { 1 });
        let n = digit_run(u) as int;
        if n == 0 {
            None
        } else {
            let power = read_digits(u.take(n));
            Some((if signed && t[1] == '-' { -power } else { power }, u.skip(n)))
        }
    }
}

/// Reads a number at the start of `t`: the number, and what of `t` is left.
pub open spec fn read_number(t: Seq<char>) -> Option<(Json, Seq<char>)> {
    let negative = t.len() > 0 && t[0] == '-';
    match read_whole(if negative { t.skip(1) } else { t }) {
        Some((whole, t)) => match read_fraction(t) {
            Some((fraction, t)) => match read_exponent(t) {
                Some((power, t)) => {
                    let magnitude = read_digits(whole + fraction);
                    Some(
                        (
                            Json::Number(
                                if negative { -magnitude } else { magnitude },
                                power - fraction.len(),
                            ),
                            t,
                        ),
                    )
                },
                None => None,
            },
            None => None,
        },
        None => None,
    }
}

/// Whether `t` starts with `word`.
pub open spec fn starts_with(t: Seq<char>, word: Seq<char>) -> bool {
    t.len() >= word.len() && t.take(word.len() as int) == word
}

/// Reads a value at the start of `t`: the value, and what of `t` is left.
pub open spec fn read_value(t: Seq<char>) -> Option<(Json, Seq<char>)>
    decreases t.len(), 0nat,
{
    if t.len() == 0 {
        None
    } else if t[0] == '"' {
        match read_literal(t) {
            Some((s, rest)) => Some((Json::Text(s), rest)),
            None => None,
        }
    } else if t[0] == '[' {
        let inside = skip_blanks(t.skip(1));
        if inside.len() > 0 && inside[0] == ']' {
            Some((Json::Array(Seq::empty()), inside.skip(1)))
        } else {
            match read_items(t.skip(1)) {
                Some((items, rest)) => Some((Json::Array(items), rest)),
                None => None,
            }
        }
    } else if t[0] == '{' {
        let inside = skip_blanks(t.skip(1));
        if inside.len() > 0 && inside[0] == '}' {
            Some((Json::Object(Seq::empty()), inside.skip(1)))
        } else {
            match read_members(t.skip(1)) {
                Some((members, rest)) => Some((Json::Object(members), rest)),
                None => None,
            }
        }
    } else if starts_with(t, "null"@) {
        Some((Json::Null, t.skip("null"@.len() as int)))
    } else if starts_with(t, "true"@) {
        Some((Json::Bool(true), t.skip("true"@.len() as int)))
    } else if starts_with(t, "false"@) {
        Some((Json::Bool(false), t.skip("false"@.len() as int)))
    } else {
        read_number(t)
    }
}

/// Reads one or more values with commas between them, up to and with a closing bracket.
pub open spec fn read_items(t: Seq<char>) -> Option<(Seq<Json>, Seq<char>)>
    decreases t.len(), 1nat,
{
    proof {
        skip_blanks_lengthens_nothing(t);
    }
    match read_value(skip_blanks(t)) {
        Some((item, rest)) => {
            let rest = skip_blanks(rest);
            if rest.len() == 0 || rest.len() > t.len() {
                None
            } else if rest[0] == ']' {
                Some((seq![item], rest.skip(1)))
            } else if rest[0] == ',' {
                match read_items(rest.skip(1)) {
                    Some((items, end)) => Some((seq![item] + items, end)),
                    None => None,
                }
            } else {
                None
            }
        },
        None => None,
    }
}

/// Reads one or more names, each with a colon and a value after it, with commas between them, up
/// to and with a closing brace.
pub open spec fn read_members(t: Seq<char>) -> Option<(Seq<(Seq<char>, Json)>, Seq<char>)>
    decreases t.len(), 1nat,
{
    match read_literal(skip_blanks(t)) {
        Some((name, rest)) => {
            let rest = skip_blanks(rest);
            if rest.len() == 0 || rest.len() > t.len() || rest[0] != ':' {
                None
            } else {
                proof {
                    skip_blanks_lengthens_nothing(rest.skip(1));
                }
                match read_value(skip_blanks(rest.skip(1))) {
                    Some((value, rest)) => {
                        let rest = skip_blanks(rest);
                        if rest.len() == 0 || rest.len() > t.len() {
                            None
                        } else if rest[0] == '}' {
                            Some((seq![(name, value)], rest.skip(1)))
                        } else if rest[0] == ',' {
                            match read_members(rest.skip(1)) {
                                Some((members, end)) => Some((seq![(name, value)] + members, end)),
                                None => None,
                            }
                        } else {
                            None
                        }
                    },
                    None => None,
                }
            }
        },
        None => None,
    }
}

/// The value that a JSON text stands for, `None` where `t` is no JSON text.
pub open spec fn read_json(t: Seq<char>) -> Option<Json> {
    match read_value(skip_blanks(t)) {
        Some((value, rest)) => if skip_blanks(rest).len() == 0 {
            Some(value)
        } else {
            None
        },
        None => None,
    }
}

/// `true` and `false` are JSON text for the two booleans.
pub proof fn booleans_are_json(b: bool)
    ensures
        read_json(if b { "true"@ } else { "false"@ }) == Some(Json::Bool(b)),
{
    reveal_strlit("null");
    reveal_strlit("true");
    reveal_strlit("false");
    let t = if b { "true"@ } else { "false"@ };
    assert(t.take(t.len() as int) =~= t);
    assert(t.take(4)[0] == t[0]);
}

/// A string literal is JSON text for its string.
pub proof fn literals_are_json(s: Seq<char>)
    ensures
        read_json(json_string(s)) == Some(Json::Text(s)),
{
    literal_is_read(s, Seq::empty());
    assert(json_string(s) + Seq::empty() =~= json_string(s));
}

/// The decimal text of an integer is JSON text for it.
pub proof fn decimals_are_json(i: int)
    ensures
        read_json(decimal(i)) == Some(Json::Number(i, 0)),
{
    let t = decimal(i);
    let run = digits(if i < 0 { -i } else { i } as nat);
    digits_are_canonical(if i < 0 { -i } else { i } as nat);
    if i < 0 {
        assert(t.skip(1) =~= run);
    }
    run_is_all_digits(run);
    assert(run.take(run.len() as int) =~= run);
    assert(run.skip(run.len() as int) =~= Seq::<char>::empty());
    assert(run + Seq::<char>::empty() =~= run);
    reveal_strlit("null");
    reveal_strlit("true");
    reveal_strlit("false");
    assert(t[0] == '-' || ('0' <= t[0] && t[0] <= '9'));
    if t.len() >= 4 {
        assert(t.take(4)[0] == t[0]);
    }
    if t.len() >= 5 {
        assert(t.take(5)[0] == t[0]);
    }
}

proof fn run_is_all_digits(t: Seq<char>)
    requires
        forall|k: int| 0 <= k < t.len() ==> '0' <= #[trigger] t[k] && t[k] <= '9',
    ensures
        digit_run(t) == t.len(),
    decreases t.len(),
{
    if t.len() > 0 {
        assert('0' <= t[0] && t[0] <= '9');
        assert forall|k: int| 0 <= k < t.skip(1).len() implies '0' <= #[trigger] t.skip(1)[k]
            && t.skip(1)[k] <= '9' by {
            assert(t.skip(1)[k] == t[k + 1]);
        }
        run_is_all_digits(t.skip(1));
    }
}

} // verus!
