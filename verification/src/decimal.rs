//! Decimal text of integers.

use vstd::prelude::*;

verus! {

/// The decimal digit for `n`, which is below ten.
pub open spec fn digit(n: int) -> char {
    (0x30 + n) as char
}

/// The decimal digits of `n`, most significant first and without a leading zero.
pub open spec fn digits(n: nat) -> Seq<char>
    decreases n,
{
    if n < 10 {
        seq![digit(n as int)]
    } else {
        digits(n / 10).push(digit(n as int % 10))
    }
}

/// The decimal text of `i`: its digits, after a minus sign where it is negative.
pub open spec fn decimal(i: int) -> Seq<char> {
    if i < 0 {
        seq!['-'] + digits((-i) as nat)
    } else {
        digits(i as nat)
    }
}

/// The number that a sequence of decimal digits writes.
pub open spec fn read_digits(t: Seq<char>) -> int
    decreases t.len(),
{
    if t.len() == 0 {
        0
    } else {
        read_digits(t.drop_last()) * 10 + (t.last() as int - 0x30)
    }
}

/// The integer that a decimal text writes.
pub open spec fn read_decimal(t: Seq<char>) -> int {
    if t.len() > 0 && t[0] == '-' {
        -read_digits(t.skip(1))
    } else {
        read_digits(t)
    }
}

/// Digits are never missing, hold nothing but `0` to `9`, start with `0` for zero alone, and
/// read back as the number.
pub proof fn digits_are_canonical(n: nat)
    ensures
        digits(n).len() > 0,
        forall|k: int| 0 <= k < digits(n).len() ==> '0' <= #[trigger] digits(n)[k] && digits(n)[k] <= '9',
        digits(n)[0] == '0' ==> n == 0 && digits(n).len() == 1,
        read_digits(digits(n)) == n,
    decreases n,
{
    reveal_with_fuel(read_digits, 2);
    if n < 10 {
        assert(digits(n).drop_last() =~= Seq::<char>::empty());
    } else {
        digits_are_canonical(n / 10);
        assert(digits(n).drop_last() =~= digits(n / 10));
        assert forall|k: int| 0 <= k < digits(n).len() implies '0' <= #[trigger] digits(n)[k]
            && digits(n)[k] <= '9' by {
            if k < digits(n / 10).len() {
                assert(digits(n)[k] == digits(n / 10)[k]);
            }
        }
        assert(digits(n)[0] == digits(n / 10)[0]);
    }
}

/// Decimal texts are built digit by digit: one digit is that digit alone, a further digit stands
/// behind the text of the tens, and a negative integer has the text of its opposite behind a minus
/// sign.
pub proof fn decimals_are_built_by_digit(i: int)
    ensures
        0 <= i < 10 ==> decimal(i) == seq![(0x30 + i) as char],
        i >= 10 ==> decimal(i) == decimal(i / 10).push((0x30 + i % 10) as char),
        i < 0 ==> decimal(i) == seq!['-'] + decimal(-i),
{
}

/// The decimal text of an integer reads back as that integer.
pub proof fn decimals_read_back(i: int)
    ensures
        read_decimal(decimal(i)) == i,
{
    if i < 0 {
        digits_are_canonical((-i) as nat);
        assert(decimal(i).skip(1) =~= digits((-i) as nat));
    } else {
        digits_are_canonical(i as nat);
    }
}

/// Appends the decimal digits of `n` to `out`.
fn push_digits(out: &mut String, n: u64)
    ensures
        final(out)@ == old(out)@ + digits(n as nat),
    decreases n,
{
    let ghost before = out@;
    if n >= 10 {
        push_digits(out, n / 10);
    }
    out.push((0x30 + (n % 10) as u8) as char);
    assert(out@ =~= before + digits(n as nat));
}

/// Appends the decimal text of `i` to `out`.
pub fn push_decimal(out: &mut String, i: i64)
    ensures
        final(out)@ == old(out)@ + decimal(i as int),
{
    let ghost before = out@;
    if i < 0 {
        out.push('-');
        let magnitude: u64 = (-(i + 1)) as u64 + 1;
        push_digits(out, magnitude);
    } else {
        push_digits(out, i as u64);
    }
    assert(out@ =~= before + decimal(i as int));
}

} // verus!
