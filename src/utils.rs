//! Conversions and `MM:SS` / `MM:SS.CC` text for durations.

use vstd::prelude::*;

verus! {

/// Microseconds in one second.
pub const MICROS_PER_SECOND: u64 = 1_000_000;

/// Microseconds in one hundredth of a second.
pub const MICROS_PER_CENTI: u64 = 10_000;

/// The character of the decimal digit `d` (below ten).
pub open spec fn digit_char(d: nat) -> char {
    if d == 0 {
        '0'
    } else if d == 1 {
        '1'
    } else if d == 2 {
        '2'
    } else if d == 3 {
        '3'
    } else if d == 4 {
        '4'
    } else if d == 5 {
        '5'
    } else if d == 6 {
        '6'
    } else if d == 7 {
        '7'
    } else if d == 8 {
        '8'
    } else {
        '9'
    }
}

pub open spec fn is_digit(c: char) -> bool {
    '0' <= c && c <= '9'
}

/// The value of a digit character.
pub open spec fn digit_value(c: char) -> nat {
    (c as u32 - '0' as u32) as nat
}

/// The number that a string of decimal digits spells.
pub open spec fn digits_value(s: Seq<char>) -> nat
    decreases s.len(),
{
    if s.len() == 0 {
        0
    } else {
        digits_value(s.drop_last()) * 10 + digit_value(s.last())
    }
}

/// `n` in decimal, without leading zeros.
pub open spec fn decimal(n: nat) -> Seq<char>
    decreases n,
{
    if n < 10 {
        seq![digit_char(n)]
    } else {
        decimal(n / 10).push(digit_char(n % 10))
    }
}

/// `n` in decimal, with a leading zero below ten.
pub open spec fn padded2(n: nat) -> Seq<char> {
    if n < 10 {
        seq!['0', digit_char(n)]
    } else {
        decimal(n)
    }
}

/// Whole minutes and the seconds past them, as `MM:SS`.
pub open spec fn minutes_seconds_text(seconds: nat) -> Seq<char> {
    padded2(seconds / 60) + seq![':'] + padded2(seconds % 60)
}

/// `MM:SS.CC` for a duration in hundredths of a second.
pub open spec fn minutes_seconds_centis_text(centis: nat) -> Seq<char> {
    minutes_seconds_text(centis / 100) + seq!['.'] + padded2(centis % 100)
}

proof fn lemma_digit_char(d: nat)
    requires
        d < 10,
    ensures
        is_digit(digit_char(d)),
        digit_value(digit_char(d)) == d,
{
}

proof fn lemma_decimal(n: nat)
    ensures
        decimal(n).len() >= 1,
        n >= 10 ==> decimal(n).len() >= 2,
        forall|i: int| 0 <= i < decimal(n).len() ==> is_digit(#[trigger] decimal(n)[i]),
        digits_value(decimal(n)) == n,
    decreases n,
{
    lemma_digit_char(n % 10);
    if n < 10 {
        assert(seq![digit_char(n)].drop_last() =~= Seq::<char>::empty());
        assert(digits_value(Seq::<char>::empty()) == 0);
    } else {
        lemma_decimal(n / 10);
        assert(decimal(n).drop_last() =~= decimal(n / 10));
        assert(n == (n / 10) * 10 + n % 10);
    }
}

proof fn lemma_padded2(n: nat)
    ensures
        padded2(n).len() >= 2,
        n < 100 ==> padded2(n).len() == 2,
        forall|i: int| 0 <= i < padded2(n).len() ==> is_digit(#[trigger] padded2(n)[i]),
        digits_value(padded2(n)) == n,
{
    lemma_decimal(n);
    if n < 10 {
        lemma_digit_char(n);
        let s = seq!['0', digit_char(n)];
        assert(s.drop_last() =~= seq!['0']);
        assert(seq!['0'].drop_last() =~= Seq::<char>::empty());
        assert(digits_value(Seq::<char>::empty()) == 0);
        assert(digit_value('0') == 0);
        assert(digits_value(seq!['0']) == 0);
    } else if n < 100 {
        lemma_decimal(n / 10);
        assert(decimal(n / 10).len() == 1);
    }
}

/// `MM:SS` text is at least two digits, a colon, and exactly two digits, and
/// the last two spell a number of seconds below sixty: the whole minutes and
/// the seconds past them are what the two parts spell.
pub proof fn lemma_minutes_seconds_shape(seconds: nat)
    ensures
        ({
            let t = minutes_seconds_text(seconds);
            let colon = t.len() - 3;
            &&& t.len() >= 5
            &&& t[colon] == ':'
            &&& forall|i: int| 0 <= i < t.len() && i != colon ==> is_digit(#[trigger] t[i])
            &&& digits_value(t.subrange(0, colon)) == seconds / 60
            &&& digits_value(t.subrange(colon + 1, t.len() as int)) == seconds % 60
            &&& seconds % 60 <= 59
        }),
{
    let m = padded2(seconds / 60);
    let s = padded2(seconds % 60);
    lemma_padded2(seconds / 60);
    lemma_padded2(seconds % 60);
    let t = minutes_seconds_text(seconds);
    assert(t.subrange(0, t.len() - 3) =~= m);
    assert(t.subrange(t.len() - 2, t.len() as int) =~= s);
    assert forall|i: int| 0 <= i < t.len() && i != t.len() - 3 implies is_digit(#[trigger] t[i]) by {
        if i < m.len() {
            assert(t[i] == m[i]);
        } else {
            assert(t[i] == s[i - m.len() - 1]);
        }
    }
}

fn digit_str(d: u64) -> (r: &'static str)
    requires
        d < 10,
    ensures
        r@ == seq![digit_char(d as nat)],
{
    proof {
        reveal_strlit("0");
        reveal_strlit("1");
        reveal_strlit("2");
        reveal_strlit("3");
        reveal_strlit("4");
        reveal_strlit("5");
        reveal_strlit("6");
        reveal_strlit("7");
        reveal_strlit("8");
        reveal_strlit("9");
    }
    if d == 0 {
        "0"
    } else if d == 1 {
        "1"
    } else if d == 2 {
        "2"
    } else if d == 3 {
        "3"
    } else if d == 4 {
        "4"
    } else if d == 5 {
        "5"
    } else if d == 6 {
        "6"
    } else if d == 7 {
        "7"
    } else if d == 8 {
        "8"
    } else {
        "9"
    }
}

fn push_decimal(out: &mut String, n: u64)
    ensures
        final(out)@ == old(out)@ + decimal(n as nat),
    decreases n,
{
    if n >= 10 {
        push_decimal(out, n / 10);
    }
    out.append(digit_str(n % 10));
    assert(final(out)@ =~= old(out)@ + decimal(n as nat));
}

fn push_padded2(out: &mut String, n: u64)
    ensures
        final(out)@ == old(out)@ + padded2(n as nat),
{
    if n < 10 {
        proof {
            reveal_strlit("0");
        }
        out.append("0");
    }
    push_decimal(out, n);
    assert(final(out)@ =~= old(out)@ + padded2(n as nat));
}

/// `MM:SS` for a whole number of seconds: the minutes take at least two
/// digits and may run past 99; the seconds take exactly two.
pub fn format_time(seconds: u64) -> (r: String)
    ensures
        r@ == minutes_seconds_text(seconds as nat),
{
    let mut out = String::new();
    push_padded2(&mut out, seconds / 60);
    proof {
        reveal_strlit(":");
    }
    out.append(":");
    push_padded2(&mut out, seconds % 60);
    assert(out@ =~= minutes_seconds_text(seconds as nat));
    out
}

/// `MM:SS.CC` for a duration in hundredths of a second.
pub fn format_time_precise(centis: u64) -> (r: String)
    ensures
        r@ == minutes_seconds_centis_text(centis as nat),
{
    let mut out = format_time(centis / 100);
    proof {
        reveal_strlit(".");
    }
    out.append(".");
    push_padded2(&mut out, centis % 100);
    assert(out@ =~= minutes_seconds_centis_text(centis as nat));
    out
}

/// Minutes and seconds as a number of seconds.
pub fn to_seconds(minutes: u32, seconds: u32) -> (r: u64)
    ensures
        r == minutes * 60 + seconds,
{
    minutes as u64 * 60 + seconds as u64
}

} // verus!
