//! Fixed-point decimal formatting.
//!
//! Badge-space coordinates are carried as integer hundredths ("cents") of a
//! badge unit; serialization prints them with exactly two decimal places.
use vstd::prelude::*;
use vstd::string::StringExecFns;

verus! {

/// The decimal digit character for `d` in `0..10`.
pub open spec fn digit_char(d: int) -> char {
    if d == 0 {
        '0'
    } else if d == 1 {
        '1'
    } else if d == 2 {
        '2'
    } else if d == 3 {
        '3'
    } else if d == 4 {
        '4'
    } else if d == 5 {
        '5'
    } else if d == 6 {
        '6'
    } else if d == 7 {
        '7'
    } else if d == 8 {
        '8'
    } else {
        '9'
    }
}

/// Decimal representation of a nonnegative integer, most significant digit
/// first, with no leading zeros (a single `'0'` for zero).
pub open spec fn spec_udec(n: nat) -> Seq<char>
    decreases n,
{
    if n < 10 {
        seq![digit_char(n as int)]
    } else {
        spec_udec(n / 10) + seq![digit_char((n % 10) as int)]
    }
}

/// Two-decimal fixed-point rendering of a coordinate held in hundredths:
/// an optional leading minus, the integer part, `'.'`, and exactly two
/// fractional digits.
pub open spec fn spec_cents(c: int) -> Seq<char> {
    let a = if c < 0 {
        -c
    } else {
        c
    };
    let sign = if c < 0 {
        seq!['-']
    } else {
        Seq::<char>::empty()
    };
    sign + spec_udec((a / 100) as nat) + seq!['.'] + seq![
        digit_char((a % 100) / 10),
        digit_char(a % 10),
    ]
}

/// Appends the single decimal digit `d` to `out`.
fn push_digit(out: &mut String, d: u64)
    requires
        d < 10,
    ensures
        final(out)@ == old(out)@ + seq![digit_char(d as int)],
{
    proof {
        reveal_strlit("0");
        reveal_strlit("1");
        reveal_strlit("2");
        reveal_strlit("3");
        reveal_strlit("4");
        reveal_strlit("5");
        reveal_strlit("6");
        reveal_strlit("7");
        reveal_strlit("8");
        reveal_strlit("9");
    }
    match d {
        0 => out.append("0"),
        1 => out.append("1"),
        2 => out.append("2"),
        3 => out.append("3"),
        4 => out.append("4"),
        5 => out.append("5"),
        6 => out.append("6"),
        7 => out.append("7"),
        8 => out.append("8"),
        _ => out.append("9"),
    }
    assert(final(out)@ =~= old(out)@ + seq![digit_char(d as int)]);
}

/// Appends the decimal representation of `n` to `out`.
pub fn push_udec(out: &mut String, n: u64)
    ensures
        final(out)@ == old(out)@ + spec_udec(n as nat),
    decreases n,
{
    if n >= 10 {
        push_udec(out, n / 10);
        push_digit(out, n % 10);
        assert(final(out)@ =~= old(out)@ + spec_udec(n as nat));
    } else {
        push_digit(out, n);
    }
}

/// Appends the two-decimal fixed-point rendering of the coordinate `c`
/// (in hundredths) to `out`.
pub fn push_cents(out: &mut String, c: i64)
    requires
        c != i64::MIN,
    ensures
        final(out)@ == old(out)@ + spec_cents(c as int),
{
    proof {
        reveal_strlit("-");
        reveal_strlit(".");
    }
    let a: u64 = if c < 0 {
        out.append("-");
        (-c) as u64
    } else {
        c as u64
    };
    push_udec(out, a / 100);
    out.append(".");
    push_digit(out, (a % 100) / 10);
    push_digit(out, a % 10);
    assert(final(out)@ =~= old(out)@ + spec_cents(c as int));
}

} // verus!
