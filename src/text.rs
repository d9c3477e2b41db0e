//! Decimal rendering of coordinates held in micro-degrees.
use vstd::prelude::*;

verus! {

/// Micro-degrees in one degree.
pub const MICROS_PER_DEGREE: u64 = 1_000_000;

/// Number of decimal places a coordinate carries.
pub const FRACTION_WIDTH: u64 = 6;

/// The ASCII digit for `d`, for `d < 10`.
pub open spec fn digit(d: nat) -> char {
    if d == 0 { '0' }
    else if d == 1 { '1' }
    else if d == 2 { '2' }
    else if d == 3 { '3' }
    else if d == 4 { '4' }
    else if d == 5 { '5' }
    else if d == 6 { '6' }
    else if d == 7 { '7' }
    else if d == 8 { '8' }
    else { '9' }
}

/// Decimal digits of `n`, most significant first, without leading zeros.
pub open spec fn digits(n: nat) -> Seq<char>
    decreases n,
{
    if n < 10 {
        seq![digit(n)]
    } else {
        digits(n / 10).push(digit(n % 10))
    }
}

/// The last `w` decimal digits of `f`, padded with leading zeros.
pub open spec fn padded(f: nat, w: nat) -> Seq<char>
    decreases w,
{
    if w == 0 {
        Seq::empty()
    } else {
        padded(f / 10, (w - 1) as nat).push(digit(f % 10))
    }
}

/// `(f, w)` with trailing zero digits removed from a nonzero `f` of width `w`.
pub open spec fn trim_zeros(f: nat, w: nat) -> (nat, nat)
    decreases w,
{
    if w > 0 && f > 0 && f % 10 == 0 {
        trim_zeros(f / 10, (w - 1) as nat)
    } else {
        (f, w)
    }
}

/// The fractional part of a coordinate: empty for a whole number of
/// degrees, else a point and the six places without trailing zeros.
pub open spec fn fraction_text(f: nat) -> Seq<char> {
    if f == 0 {
        Seq::empty()
    } else {
        seq!['.'] + padded(trim_zeros(f, FRACTION_WIDTH as nat).0, trim_zeros(f, FRACTION_WIDTH as nat).1)
    }
}

pub open spec fn magnitude(v: int) -> nat {
    if v < 0 { (-v) as nat } else { v as nat }
}

/// A coordinate given in micro-degrees, written in degrees as a decimal
/// number: `48853410` is `48.85341`, `-106650000` is `-106.65`.
pub open spec fn coordinate_text(v: int) -> Seq<char> {
    (if v < 0 { seq!['-'] } else { Seq::empty() })
        + digits(magnitude(v) / MICROS_PER_DEGREE as nat)
        + fraction_text(magnitude(v) % MICROS_PER_DEGREE as nat)
}

/// Relies on std's `String::push`: the character is appended at the end.
#[verifier::external_body]
pub(crate) fn push_char(s: &mut String, c: char)
    ensures
        final(s)@ == old(s)@.push(c),
{
    s.push(c)
}

fn digit_char(d: u64) -> (c: char)
    requires
        d < 10,
    ensures
        c == digit(d as nat),
{
    if d == 0 { '0' }
    else if d == 1 { '1' }
    else if d == 2 { '2' }
    else if d == 3 { '3' }
    else if d == 4 { '4' }
    else if d == 5 { '5' }
    else if d == 6 { '6' }
    else if d == 7 { '7' }
    else if d == 8 { '8' }
    else { '9' }
}

fn push_digits(s: &mut String, n: u64)
    ensures
        final(s)@ == old(s)@ + digits(n as nat),
    decreases n,
{
    if n >= 10 {
        push_digits(s, n / 10);
    }
    push_char(s, digit_char(n % 10));
    proof {
        if n >= 10 {
            assert(final(s)@ =~= old(s)@ + digits(n as nat));
        } else {
            assert(final(s)@ =~= old(s)@ + digits(n as nat));
        }
    }
}

fn push_padded(s: &mut String, f: u64, w: u64)
    ensures
        final(s)@ == old(s)@ + padded(f as nat, w as nat),
    decreases w,
{
    if w > 0 {
        push_padded(s, f / 10, w - 1);
        push_char(s, digit_char(f % 10));
        assert(final(s)@ =~= old(s)@ + padded(f as nat, w as nat));
    } else {
        assert(final(s)@ =~= old(s)@ + padded(f as nat, w as nat));
    }
}

/// Appends the decimal text of a coordinate given in micro-degrees.
pub fn push_coordinate(s: &mut String, v: i64)
    ensures
        final(s)@ == old(s)@ + coordinate_text(v as int),
{
    let ghost start = s@;
    if v < 0 {
        push_char(s, '-');
    }
    let wide: i128 = v as i128;
    let m: u64 = if wide < 0 { (-wide) as u64 } else { wide as u64 };
    assert(m as nat == magnitude(v as int));
    push_digits(s, m / MICROS_PER_DEGREE);
    let frac: u64 = m % MICROS_PER_DEGREE;
    let ghost before_fraction = s@;
    if frac != 0 {
        push_char(s, '.');
        let mut f: u64 = frac;
        let mut w: u64 = FRACTION_WIDTH;
        while w > 0 && f > 0 && f % 10 == 0
            invariant
                trim_zeros(f as nat, w as nat) == trim_zeros(frac as nat, FRACTION_WIDTH as nat),
            decreases w,
        {
            f = f / 10;
            w = w - 1;
        }
        push_padded(s, f, w);
    }
    assert(s@ =~= before_fraction + fraction_text(frac as nat));
    assert(s@ =~= start + coordinate_text(v as int));
}

/// The decimal text of a coordinate given in micro-degrees.
pub fn coordinate_string(v: i64) -> (r: String)
    ensures
        r@ == coordinate_text(v as int),
{
    let mut s = String::new();
    push_coordinate(&mut s, v);
    assert(s@ =~= coordinate_text(v as int));
    s
}

} // verus!
