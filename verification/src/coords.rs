//! Geographic coordinates as fixed-point integers.
//!
//! The upstream service takes decimal degrees with at most four decimal
//! places. The library holds coordinates in units of 1e-7 degrees (the
//! precision search results arrive with) and rounds them to units of
//! 1e-4 degrees — standard rounding, halves away from zero — before they
//! appear in a request or a gauge label.

use vstd::prelude::*;
use vstd::string::StringExecFns;

verus! {

/// A coordinate pair in units of 1e-7 degrees.
#[derive(Clone, Copy, Debug, PartialEq, Eq, Structural)]
pub struct Position {
    pub lat_e7: i64,
    pub lon_e7: i64,
}

/// Round a value in 1e-7-degree units to 1e-4-degree units,
/// halves away from zero.
pub open spec fn round_to_e4(x: int) -> int {
    if x >= 0 {
        (x + 500) / 1000
    } else {
        -(((-x) + 500) / 1000)
    }
}

impl Position {
    /// Latitude within +-90 degrees, longitude within +-180 degrees.
    pub open spec fn wf(&self) -> bool {
        -900_000_000 <= self.lat_e7 <= 900_000_000
            && -1_800_000_000 <= self.lon_e7 <= 1_800_000_000
    }

    /// Coordinates rounded to 4 decimal places, in 1e-4-degree units.
    pub fn rounded(&self) -> (r: (i64, i64))
        requires
            self.wf(),
        ensures
            r.0 == round_to_e4(self.lat_e7 as int),
            r.1 == round_to_e4(self.lon_e7 as int),
            -900_000 <= r.0 <= 900_000,
            -1_800_000 <= r.1 <= 1_800_000,
    {
        (round_e7_to_e4(self.lat_e7), round_e7_to_e4(self.lon_e7))
    }
}

fn round_e7_to_e4(x: i64) -> (r: i64)
    requires
        -1_800_000_000 <= x <= 1_800_000_000,
    ensures
        r == round_to_e4(x as int),
        -1_800_000 <= r <= 1_800_000,
{
    if x >= 0 {
        let n: u64 = (x as u64 + 500) / 1000;
        n as i64
    } else {
        let n: u64 = (((-x) as u64) + 500) / 1000;
        -(n as i64)
    }
}

/// The decimal digit `d` as a character.
pub open spec fn digit_char(d: int) -> char {
    if d == 0 { '0' }
    else if d == 1 { '1' }
    else if d == 2 { '2' }
    else if d == 3 { '3' }
    else if d == 4 { '4' }
    else if d == 5 { '5' }
    else if d == 6 { '6' }
    else if d == 7 { '7' }
    else if d == 8 { '8' }
    else { '9' }
}

/// The decimal digits of a nonnegative value, most significant first.
pub open spec fn dec_chars(n: int) -> Seq<char>
    decreases n,
{
    if n < 10 {
        seq![digit_char(n)]
    } else {
        dec_chars(n / 10).push(digit_char(n % 10))
    }
}

/// Fixed four-digit rendering of a value below 10000.
pub open spec fn frac4_chars(n: int) -> Seq<char> {
    seq![
        digit_char(n / 1000 % 10),
        digit_char(n / 100 % 10),
        digit_char(n / 10 % 10),
        digit_char(n % 10),
    ]
}

/// The decimal rendering of a coordinate in 1e-4-degree units:
/// optional sign, integer degrees, and exactly four decimal places.
pub open spec fn coord_e4_chars(v: int) -> Seq<char> {
    let a = if v < 0 { -v } else { v };
    let sign: Seq<char> = if v < 0 { seq!['-'] } else { Seq::empty() };
    sign + dec_chars(a / 10000) + seq!['.'] + frac4_chars(a % 10000)
}

fn push_digit(s: &mut String, d: u64)
    requires
        d < 10,
    ensures
        final(s)@ == old(s)@ + seq![digit_char(d as int)],
{
    if d == 0 {
        proof { reveal_strlit("0"); }
        s.append("0");
    } else if d == 1 {
        proof { reveal_strlit("1"); }
        s.append("1");
    } else if d == 2 {
        proof { reveal_strlit("2"); }
        s.append("2");
    } else if d == 3 {
        proof { reveal_strlit("3"); }
        s.append("3");
    } else if d == 4 {
        proof { reveal_strlit("4"); }
        s.append("4");
    } else if d == 5 {
        proof { reveal_strlit("5"); }
        s.append("5");
    } else if d == 6 {
        proof { reveal_strlit("6"); }
        s.append("6");
    } else if d == 7 {
        proof { reveal_strlit("7"); }
        s.append("7");
    } else if d == 8 {
        proof { reveal_strlit("8"); }
        s.append("8");
    } else {
        proof { reveal_strlit("9"); }
        s.append("9");
    }
    proof {
        assert(final(s)@ =~= old(s)@ + seq![digit_char(d as int)]);
    }
}

fn push_dec(s: &mut String, n: u64)
    ensures
        final(s)@ == old(s)@ + dec_chars(n as int),
    decreases n,
{
    if n >= 10 {
        push_dec(s, n / 10);
        push_digit(s, n % 10);
        proof {
            assert(final(s)@ =~= old(s)@ + dec_chars(n as int));
        }
    } else {
        push_digit(s, n);
    }
}

/// Render a coordinate in 1e-4-degree units as decimal degrees with
/// exactly four decimal places, e.g. `599133` as `"59.9133"`.
pub fn format_coord_e4(v: i64) -> (r: String)
    requires
        -1_800_000 <= v <= 1_800_000,
    ensures
        r@ == coord_e4_chars(v as int),
{
    let mut s = String::new();
    let a: u64;
    if v < 0 {
        proof { reveal_strlit("-"); }
        s.append("-");
        a = (-v) as u64;
    } else {
        a = v as u64;
    }
    push_dec(&mut s, a / 10000);
    proof { reveal_strlit("."); }
    s.append(".");
    let f: u64 = a % 10000;
    push_digit(&mut s, f / 1000 % 10);
    push_digit(&mut s, f / 100 % 10);
    push_digit(&mut s, f / 10 % 10);
    push_digit(&mut s, f % 10);
    proof {
        assert(s@ =~= coord_e4_chars(v as int));
    }
    s
}

} // verus!
