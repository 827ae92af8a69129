//! Choosing unit prefixes and notations for compact numbers.
//!
//! The arithmetic on the numbers themselves happens where they live; here a
//! number is seen through its order of magnitude, the floor of its logarithm
//! (`i64::MIN` standing for zero and below), which is all the choices depend on.

use vstd::prelude::*;

verus! {

/// Number of prefixes on each side of the unit.
pub const PREFIXES: i64 = 8;

/// Order of magnitude that each binary prefix step spans: 1024 = 2^10.
pub const BINARY_STEP: i64 = 10;

/// Order of magnitude that each SI prefix step spans: 1000 = 10^3.
pub const SI_STEP: i64 = 3;

/// The largest `r` in `lo..=hi` whose scale `base^(step * r)` does not exceed
/// a value of order `order`, or `lo` if none does.
pub open spec fn is_rank(r: int, order: int, step: int, lo: int, hi: int) -> bool {
    &&& lo <= r <= hi
    &&& (r == lo || step * r <= order)
    &&& (r == hi || order < step * (r + 1))
}

/// The binary prefixes, from 2^10 up.
pub open spec fn binary_symbols() -> Seq<Seq<char>> {
    seq!["Ki"@, "Mi"@, "Gi"@, "Ti"@, "Pi"@, "Ei"@, "Zi"@, "Yi"@]
}

/// The SI prefixes above the unit, from 10^3 up.
pub open spec fn si_large_symbols() -> Seq<Seq<char>> {
    seq!["k"@, "M"@, "G"@, "T"@, "P"@, "E"@, "Z"@, "Y"@]
}

/// The SI prefixes below the unit, from 10^-3 down.
pub open spec fn si_small_symbols() -> Seq<Seq<char>> {
    seq!["m"@, "µ"@, "n"@, "p"@, "f"@, "a"@, "z"@, "y"@]
}

/// Searches down from `hi` for the first rank whose scale fits under `order`.
fn rank(order: i64, step: i64, lo: i64, hi: i64) -> (r: i64)
    requires
        0 < step <= 10,
        -8 <= lo <= hi <= 8,
    ensures
        is_rank(r as int, order as int, step as int, lo as int, hi as int),
{
    let mut r: i64 = hi;
    assert(-80 <= step * hi <= 80) by (nonlinear_arith)
        requires
            0 < step <= 10,
            -8 <= hi <= 8,
    ;
    let mut scale: i64 = step * hi;
    while r > lo && scale > order
        invariant
            0 < step <= 10,
            -8 <= lo <= r <= hi <= 8,
            scale == step * r,
            r == hi || order < step * (r + 1),
        decreases r - lo,
    {
        assert(step * (r - 1) == step * r - step) by (nonlinear_arith);
        assert(-80 <= step * r <= 80) by (nonlinear_arith)
            requires
                0 < step <= 10,
                -8 <= r <= 8,
        ;
        r = r - 1;
        scale = scale - step;
    }
    r
}

/// The binary prefix for a value `x` with `order == floor(log2(x))`: the
/// largest of Ki .. Yi whose scale `1024^power` is at most `x`, or none if `x`
/// is under 1024. Returns the power and the prefix; the mantissa is
/// `x / 1024^power`.
pub fn binary_prefix(order: i64) -> (r: (i64, Option<&'static str>))
    ensures
        is_rank(r.0 as int, order as int, BINARY_STEP as int, 0, PREFIXES as int),
        r.0 == 0 <==> r.1 is None,
        r.1 matches Some(s) ==> s@ == binary_symbols()[r.0 - 1],
{
    let power = rank(order, BINARY_STEP, 0, PREFIXES);
    let symbol = match power {
        0 => None,
        1 => Some("Ki"),
        2 => Some("Mi"),
        3 => Some("Gi"),
        4 => Some("Ti"),
        5 => Some("Pi"),
        6 => Some("Ei"),
        7 => Some("Zi"),
        _ => Some("Yi"),
    };
    (power, symbol)
}

/// The SI prefix for a value `x` with `order == floor(log10(|x|))`: the largest
/// of y .. Y whose scale `1000^power` is at most `|x|`, clamped at y, or none
/// if `1 <= |x| < 1000`. Returns the power and the prefix; the mantissa is
/// `x / 1000^power`.
pub fn si_prefix(order: i64) -> (r: (i64, Option<&'static str>))
    ensures
        is_rank(r.0 as int, order as int, SI_STEP as int, -PREFIXES as int, PREFIXES as int),
        r.0 == 0 <==> r.1 is None,
        r.0 > 0 ==> (r.1 matches Some(s) && s@ == si_large_symbols()[r.0 - 1]),
        r.0 < 0 ==> (r.1 matches Some(s) && s@ == si_small_symbols()[-r.0 - 1]),
{
    let power = rank(order, SI_STEP, -PREFIXES, PREFIXES);
    let symbol = match power {
        -8 => Some("y"),
        -7 => Some("z"),
        -6 => Some("a"),
        -5 => Some("f"),
        -4 => Some("p"),
        -3 => Some("n"),
        -2 => Some("µ"),
        -1 => Some("m"),
        0 => None,
        1 => Some("k"),
        2 => Some("M"),
        3 => Some("G"),
        4 => Some("T"),
        5 => Some("P"),
        6 => Some("E"),
        7 => Some("Z"),
        _ => Some("Y"),
    };
    (power, symbol)
}

/// How a number is written with a given count of significant figures.
#[derive(PartialEq, Eq, Structural, Debug, Clone, Copy)]
pub enum Notation {
    /// Positional notation with this many digits after the point.
    Fixed(usize),
    /// Exponential notation with this many digits after the mantissa's point.
    Exponential(usize),
}

/// The notation for `figures` significant figures of a value whose order of
/// magnitude is `order` (`None` for zero). Zero is written positionally with
/// `figures - 1` zeros after the point. Otherwise positional notation is used
/// exactly when the integer part fits within the figures (`0 <= order <
/// figures`), with the remaining figures after the point; exponential
/// notation keeps one digit before the point and `figures - 1` after it. A
/// count of no figures is read as one.
pub open spec fn notation_for(order: Option<i64>, figures: nat) -> Notation {
    let after_one: nat = if figures == 0 { 0 } else { (figures - 1) as nat };
    match order {
        None => Notation::Fixed(after_one as usize),
        Some(log) => if 0 <= log < figures {
            Notation::Fixed((figures - (log + 1)) as usize)
        } else {
            Notation::Exponential(after_one as usize)
        },
    }
}

/// Chooses the notation for `figures` significant figures of a value whose
/// order of magnitude is `order`, `floor(log10(|x|))`, or `None` for zero.
pub fn sigfig_notation(order: Option<i64>, figures: usize) -> (r: Notation)
    ensures
        r == notation_for(order, figures as nat),
{
    let after_one: usize = if figures == 0 {
        0
    } else {
        figures - 1
    };
    match order {
        None => Notation::Fixed(after_one),
        Some(log) => {
            if 0 <= log && (log as i128) < figures as i128 {
                Notation::Fixed(figures - (log as usize + 1))
            } else {
                Notation::Exponential(after_one)
            }
        },
    }
}

} // verus!
