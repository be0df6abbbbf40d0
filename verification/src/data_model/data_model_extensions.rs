//! The canonical unit string of a sample period.
//!
//! A period of `ns` nanoseconds is rendered as `"<value>_<unit>"` where the
//! unit is the largest one of `ns, us, ms, s, min, h, d` whose length in
//! nanoseconds divides `ns` evenly, and the value is the exact quotient.

use super::shared::SamplePeriod;
use vstd::arithmetic::div_mod::lemma_div_denominator;
use vstd::arithmetic::div_mod::lemma_fundamental_div_mod;
use vstd::arithmetic::div_mod::lemma_mod_breakdown;
use vstd::arithmetic::div_mod::lemma_mod_multiples_basic;
use vstd::arithmetic::mul::lemma_mul_strictly_positive;
use vstd::prelude::*;

verus! {

/// The decimal digit character for `d`.
pub open spec fn digit_char(d: int) -> char {
    if d == 0 {
        '0'
    } else if d == 1 {
        '1'
    } else if d == 2 {
        '2'
    } else if d == 3 {
        '3'
    } else if d == 4 {
        '4'
    } else if d == 5 {
        '5'
    } else if d == 6 {
        '6'
    } else if d == 7 {
        '7'
    } else if d == 8 {
        '8'
    } else {
        '9'
    }
}

/// The decimal rendering of `n`, without a sign and without leading zeros
/// (a single `'0'` for zero).
pub open spec fn dec_str(n: nat) -> Seq<char>
    decreases n,
{
    if n < 10 {
        seq![digit_char(n as int)]
    } else {
        dec_str(n / 10) + seq![digit_char((n % 10) as int)]
    }
}

/// The length in nanoseconds of unit `i` on the ladder
/// `ns, us, ms, s, min, h, d` (indices 0 through 6).
pub open spec fn unit_scale(i: int) -> nat {
    if i <= 0 {
        1
    } else if i == 1 {
        1000
    } else if i == 2 {
        1000000
    } else if i == 3 {
        1000000000
    } else if i == 4 {
        60000000000
    } else if i == 5 {
        3600000000000
    } else {
        86400000000000
    }
}

/// The factor between unit `i` and unit `i + 1` on the ladder.
pub open spec fn step_divisor(i: int) -> nat {
    if i <= 2 {
        1000
    } else if i <= 4 {
        60
    } else {
        24
    }
}

/// The suffix of unit `i` on the ladder.
pub open spec fn unit_suffix(i: int) -> Seq<char> {
    if i <= 0 {
        seq!['n', 's']
    } else if i == 1 {
        seq!['u', 's']
    } else if i == 2 {
        seq!['m', 's']
    } else if i == 3 {
        seq!['s']
    } else if i == 4 {
        seq!['m', 'i', 'n']
    } else if i == 5 {
        seq!['h']
    } else {
        seq!['d']
    }
}

/// The largest unit whose scale divides `ns` evenly.
pub open spec fn chosen_unit(ns: nat) -> int {
    if ns % unit_scale(6) == 0 {
        6
    } else if ns % unit_scale(5) == 0 {
        5
    } else if ns % unit_scale(4) == 0 {
        4
    } else if ns % unit_scale(3) == 0 {
        3
    } else if ns % unit_scale(2) == 0 {
        2
    } else if ns % unit_scale(1) == 0 {
        1
    } else {
        0
    }
}

/// The number rendered in front of the unit suffix: `ns` expressed in the
/// chosen unit.
pub open spec fn unit_value(ns: nat) -> nat {
    ns / unit_scale(chosen_unit(ns))
}

/// The canonical unit string of a period of `ns` nanoseconds.
pub open spec fn unit_string(ns: nat) -> Seq<char> {
    dec_str(unit_value(ns)) + seq!['_'] + unit_suffix(chosen_unit(ns))
}

/// A multiple of a divisible number is divisible: if `d` divides `x`, then
/// `d` divides `x * k`.
proof fn lemma_mul_divisible(x: int, k: int, d: int)
    requires
        0 <= x,
        0 <= k,
        0 < d,
        x % d == 0,
    ensures
        (x * k) % d == 0,
{
    lemma_fundamental_div_mod(x, d);
    assert(x * k == (x / d * k) * d) by (nonlinear_arith)
        requires
            x == d * (x / d),
    ;
    lemma_mod_multiples_basic(x / d * k, d);
}

/// Divisibility is transitive: if `d` divides `x` and `e` divides `d`,
/// then `e` divides `x`.
proof fn lemma_divides_trans(x: int, d: int, e: int)
    requires
        0 <= x,
        0 < d,
        0 < e,
        x % d == 0,
        d % e == 0,
    ensures
        x % e == 0,
{
    lemma_fundamental_div_mod(x, d);
    lemma_mul_divisible(d, x / d, e);
    assert(x == d * (x / d));
}

/// Each unit scale is an exact multiple of every smaller one.
proof fn lemma_scale_divides(a: int, b: int)
    requires
        0 <= a <= b <= 6,
    ensures
        unit_scale(b) % unit_scale(a) == 0,
    decreases b - a,
{
    if a == b {
        lemma_mod_multiples_basic(1, unit_scale(a) as int);
    } else {
        lemma_scale_divides(a, b - 1);
        assert(unit_scale(b) == unit_scale(b - 1) * step_divisor(b - 1));
        lemma_mul_divisible(unit_scale(b - 1) as int, step_divisor(b - 1) as int, unit_scale(a) as int);
    }
}

/// Once a scale fails to divide `ns`, every larger scale fails as well.
proof fn lemma_no_higher_unit(ns: nat, i: int)
    requires
        0 <= i < 6,
        ns % unit_scale(i + 1) != 0,
    ensures
        forall|j: int| i < j <= 6 ==> ns % #[trigger] unit_scale(j) != 0,
{
    assert forall|j: int| i < j <= 6 implies ns % #[trigger] unit_scale(j) != 0 by {
        if ns % unit_scale(j) == 0 {
            lemma_scale_divides(i + 1, j);
            lemma_divides_trans(ns as int, unit_scale(j) as int, unit_scale(i + 1) as int);
        }
    }
}

/// Pins the chosen unit: it is `i` exactly when scale `i` divides `ns` and
/// scale `i + 1` (if there is one) does not.
proof fn lemma_chosen_unit_is(ns: nat, i: int)
    requires
        0 <= i <= 6,
        ns % unit_scale(i) == 0,
        i < 6 ==> ns % unit_scale(i + 1) != 0,
    ensures
        chosen_unit(ns) == i,
{
    if i < 6 {
        lemma_no_higher_unit(ns, i);
        assert(ns % unit_scale(6) != 0);
        if i < 5 {
            assert(ns % unit_scale(5) != 0);
        }
        if i < 4 {
            assert(ns % unit_scale(4) != 0);
        }
        if i < 3 {
            assert(ns % unit_scale(3) != 0);
        }
        if i < 2 {
            assert(ns % unit_scale(2) != 0);
        }
        if i < 1 {
            assert(ns % unit_scale(1) != 0);
        }
    }
}

/// Re-reading the encoded pair recovers the period exactly: the rendered
/// value times the chosen unit's length in nanoseconds is `ns` again. The
/// encoding itself is a function of `ns` alone, so it is deterministic.
pub proof fn lemma_unit_string_round_trip(ns: nat)
    requires
        ns > 0,
    ensures
        unit_value(ns) * unit_scale(chosen_unit(ns)) == ns,
{
    let c = chosen_unit(ns);
    let u = unit_scale(c);
    assert(ns % u == 0);
    lemma_fundamental_div_mod(ns as int, u as int);
    assert(ns == u * (ns / u));
    assert(unit_value(ns) == ns / u);
    assert((ns / u) * u == u * (ns / u)) by (nonlinear_arith);
}

/// The chosen unit is the largest whose scale divides the period evenly:
/// its own scale divides `ns`, and every larger scale leaves a remainder.
pub proof fn lemma_unit_string_largest_unit(ns: nat)
    requires
        ns > 0,
    ensures
        ns % unit_scale(chosen_unit(ns)) == 0,
        forall|j: int| chosen_unit(ns) < j <= 6 ==> ns % #[trigger] unit_scale(j) != 0,
{
    assert forall|j: int| chosen_unit(ns) < j <= 6 implies ns % #[trigger] unit_scale(j) != 0 by {
        if ns % unit_scale(j) == 0 {
            assert(chosen_unit(ns) >= j);
        }
    }
}

fn digit_str(d: u64) -> (r: &'static str)
    requires
        d < 10,
    ensures
        r@ == seq![digit_char(d as int)],
{
    let r: &'static str = match d {
        0 => "0",
        1 => "1",
        2 => "2",
        3 => "3",
        4 => "4",
        5 => "5",
        6 => "6",
        7 => "7",
        8 => "8",
        _ => "9",
    };
    proof {
        reveal_strlit("0");
        reveal_strlit("1");
        reveal_strlit("2");
        reveal_strlit("3");
        reveal_strlit("4");
        reveal_strlit("5");
        reveal_strlit("6");
        reveal_strlit("7");
        reveal_strlit("8");
        reveal_strlit("9");
        assert(r@ =~= seq![digit_char(d as int)]);
    }
    r
}

/// Renders `n` in decimal.
pub fn u64_to_decimal(n: u64) -> (r: String)
    ensures
        r@ == dec_str(n as nat),
    decreases n,
{
    if n < 10 {
        digit_str(n).to_owned()
    } else {
        let mut prefix = u64_to_decimal(n / 10);
        prefix.append(digit_str(n % 10));
        proof {
            assert(prefix@ =~= dec_str(n as nat));
        }
        prefix
    }
}

fn step_div(i: usize) -> (q: u64)
    requires
        i < 6,
    ensures
        q as nat == step_divisor(i as int),
{
    match i {
        0 | 1 | 2 => 1000,
        3 | 4 => 60,
        _ => 24,
    }
}

fn suffix_str(i: usize) -> (r: &'static str)
    requires
        i <= 6,
    ensures
        r@ == unit_suffix(i as int),
{
    let r: &'static str = match i {
        0 => "ns",
        1 => "us",
        2 => "ms",
        3 => "s",
        4 => "min",
        5 => "h",
        _ => "d",
    };
    proof {
        reveal_strlit("ns");
        reveal_strlit("us");
        reveal_strlit("ms");
        reveal_strlit("s");
        reveal_strlit("min");
        reveal_strlit("h");
        reveal_strlit("d");
        assert(r@ =~= unit_suffix(i as int));
    }
    r
}

/// Helper methods over the data model types.
pub struct DataModelExtensions;

impl DataModelExtensions {
    /// Renders the period as its canonical `"<value>_<unit>"` string, in the
    /// largest unit that divides it evenly.
    pub fn to_unit_string(sample_period: &SamplePeriod) -> (r: String)
        ensures
            r@ == unit_string(sample_period.nanos() as nat),
    {
        let ns = sample_period.as_nanos();
        let mut current: u64 = ns;
        let mut i: usize = 0;
        while i < 6
            invariant
                i <= 6,
                ns == sample_period.nanos(),
                (ns as nat) % unit_scale(i as int) == 0,
                current as nat == (ns as nat) / unit_scale(i as int),
            decreases 6 - i,
        {
            let q = step_div(i);
            let quotient = current / q;
            let remainder = current % q;
            proof {
                assert(unit_scale(i as int + 1) == unit_scale(i as int) * step_divisor(i as int));
                lemma_mod_breakdown(
                    ns as int,
                    unit_scale(i as int) as int,
                    step_divisor(i as int) as int,
                );
            }
            if remainder != 0 {
                proof {
                    lemma_mul_strictly_positive(unit_scale(i as int) as int, remainder as int);
                    lemma_chosen_unit_is(ns as nat, i as int);
                }
                let mut digits = u64_to_decimal(current);
                digits.append("_");
                digits.append(suffix_str(i));
                proof {
                    reveal_strlit("_");
                    assert(digits@ =~= unit_string(ns as nat));
                }
                return digits;
            }
            proof {
                lemma_div_denominator(
                    ns as int,
                    unit_scale(i as int) as int,
                    step_divisor(i as int) as int,
                );
            }
            current = quotient;
            i += 1;
        }
        proof {
            lemma_chosen_unit_is(ns as nat, 6);
        }
        let mut digits = u64_to_decimal(current);
        digits.append("_");
        digits.append(suffix_str(6));
        proof {
            reveal_strlit("_");
            assert(digits@ =~= unit_string(ns as nat));
        }
        digits
    }
}

} // verus!
