use vstd::prelude::*;
use crate::decimal::MAX_READING;

verus! {

/// Whole division of `a` by a positive `b`, rounded down.
fn div_floor(a: i128, b: i128) -> (r: i128)
    requires
        b > 0,
        -1_000_000_000_000_000_000_000_000i128 <= a <= 1_000_000_000_000_000_000_000_000i128,
        b <= 1_000_000_000,
    ensures
        r == a / b,
{
    if a >= 0 {
        ((a as u128) / (b as u128)) as i128
    } else {
        let n = (-a) as u128;
        let bu = b as u128;
        let q = (n + bu - 1) / bu;
        proof {
            lemma_neg_div(a as int, b as int, q as int);
        }
        -(q as i128)
    }
}

proof fn lemma_neg_div(a: int, b: int, q: int)
    requires
        a < 0,
        b > 0,
        q == (-a + b - 1) / b,
    ensures
        -q == a / b,
{
    let n = -a;
    vstd::arithmetic::div_mod::lemma_fundamental_div_mod(n + b - 1, b);
    vstd::arithmetic::div_mod::lemma_fundamental_div_mod(a, b);
    let r1 = (n + b - 1) % b;
    let r2 = a % b;
    assert(n + b - 1 == b * q + r1);
    assert(a == b * (a / b) + r2);
    assert(0 <= r1 < b && 0 <= r2 < b);
    // b * (q + a/b) == b - 1 - r1 - r2, which lies strictly between -b and b.
    assert(b * (q + a / b) == b - 1 - r1 - r2) by (nonlinear_arith)
        requires
            n + b - 1 == b * q + r1,
            a == b * (a / b) + r2,
            n == -a,
    ;
    let t = q + a / b;
    if t > 0 {
        assert(b * t >= b) by (nonlinear_arith)
            requires
                t >= 1,
                b > 0,
        ;
    } else if t < 0 {
        assert(b * t <= -b) by (nonlinear_arith)
            requires
                t <= -1,
                b > 0,
        ;
    }
}

/// Kilometres per hour to metres per second: times 1000/3600, rounded down.
pub open spec fn kph_to_mps_spec(x: int) -> int {
    (x * 5) / 18
}

/// Inches of mercury to millimetres of mercury: times 25.4, rounded down.
pub open spec fn inhg_to_mmhg_spec(x: int) -> int {
    (x * 254) / 10
}

/// Hectopascals to millimetres of mercury: times 0.7500638, rounded down.
pub open spec fn hpa_to_mmhg_spec(x: int) -> int {
    (x * 7_500_638) / 10_000_000
}

pub open spec fn in_range(x: int) -> bool {
    -MAX_READING <= x <= MAX_READING
}

/// Converts a speed reading (in millionths) from km/h to m/s.
pub fn kph_to_mps(x: i64) -> (r: i64)
    requires
        in_range(x as int),
    ensures
        r == kph_to_mps_spec(x as int),
        in_range(r as int),
{
    let r = div_floor(x as i128 * 5, 18);
    proof {
        lemma_scaled_in_range(x as int, 5, 18);
    }
    r as i64
}

/// Converts a pressure reading (in millionths) from inHg to mmHg.
pub fn inhg_to_mmhg(x: i64) -> (r: i64)
    requires
        in_range(x as int),
    ensures
        r == inhg_to_mmhg_spec(x as int),
{
    let r = div_floor(x as i128 * 254, 10);
    assert(-26 * MAX_READING <= r <= 26 * MAX_READING) by (nonlinear_arith)
        requires
            r == (x * 254) / 10,
            -MAX_READING <= x <= MAX_READING,
    ;
    r as i64
}

/// Converts a pressure reading (in millionths) from hPa to mmHg.
pub fn hpa_to_mmhg(x: i64) -> (r: i64)
    requires
        in_range(x as int),
    ensures
        r == hpa_to_mmhg_spec(x as int),
        in_range(r as int),
{
    let r = div_floor(x as i128 * 7_500_638, 10_000_000);
    proof {
        lemma_scaled_in_range(x as int, 7_500_638, 10_000_000);
    }
    r as i64
}

proof fn lemma_scaled_in_range(x: int, m: int, d: int)
    requires
        in_range(x),
        0 < m < d,
    ensures
        in_range((x * m) / d),
{
    if x >= 0 {
        assert(0 <= x * m <= x * d) by (nonlinear_arith)
            requires
                x >= 0,
                0 < m < d,
        ;
        vstd::arithmetic::div_mod::lemma_div_is_ordered(x * m, x * d, d);
        vstd::arithmetic::div_mod::lemma_div_multiples_vanish(x, d);
        assert(x * d == d * x) by (nonlinear_arith);
        vstd::arithmetic::div_mod::lemma_div_pos_is_pos(x * m, d);
    } else {
        assert(x * d <= x * m <= 0) by (nonlinear_arith)
            requires
                x < 0,
                0 < m < d,
        ;
        vstd::arithmetic::div_mod::lemma_div_is_ordered(x * d, x * m, d);
        vstd::arithmetic::div_mod::lemma_div_is_ordered(x * m, 0, d);
        vstd::arithmetic::div_mod::lemma_div_multiples_vanish(x, d);
        assert(x * d == d * x) by (nonlinear_arith);
        assert(0int / d == 0);
    }
}

} // verus!
