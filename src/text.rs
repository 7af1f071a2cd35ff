use vstd::prelude::*;

verus! {

pub open spec fn digit_text(d: int) -> Seq<char> {
    if d == 0 {
        "0"@
    } else if d == 1 {
        "1"@
    } else if d == 2 {
        "2"@
    } else if d == 3 {
        "3"@
    } else if d == 4 {
        "4"@
    } else if d == 5 {
        "5"@
    } else if d == 6 {
        "6"@
    } else if d == 7 {
        "7"@
    } else if d == 8 {
        "8"@
    } else {
        "9"@
    }
}

/// Decimal digits of `n`, without leading zeros.
pub open spec fn nat_text(n: nat) -> Seq<char>
    decreases n,
{
    if n < 10 {
        digit_text(n as int)
    } else {
        nat_text(n / 10) + digit_text((n % 10) as int)
    }
}

/// The last `w` decimal digits of `n`, with leading zeros.
pub open spec fn padded_text(n: nat, w: nat) -> Seq<char>
    decreases w,
{
    if w == 0 {
        Seq::empty()
    } else {
        padded_text(n / 10, (w - 1) as nat) + digit_text((n % 10) as int)
    }
}

/// The last `w` decimal digits of `n`, without the zeros at their end.
pub open spec fn trimmed_text(n: nat, w: nat) -> Seq<char>
    decreases w,
{
    if w > 0 && n % 10 == 0 {
        trimmed_text(n / 10, (w - 1) as nat)
    } else {
        padded_text(n, w)
    }
}

pub open spec fn sign_text(negative: bool) -> Seq<char> {
    if negative {
        "-"@
    } else {
        Seq::empty()
    }
}

pub open spec fn abs(v: int) -> nat {
    if v < 0 {
        (-v) as nat
    } else {
        v as nat
    }
}

/// A reading in millionths written out in full, without zeros after the last
/// significant decimal place: 2_500_000 is `2.5`, 10_000_000 is `10`.
pub open spec fn reading_text(v: int) -> Seq<char> {
    let m = abs(v);
    sign_text(v < 0) + nat_text(m / 1_000_000) + if m % 1_000_000 == 0 {
        Seq::empty()
    } else {
        "."@ + trimmed_text(m % 1_000_000, 6)
    }
}

/// A reading in millionths rounded, halves away from zero, to two decimal places.
pub open spec fn reading_text_2(v: int) -> Seq<char> {
    let q = (abs(v) + 5_000) / 10_000;
    sign_text(v < 0 && q != 0) + nat_text(q / 100) + "."@ + padded_text(q % 100, 2)
}

/// A reading in millionths rounded, halves away from zero, to a whole number.
pub open spec fn reading_text_0(v: int) -> Seq<char> {
    let q = (abs(v) + 500_000) / 1_000_000;
    sign_text(v < 0 && q != 0) + nat_text(q)
}

fn digit_str(d: u64) -> (r: &'static str)
    requires
        d < 10,
    ensures
        r@ == digit_text(d as int),
{
    if d == 0 {
        "0"
    } else if d == 1 {
        "1"
    } else if d == 2 {
        "2"
    } else if d == 3 {
        "3"
    } else if d == 4 {
        "4"
    } else if d == 5 {
        "5"
    } else if d == 6 {
        "6"
    } else if d == 7 {
        "7"
    } else if d == 8 {
        "8"
    } else {
        "9"
    }
}

/// Appends the decimal digits of `n`.
pub fn push_nat(out: &mut String, n: u64)
    ensures
        final(out)@ == old(out)@ + nat_text(n as nat),
    decreases n,
{
    if n >= 10 {
        push_nat(out, n / 10);
    }
    out.append(digit_str(n % 10));
    assert(old(out)@ + nat_text(n as nat) =~= final(out)@) by {
        if n >= 10 {
            assert(old(out)@ + nat_text((n / 10) as nat) + digit_text((n % 10) as int)
                =~= old(out)@ + nat_text(n as nat));
        }
    }
}

/// Appends the last `w` decimal digits of `n`, with leading zeros.
fn push_padded(out: &mut String, n: u64, w: u64)
    ensures
        final(out)@ == old(out)@ + padded_text(n as nat, w as nat),
    decreases w,
{
    if w == 0 {
        assert(old(out)@ + padded_text(n as nat, w as nat) =~= old(out)@);
        return;
    }
    push_padded(out, n / 10, w - 1);
    out.append(digit_str(n % 10));
    assert(old(out)@ + padded_text((n / 10) as nat, (w - 1) as nat) + digit_text((n % 10) as int)
        =~= old(out)@ + padded_text(n as nat, w as nat));
}

/// Appends the last `w` decimal digits of `n`, without the zeros at their end.
fn push_trimmed(out: &mut String, n: u64, w: u64)
    ensures
        final(out)@ == old(out)@ + trimmed_text(n as nat, w as nat),
    decreases w,
{
    if w > 0 && n % 10 == 0 {
        push_trimmed(out, n / 10, w - 1);
    } else {
        push_padded(out, n, w);
    }
}

fn abs_u64(v: i64) -> (r: u64)
    ensures
        r as int == abs(v as int),
{
    if v < 0 {
        (-(v as i128)) as u64
    } else {
        v as u64
    }
}

/// Appends a reading in millionths written out in full.
pub fn push_reading(out: &mut String, v: i64)
    ensures
        final(out)@ == old(out)@ + reading_text(v as int),
{
    let m = abs_u64(v);
    if v < 0 {
        out.append("-");
    }
    push_nat(out, m / 1_000_000);
    if m % 1_000_000 != 0 {
        out.append(".");
        push_trimmed(out, m % 1_000_000, 6);
    }
    assert(final(out)@ =~= old(out)@ + reading_text(v as int));
}

/// Appends a reading in millionths rounded to two decimal places.
pub fn push_reading_2(out: &mut String, v: i64)
    ensures
        final(out)@ == old(out)@ + reading_text_2(v as int),
{
    let m = abs_u64(v);
    let q = (m / 2 + 2_500) / 5_000;
    assert(q == (m + 5_000) / 10_000) by (nonlinear_arith)
        requires
            q == (m / 2 + 2_500) / 5_000,
            m >= 0,
    ;
    if v < 0 && q != 0 {
        out.append("-");
    }
    push_nat(out, q / 100);
    out.append(".");
    push_padded(out, q % 100, 2);
    assert(final(out)@ =~= old(out)@ + reading_text_2(v as int));
}

/// Appends a reading in millionths rounded to a whole number.
pub fn push_reading_0(out: &mut String, v: i64)
    ensures
        final(out)@ == old(out)@ + reading_text_0(v as int),
{
    let m = abs_u64(v);
    let q = m / 1_000_000 + if m % 1_000_000 >= 500_000 { 1 } else { 0 };
    assert(q == (m + 500_000) / 1_000_000) by (nonlinear_arith)
        requires
            q == m / 1_000_000 + if m % 1_000_000 >= 500_000 { 1int } else { 0int },
            m >= 0,
    ;
    if v < 0 && q != 0 {
        out.append("-");
    }
    push_nat(out, q);
    assert(final(out)@ =~= old(out)@ + reading_text_0(v as int));
}

} // verus!
