use vstd::prelude::*;

verus! {

/// Largest magnitude of a reading, in millionths of its unit.
pub const MAX_READING: i64 = 100_000_000_000_000_000;

/// Past this value the whole part of a reading is certainly out of range.
const WHOLE_CAP: u64 = 100_000_000_001;

pub open spec fn is_digit(c: char) -> bool {
    '0' <= c && c <= '9'
}

pub open spec fn digit_of(c: char) -> int {
    c as int - '0' as int
}

pub open spec fn all_digits(s: Seq<char>) -> bool {
    forall|i: int| 0 <= i < s.len() ==> is_digit(#[trigger] s[i])
}

/// The number written by a string of decimal digits.
pub open spec fn digits_value(s: Seq<char>) -> int
    decreases s.len(),
{
    if s.len() == 0 {
        0
    } else {
        digits_value(s.drop_last()) * 10 + digit_of(s.last())
    }
}

/// The first six digits of a fraction, with zeros appended where it is shorter.
pub open spec fn padded_fraction(f: Seq<char>) -> Seq<char> {
    Seq::new(6, |i: int| if i < f.len() { f[i] } else { '0' })
}

/// Index of the first '.' in `s`, or its length when there is none.
pub open spec fn dot_index(s: Seq<char>) -> int
    decreases s.len(),
{
    if s.len() == 0 {
        0
    } else if s[0] == '.' {
        0
    } else {
        1 + dot_index(s.drop_first())
    }
}

pub open spec fn is_negative(s: Seq<char>) -> bool {
    s.len() > 0 && s[0] == '-'
}

pub open spec fn unsigned_part(s: Seq<char>) -> Seq<char> {
    if is_negative(s) { s.drop_first() } else { s }
}

pub open spec fn whole_part(s: Seq<char>) -> Seq<char> {
    unsigned_part(s).take(dot_index(unsigned_part(s)))
}

pub open spec fn has_fraction(s: Seq<char>) -> bool {
    dot_index(unsigned_part(s)) < unsigned_part(s).len()
}

pub open spec fn fraction_part(s: Seq<char>) -> Seq<char> {
    if has_fraction(s) {
        unsigned_part(s).skip(dot_index(unsigned_part(s)) + 1)
    } else {
        Seq::empty()
    }
}

/// The text is an optional '-', one or more digits, and optionally a '.'
/// followed by one or more digits.
pub open spec fn is_decimal(s: Seq<char>) -> bool {
    &&& whole_part(s).len() > 0
    &&& all_digits(whole_part(s))
    &&& has_fraction(s) ==> fraction_part(s).len() > 0 && all_digits(fraction_part(s))
}

/// Size of a decimal in millionths; digits past the sixth decimal place are dropped.
pub open spec fn magnitude(s: Seq<char>) -> int {
    digits_value(whole_part(s)) * 1_000_000 + digits_value(padded_fraction(fraction_part(s)))
}

/// The reading written by `s`, in millionths of its unit, when `s` is a decimal
/// whose size is at most `MAX_READING`.
pub open spec fn reading_of(s: Seq<char>) -> Option<int> {
    if is_decimal(s) && magnitude(s) <= MAX_READING {
        if is_negative(s) {
            Some(-magnitude(s))
        } else {
            Some(magnitude(s))
        }
    } else {
        None
    }
}

proof fn lemma_digits_value_nonneg(s: Seq<char>)
    requires
        all_digits(s),
    ensures
        digits_value(s) >= 0,
    decreases s.len(),
{
    if s.len() > 0 {
        assert(is_digit(s[s.len() - 1]));
        assert forall|i: int| 0 <= i < s.drop_last().len() implies is_digit(
            #[trigger] s.drop_last()[i],
        ) by {
            assert(s.drop_last()[i] == s[i]);
        }
        lemma_digits_value_nonneg(s.drop_last());
    }
}

/// Index of the first '.' at or after `from`, or the length when there is none.
fn find_dot(s: &str, from: usize, len: usize) -> (r: usize)
    requires
        len == s@.len(),
        from <= len,
    ensures
        from <= r <= len,
        r - from == dot_index(s@.skip(from as int)),
{
    let mut i = from;
    while i < len
        invariant
            from <= i <= len,
            len == s@.len(),
            dot_index(s@.skip(from as int)) == (i - from) + dot_index(s@.skip(i as int)),
        decreases len - i,
    {
        assert(s@.skip(i as int)[0] == s@[i as int]);
        if s.get_char(i) == '.' {
            return i;
        }
        assert(s@.skip(i as int).drop_first() =~= s@.skip(i + 1));
        i = i + 1;
    }
    proof {
        lemma_dot_index_empty(s@.skip(len as int));
    }
    len
}

pub open spec fn pow10(n: nat) -> int
    decreases n,
{
    if n == 0 {
        1
    } else {
        10 * pow10((n - 1) as nat)
    }
}

proof fn lemma_dot_index_empty(s: Seq<char>)
    requires
        s.len() == 0,
    ensures
        dot_index(s) == 0,
{
}

/// Reads a decimal reading such as `-12.5` into millionths of its unit.
/// Digits past the sixth decimal place are dropped; text that is no decimal,
/// or a value larger than `MAX_READING` in size, gives `None`.
pub fn parse_reading(s: &str) -> (r: Option<i64>)
    ensures
        r matches Some(v) ==> reading_of(s@) == Some(v as int) && -MAX_READING <= v <= MAX_READING,
        r is None ==> reading_of(s@) is None,
{
    let len = s.unicode_len();
    let neg = len > 0 && s.get_char(0) == '-';
    let start: usize = if neg { 1 } else { 0 };
    let ghost u = unsigned_part(s@);
    assert(u =~= s@.skip(start as int));
    let dot = find_dot(s, start, len);
    let ghost w = whole_part(s@);
    assert(w =~= s@.subrange(start as int, dot as int));
    if dot == start {
        return None;
    }
    // Whole part, capped so that it cannot overflow.
    let mut whole: u64 = 0;
    let mut i = start;
    while i < dot
        invariant
            start <= i <= dot <= len,
            len == s@.len(),
            w =~= s@.subrange(start as int, dot as int),
            w == whole_part(s@),
            all_digits(w.take(i - start)),
            whole as int == if digits_value(w.take(i - start)) < WHOLE_CAP as int {
                digits_value(w.take(i - start))
            } else {
                WHOLE_CAP as int
            },
        decreases dot - i,
    {
        let c = s.get_char(i);
        if !('0' <= c && c <= '9') {
            assert(w[i - start] == c);
            assert(!all_digits(w));
            return None;
        }
        let ghost p = w.take(i - start);
        let ghost q = w.take(i - start + 1);
        assert(q.drop_last() =~= p);
        assert(q.last() == c);
        proof {
            lemma_digits_value_nonneg(p);
        }
        assert(all_digits(q)) by {
            assert forall|k: int| 0 <= k < q.len() implies is_digit(#[trigger] q[k]) by {
                if k < p.len() {
                    assert(q[k] == p[k]);
                }
            }
        }
        let d = (c as u32 - '0' as u32) as u64;
        if whole < WHOLE_CAP {
            let nw = whole * 10 + d;
            whole = if nw < WHOLE_CAP { nw } else { WHOLE_CAP };
        }
        i = i + 1;
    }
    assert(w.take(dot - start) =~= w);
    // Fraction part: every character must be a digit; the first six count.
    let has_frac = dot < len;
    assert(has_frac == has_fraction(s@));
    let fstart: usize = if has_frac { dot + 1 } else { len };
    let ghost f = fraction_part(s@);
    assert(f =~= s@.subrange(fstart as int, len as int));
    if has_frac && fstart == len {
        return None;
    }
    let mut j = fstart;
    while j < len
        invariant
            fstart <= j <= len,
            len == s@.len(),
            f =~= s@.subrange(fstart as int, len as int),
            f == fraction_part(s@),
            has_frac == has_fraction(s@),
            forall|k: int| 0 <= k < j - fstart ==> is_digit(#[trigger] f[k]),
        decreases len - j,
    {
        let c = s.get_char(j);
        if !('0' <= c && c <= '9') {
            assert(f[j - fstart] == c);
            assert(has_fraction(s@));
            assert(!all_digits(f));
            return None;
        }
        assert(f[j - fstart] == c);
        j = j + 1;
    }
    let ghost pf = padded_fraction(f);
    let mut frac: u64 = 0;
    let mut k: usize = 0;
    while k < 6
        invariant
            k <= 6,
            fstart <= len == s@.len(),
            f =~= s@.subrange(fstart as int, len as int),
            forall|m: int| 0 <= m < len - fstart ==> is_digit(#[trigger] f[m]),
            pf == padded_fraction(f),
            all_digits(pf.take(k as int)),
            frac as int == digits_value(pf.take(k as int)),
            frac < pow10(k as nat),
        decreases 6 - k,
    {
        proof {
            reveal_with_fuel(pow10, 7);
        }
        let d: u64 = if k < len - fstart {
            let c = s.get_char(fstart + k);
            assert(pf[k as int] == c);
            assert(is_digit(f[k as int]));
            (c as u32 - '0' as u32) as u64
        } else {
            assert(pf[k as int] == '0');
            0
        };
        let ghost p = pf.take(k as int);
        let ghost q = pf.take(k + 1);
        assert(q.drop_last() =~= p);
        assert(q.last() == pf[k as int]);
        assert(all_digits(q)) by {
            assert forall|m: int| 0 <= m < q.len() implies is_digit(#[trigger] q[m]) by {
                if m < p.len() {
                    assert(q[m] == p[m]);
                } else {
                    assert(q[m] == pf[m]);
                    if m < f.len() {
                        assert(is_digit(f[m]));
                    }
                }
            }
        }
        frac = frac * 10 + d;
        k = k + 1;
    }
    assert(pf.take(6) =~= pf);
    proof {
        reveal_with_fuel(pow10, 7);
    }
    if whole >= WHOLE_CAP {
        return None;
    }
    let mag: u64 = whole * 1_000_000 + frac;
    if mag > MAX_READING as u64 {
        return None;
    }
    if neg {
        Some(-(mag as i64))
    } else {
        Some(mag as i64)
    }
}

} // verus!
