//! The decimal form of a user id: the session payload is the id written in
//! ASCII decimal, so that a sealed cookie carries nothing but digits and a
//! sign.

use vstd::prelude::*;

verus! {

/// An ASCII decimal digit, `'0'` (48) through `'9'` (57).
pub open spec fn is_digit(b: u8) -> bool {
    48 <= b <= 57
}

/// Every byte of `s` is an ASCII decimal digit.
pub open spec fn all_digits(s: Seq<u8>) -> bool {
    forall|i: int| 0 <= i < s.len() ==> is_digit(#[trigger] s[i])
}

/// The number a digit string writes, most significant digit first.
pub open spec fn digits_value(s: Seq<u8>) -> int
    decreases s.len(),
{
    if s.len() == 0 {
        0
    } else {
        10 * digits_value(s.drop_last()) + (s.last() - 48)
    }
}

/// The number a digit string writes when read least significant digit
/// first; the order in which repeated division yields the digits.
pub open spec fn lsb_value(s: Seq<u8>) -> int
    decreases s.len(),
{
    if s.len() == 0 {
        0
    } else {
        (s[0] - 48) + 10 * lsb_value(s.drop_first())
    }
}

pub open spec fn pow10(n: nat) -> int
    decreases n,
{
    if n == 0 {
        1
    } else {
        10 * pow10((n - 1) as nat)
    }
}

/// What a byte string reads as a decimal `i32`: an optional leading `'-'`
/// (45) followed by one or more digits, valued within `i32`'s range.
/// Leading zeros are accepted; a lone sign, an empty string, any other
/// byte, or an out-of-range value is not.
pub open spec fn parse_i32_spec(s: Seq<u8>) -> Option<i32> {
    if s.len() > 0 && s[0] == 45 {
        let ds = s.drop_first();
        if ds.len() > 0 && all_digits(ds) && -digits_value(ds) >= i32::MIN {
            Some((-digits_value(ds)) as i32)
        } else {
            None
        }
    } else if s.len() > 0 && all_digits(s) && digits_value(s) <= i32::MAX {
        Some(digits_value(s) as i32)
    } else {
        None
    }
}

pub proof fn lemma_digits_value_nonneg(s: Seq<u8>)
    requires
        all_digits(s),
    ensures
        digits_value(s) >= 0,
    decreases s.len(),
{
    if s.len() > 0 {
        assert(all_digits(s.drop_last())) by {
            assert(forall|i: int|
                0 <= i < s.len() - 1 ==> s.drop_last()[i] == #[trigger] s[i]);
        }
        lemma_digits_value_nonneg(s.drop_last());
        assert(is_digit(s[s.len() - 1]));
    }
}

pub proof fn lemma_digits_value_push(s: Seq<u8>, d: u8)
    ensures
        digits_value(s.push(d)) == 10 * digits_value(s) + (d - 48),
{
    assert(s.push(d).drop_last() =~= s);
    assert(s.push(d).last() == d);
}

/// Reading more digits never shrinks the number: the value of a prefix is a
/// lower bound, which justifies giving up as soon as a prefix is already out
/// of range.
pub proof fn lemma_digits_value_prefix_le(s: Seq<u8>, i: int)
    requires
        all_digits(s),
        0 <= i <= s.len(),
    ensures
        digits_value(s.subrange(0, i)) <= digits_value(s),
    decreases s.len() - i,
{
    let p = s.subrange(0, i);
    if i == s.len() {
        assert(p =~= s);
    } else {
        let p1 = s.subrange(0, i + 1);
        assert(p1 =~= p.push(s[i]));
        lemma_digits_value_push(p, s[i]);
        assert(all_digits(p)) by {
            assert(forall|j: int| 0 <= j < i ==> p[j] == #[trigger] s[j]);
        }
        lemma_digits_value_nonneg(p);
        assert(is_digit(s[i]));
        lemma_digits_value_prefix_le(s, i + 1);
    }
}

pub proof fn lemma_lsb_value_push(s: Seq<u8>, d: u8)
    ensures
        lsb_value(s.push(d)) == lsb_value(s) + (d - 48) * pow10(s.len()),
    decreases s.len(),
{
    assert(lsb_value(Seq::<u8>::empty()) == 0);
    if s.len() == 0 {
        assert(s.push(d).drop_first() =~= Seq::<u8>::empty());
        assert(s.push(d)[0] == d);
        assert(lsb_value(s.push(d)) == (d - 48) + 10 * lsb_value(Seq::<u8>::empty()));
        assert(pow10(s.len()) == 1);
    } else {
        let s1 = s.drop_first();
        assert(s.push(d).drop_first() =~= s1.push(d));
        assert(s.push(d)[0] == s[0]);
        lemma_lsb_value_push(s1, d);
        assert(lsb_value(s.push(d)) == (s[0] - 48) + 10 * lsb_value(s1.push(d)));
        assert(pow10(s.len()) == 10 * pow10(s1.len()));
        assert(10 * (lsb_value(s1) + (d - 48) * pow10(s1.len()))
            == 10 * lsb_value(s1) + (d - 48) * (10 * pow10(s1.len()))) by (nonlinear_arith);
        assert((d - 48) * (10 * pow10(s1.len())) == (d - 48) * pow10(s.len()));
        assert(lsb_value(s) == (s[0] - 48) + 10 * lsb_value(s1));
        assert(lsb_value(s.push(d)) == lsb_value(s) + (d - 48) * pow10(s.len()));
    }
}

pub proof fn lemma_lsb_value_nonneg(s: Seq<u8>)
    requires
        all_digits(s),
    ensures
        lsb_value(s) >= 0,
    decreases s.len(),
{
    if s.len() > 0 {
        assert forall|i: int|
            0 <= i < s.drop_first().len() implies is_digit(
            #[trigger] s.drop_first()[i],
        ) by {
            assert(s.drop_first()[i] == s[i + 1]);
            assert(is_digit(s[i + 1]));
        }
        lemma_lsb_value_nonneg(s.drop_first());
        assert(is_digit(s[0]));
    }
}

pub proof fn lemma_pow10_pos(n: nat)
    ensures
        pow10(n) >= 1,
    decreases n,
{
    if n > 0 {
        lemma_pow10_pos((n - 1) as nat);
    }
}

pub proof fn lemma_pow10_le(a: nat, b: nat)
    requires
        a <= b,
    ensures
        pow10(a) <= pow10(b),
    decreases b,
{
    if a < b {
        lemma_pow10_le(a, (b - 1) as nat);
        lemma_pow10_pos((b - 1) as nat);
    }
}

/// Ten digits already write more than any `i32` holds.
proof fn lemma_pow10_big()
    ensures
        pow10(10) > 0x8000_0000,
{
    assert(pow10(0) == 1);
    assert(pow10(1) == 10);
    assert(pow10(2) == 100);
    assert(pow10(3) == 1000);
    assert(pow10(4) == 10000);
    assert(pow10(5) == 100000);
    assert(pow10(6) == 1000000);
    assert(pow10(7) == 10000000);
    assert(pow10(8) == 100000000);
    assert(pow10(9) == 1000000000);
    assert(pow10(10) == 10000000000);
}

/// Writes `n` in decimal: a `'-'` for a negative value, then the digits,
/// most significant first. The result is ASCII, at most eleven bytes (a
/// sign and ten digits), and reads back as exactly `n`.
pub fn format_i32(n: i32) -> (r: Vec<u8>)
    ensures
        parse_i32_spec(r@) == Some(n),
        r@.len() <= 11,
        forall|i: int| 0 <= i < r@.len() ==> #[trigger] r@[i] < 128,
{
    let ghost abs0: int = if n < 0 {
        -(n as int)
    } else {
        n as int
    };
    let mut m: i64 = if n < 0 {
        -(n as i64)
    } else {
        n as i64
    };
    let mut buf: Vec<u8> = Vec::new();
    if m == 0 {
        buf.push(48);
        proof {
            assert(buf@.drop_first() =~= Seq::<u8>::empty());
            assert(lsb_value(Seq::<u8>::empty()) == 0);
            assert(lsb_value(buf@) == 0);
        }
    }
    proof {
        assert(pow10(0) == 1);
    }
    while m > 0
        invariant
            0 <= m <= abs0,
            abs0 <= 0x8000_0000,
            abs0 == m * pow10(buf@.len() as nat) + lsb_value(buf@),
            all_digits(buf@),
            m == 0 ==> buf@.len() > 0,
            buf@.len() <= 1 || pow10((buf@.len() - 1) as nat) <= abs0,
        decreases m,
    {
        let d: u8 = (m % 10) as u8 + 48;
        let ghost k: nat = buf@.len() as nat;
        let ghost m_old: int = m as int;
        proof {
            lemma_lsb_value_push(buf@, d);
            lemma_lsb_value_nonneg(buf@);
            lemma_pow10_pos(k);
            assert(m_old * pow10(k) >= pow10(k)) by (nonlinear_arith)
                requires
                    m_old >= 1,
                    pow10(k) >= 0,
            ;
            assert(m_old * pow10(k) == (m_old / 10) * pow10(k + 1) + (m_old % 10) * pow10(k))
                by (nonlinear_arith)
                requires
                    m_old >= 0,
                    pow10(k + 1) == 10 * pow10(k),
            ;
        }
        buf.push(d);
        m = m / 10;
    }
    let ghost nbuf: int = buf@.len() as int;
    proof {
        if nbuf > 10 {
            lemma_pow10_le(10, (nbuf - 1) as nat);
            lemma_pow10_big();
        }
        assert(nbuf <= 10);
    }
    let mut out: Vec<u8> = Vec::new();
    if n < 0 {
        out.push(45);
    }
    let ghost off: int = out@.len() as int;
    let mut i: usize = buf.len();
    while i > 0
        invariant
            0 <= i <= nbuf,
            nbuf == buf@.len(),
            nbuf <= 10,
            abs0 == lsb_value(buf@),
            abs0 <= 0x8000_0000,
            all_digits(buf@),
            nbuf > 0,
            off == if n < 0 { 1int } else { 0int },
            n < 0 ==> out@.len() > 0 && out@[0] == 45,
            out@.len() == off + (nbuf - i),
            digits_value(out@.subrange(off, out@.len() as int))
                == lsb_value(buf@.subrange(i as int, nbuf)),
            all_digits(out@.subrange(off, out@.len() as int)),
        decreases i,
    {
        i = i - 1;
        let b: u8 = buf[i];
        let ghost written: Seq<u8> = out@.subrange(off, out@.len() as int);
        proof {
            lemma_digits_value_push(written, b);
            let t = buf@.subrange(i as int, nbuf);
            assert(t.drop_first() =~= buf@.subrange(i as int + 1, nbuf));
            assert(t[0] == buf@[i as int]);
            assert(is_digit(buf@[i as int]));
        }
        out.push(b);
        proof {
            assert(out@.subrange(off, out@.len() as int) =~= written.push(b));
        }
    }
    proof {
        assert(buf@.subrange(0, nbuf) =~= buf@);
        let digits = out@.subrange(off, out@.len() as int);
        assert(digits_value(digits) == abs0);
        lemma_digits_value_nonneg(digits);
        if n < 0 {
            assert(out@.drop_first() =~= digits);
            assert(out@[0] == 45);
        } else {
            assert(out@ =~= digits);
            assert(is_digit(out@[0]));
        }
        assert forall|j: int| 0 <= j < out@.len() implies #[trigger] out@[j] < 128 by {
            if j < off {
                assert(out@[0] == 45);
            } else {
                assert(out@[j] == digits[j - off]);
                assert(is_digit(digits[j - off]));
            }
        }
    }
    out
}

/// Reads a byte string as a decimal `i32`, exactly as `parse_i32_spec`
/// says: sign, digits, range check; anything else is rejected.
pub fn parse_i32(s: &Vec<u8>) -> (r: Option<i32>)
    ensures
        r == parse_i32_spec(s@),
{
    let n: usize = s.len();
    let neg: bool = n > 0 && s[0] == 45;
    let start: usize = if neg {
        1
    } else {
        0
    };
    if n == start {
        return None;
    }
    let mut acc: i64 = 0;
    let mut j: usize = start;
    while j < n
        invariant
            start <= j <= n,
            n == s@.len(),
            start == if neg { 1int } else { 0int },
            neg ==> s@[0] == 45,
            !neg && n > 0 ==> s@[0] != 45,
            n > start,
            all_digits(s@.subrange(start as int, j as int)),
            acc == digits_value(s@.subrange(start as int, j as int)),
            0 <= acc <= 0x8000_0000,
        decreases n - j,
    {
        let b: u8 = s[j];
        if b < 48 || b > 57 {
            proof {
                assert(!is_digit(s@[j as int]));
                if neg {
                    assert(!all_digits(s@.drop_first())) by {
                        assert(s@.drop_first()[j - 1] == s@[j as int]);
                    }
                } else {
                    assert(!all_digits(s@));
                }
            }
            return None;
        }
        let ghost pre: Seq<u8> = s@.subrange(start as int, j as int);
        proof {
            lemma_digits_value_push(pre, b);
            assert(s@.subrange(start as int, j as int + 1) =~= pre.push(s@[j as int]));
        }
        acc = acc * 10 + (b - 48) as i64;
        j = j + 1;
        if acc > 0x8000_0000 {
            proof {
                let whole = s@.subrange(start as int, n as int);
                if all_digits(whole) {
                    lemma_digits_value_prefix_le(whole, j as int - start);
                    assert(whole.subrange(0, j as int - start)
                        =~= s@.subrange(start as int, j as int));
                    lemma_digits_value_nonneg(whole);
                    if neg {
                        assert(s@.drop_first() =~= whole);
                    } else {
                        assert(s@ =~= whole);
                    }
                } else {
                    if neg {
                        assert(s@.drop_first() =~= whole);
                    } else {
                        assert(s@ =~= whole);
                    }
                }
            }
            return None;
        }
    }
    proof {
        let whole = s@.subrange(start as int, n as int);
        assert(whole =~= s@.subrange(start as int, j as int));
        if neg {
            assert(s@.drop_first() =~= whole);
        } else {
            assert(s@ =~= whole);
        }
    }
    if neg {
        Some((-acc) as i32)
    } else if acc > 0x7FFF_FFFF {
        None
    } else {
        Some(acc as i32)
    }
}

} // verus!
