//! Character-level building blocks: decimal numerals and conversions between
//! strings and character vectors.
use vstd::prelude::*;

verus! {

pub open spec fn is_digit(c: char) -> bool {
    '0' <= c && c <= '9'
}

pub open spec fn digit_char(d: nat) -> char {
    if d == 0 {
        '0'
    } else if d == 1 {
        '1'
    } else if d == 2 {
        '2'
    } else if d == 3 {
        '3'
    } else if d == 4 {
        '4'
    } else if d == 5 {
        '5'
    } else if d == 6 {
        '6'
    } else if d == 7 {
        '7'
    } else if d == 8 {
        '8'
    } else {
        '9'
    }
}

pub open spec fn digit_value(c: char) -> nat {
    if c == '1' {
        1
    } else if c == '2' {
        2
    } else if c == '3' {
        3
    } else if c == '4' {
        4
    } else if c == '5' {
        5
    } else if c == '6' {
        6
    } else if c == '7' {
        7
    } else if c == '8' {
        8
    } else if c == '9' {
        9
    } else {
        0
    }
}

/// The decimal numeral of `n`, without leading zeros.
pub open spec fn dec(n: nat) -> Seq<char>
    decreases n,
{
    if n < 10 {
        seq![digit_char(n)]
    } else {
        dec(n / 10).push(digit_char(n % 10))
    }
}

/// The number that a string of decimal digits denotes.
pub open spec fn dec_value(s: Seq<char>) -> nat
    decreases s.len(),
{
    if s.len() == 0 {
        0
    } else {
        dec_value(s.drop_last()) * 10 + digit_value(s.last())
    }
}

pub open spec fn all_digits(s: Seq<char>) -> bool {
    forall|i: int| 0 <= i < s.len() ==> is_digit(#[trigger] s[i])
}

/// A non-empty run of digits without a superfluous leading zero.
pub open spec fn canonical_dec(s: Seq<char>) -> bool {
    s.len() > 0 && all_digits(s) && (s.len() == 1 || s[0] != '0')
}

proof fn lemma_digit_roundtrip(d: nat)
    requires
        d < 10,
    ensures
        digit_value(digit_char(d)) == d,
        is_digit(digit_char(d)),
        digit_char(d) == '0' <==> d == 0,
{
}

proof fn lemma_char_roundtrip(c: char)
    requires
        is_digit(c),
    ensures
        digit_char(digit_value(c)) == c,
        digit_value(c) < 10,
{
}

pub proof fn lemma_dec_canonical(n: nat)
    ensures
        canonical_dec(dec(n)),
        dec_value(dec(n)) == n,
    decreases n,
{
    if n < 10 {
        lemma_digit_roundtrip(n);
        assert(dec(n).drop_last() =~= Seq::<char>::empty());
        assert(dec_value(dec(n).drop_last()) == 0);
        assert(dec(n).last() == digit_char(n));
        assert(dec(n)[0] == digit_char(n));
    } else {
        lemma_dec_canonical(n / 10);
        lemma_digit_roundtrip(n % 10);
        let s = dec(n);
        assert(s.drop_last() =~= dec(n / 10));
        assert(s.last() == digit_char(n % 10));
        assert(s[0] == dec(n / 10)[0]);
        if dec(n / 10).len() == 1 {
            let t = dec(n / 10);
            assert(t.drop_last() =~= Seq::<char>::empty());
            assert(dec_value(t.drop_last()) == 0);
            assert(t.last() == t[0]);
        }
        assert(dec_value(s) == dec_value(dec(n / 10)) * 10 + n % 10);
        assert(n == (n / 10) * 10 + n % 10);
        assert forall|i: int| 0 <= i < s.len() implies is_digit(#[trigger] s[i]) by {
            if i < s.len() - 1 {
                assert(s[i] == dec(n / 10)[i]);
            }
        }
    }
}

proof fn lemma_dec_value_positive(s: Seq<char>)
    requires
        canonical_dec(s),
        s.len() > 1,
    ensures
        dec_value(s) >= 10,
    decreases s.len(),
{
    let t = s.drop_last();
    if t.len() == 1 {
        assert(t[0] == s[0]);
        assert(t.drop_last() =~= Seq::<char>::empty());
        assert(dec_value(t.drop_last()) == 0);
        assert(t.last() == t[0]);
        assert(dec_value(t) == digit_value(t[0]));
        assert(dec_value(t) >= 1);
    } else {
        assert(t[0] == s[0]);
        assert(canonical_dec(t));
        lemma_dec_value_positive(t);
    }
}

pub proof fn lemma_canonical_dec(s: Seq<char>)
    requires
        canonical_dec(s),
    ensures
        dec(dec_value(s)) == s,
    decreases s.len(),
{
    let n = dec_value(s);
    let t = s.drop_last();
    lemma_char_roundtrip(s.last());
    if s.len() == 1 {
        assert(t =~= Seq::<char>::empty());
        assert(dec_value(t) == 0);
        assert(n == digit_value(s.last()));
        assert(dec(n) == seq![digit_char(n)]);
        assert(dec(n) =~= s);
    } else {
        assert(t[0] == s[0]);
        assert(canonical_dec(t));
        lemma_canonical_dec(t);
        lemma_dec_value_positive(s);
        let d = digit_value(s.last());
        assert(n == dec_value(t) * 10 + d);
        assert(n / 10 == dec_value(t) && n % 10 == d) by (nonlinear_arith)
            requires
                n == dec_value(t) * 10 + d,
                d < 10,
        ;
        assert(dec(n) =~= s);
    }
}

proof fn lemma_dec_value_prefix(s: Seq<char>, k: int)
    requires
        0 <= k <= s.len(),
    ensures
        dec_value(s.subrange(0, k)) <= dec_value(s),
    decreases s.len(),
{
    if k == s.len() {
        assert(s.subrange(0, k) =~= s);
    } else {
        let t = s.drop_last();
        assert(t.subrange(0, k) =~= s.subrange(0, k));
        lemma_dec_value_prefix(t, k);
        let a = dec_value(t);
        let d = digit_value(s.last());
        assert(dec_value(s) == a * 10 + d);
        assert(a <= a * 10 + d) by (nonlinear_arith);
    }
}

/// Appends the decimal numeral of `n` to `out`.
pub fn push_decimal(out: &mut Vec<char>, n: u64)
    ensures
        final(out)@ == old(out)@ + dec(n as nat),
    decreases n,
{
    if n >= 10 {
        push_decimal(out, n / 10);
    }
    let d = n % 10;
    let c = if d == 0 {
        '0'
    } else if d == 1 {
        '1'
    } else if d == 2 {
        '2'
    } else if d == 3 {
        '3'
    } else if d == 4 {
        '4'
    } else if d == 5 {
        '5'
    } else if d == 6 {
        '6'
    } else if d == 7 {
        '7'
    } else if d == 8 {
        '8'
    } else {
        '9'
    };
    out.push(c);
    proof {
        if n >= 10 {
            assert(dec(n as nat) == dec((n / 10) as nat).push(digit_char((n % 10) as nat)));
        }
        assert(final(out)@ =~= old(out)@ + dec(n as nat));
    }
}

pub fn char_is_digit(c: char) -> (r: bool)
    ensures
        r == is_digit(c),
{
    '0' <= c && c <= '9'
}

fn digit_of(c: char) -> (r: u64)
    requires
        is_digit(c),
    ensures
        r == digit_value(c),
{
    if c == '1' {
        1
    } else if c == '2' {
        2
    } else if c == '3' {
        3
    } else if c == '4' {
        4
    } else if c == '5' {
        5
    } else if c == '6' {
        6
    } else if c == '7' {
        7
    } else if c == '8' {
        8
    } else if c == '9' {
        9
    } else {
        0
    }
}

/// The end of the run of digits that starts at `i`.
pub fn scan_digits(v: &Vec<char>, i: usize) -> (j: usize)
    requires
        i <= v@.len(),
    ensures
        i <= j <= v@.len(),
        all_digits(v@.subrange(i as int, j as int)),
        j == v@.len() || !is_digit(v@[j as int]),
{
    let mut j = i;
    while j < v.len() && char_is_digit(v[j])
        invariant
            i <= j <= v@.len(),
            all_digits(v@.subrange(i as int, j as int)),
        decreases v@.len() - j,
    {
        proof {
            assert forall|k: int| 0 <= k < j + 1 - i implies is_digit(
                #[trigger] v@.subrange(i as int, j + 1)[k],
            ) by {
                if k < j - i {
                    assert(v@.subrange(i as int, j + 1)[k] == v@.subrange(i as int, j as int)[k]);
                }
            }
        }
        j = j + 1;
    }
    j
}

/// The value of the canonical numeral `v[i..j]` when it is at most `bound`.
pub fn canonical_value(v: &Vec<char>, i: usize, j: usize, bound: u64) -> (r: Option<u64>)
    requires
        i <= j <= v@.len(),
        bound <= 0xffff_ffff,
    ensures
        r == (if canonical_dec(v@.subrange(i as int, j as int)) && dec_value(
            v@.subrange(i as int, j as int),
        ) <= bound {
            Some(dec_value(v@.subrange(i as int, j as int)) as u64)
        } else {
            None::<u64>
        }),
{
    let ghost s = v@.subrange(i as int, j as int);
    if i == j {
        return None;
    }
    if j - i > 1 && v[i] == '0' {
        assert(s[0] == v@[i as int]);
        return None;
    }
    let mut k = i;
    let mut acc: u64 = 0;
    while k < j
        invariant
            i <= k <= j <= v@.len(),
            s == v@.subrange(i as int, j as int),
            all_digits(v@.subrange(i as int, k as int)),
            acc == dec_value(v@.subrange(i as int, k as int)),
            acc <= bound,
            bound <= 0xffff_ffff,
        decreases j - k,
    {
        let c = v[k];
        if !char_is_digit(c) {
            assert(s[k - i] == c);
            return None;
        }
        let d = digit_of(c);
        let ghost p = v@.subrange(i as int, k as int);
        let ghost q = v@.subrange(i as int, k + 1);
        assert(q.drop_last() =~= p);
        assert(q.last() == c);
        assert(acc * 10 + d <= 0xffff_ffff * 10 + 9) by (nonlinear_arith)
            requires
                acc <= 0xffff_ffff,
                d < 10,
        ;
        let next = acc * 10 + d;
        if next > bound {
            proof {
                assert(s.subrange(0, k + 1 - i) =~= q);
                lemma_dec_value_prefix(s, k + 1 - i);
            }
            return None;
        }
        proof {
            assert forall|m: int| 0 <= m < q.len() implies is_digit(#[trigger] q[m]) by {
                if m < p.len() {
                    assert(q[m] == p[m]);
                }
            }
        }
        acc = next;
        k = k + 1;
    }
    proof {
        assert(s[0] == v@[i as int]);
    }
    Some(acc)
}

/// Appends the characters of `s` to `out`.
pub fn push_str(out: &mut Vec<char>, s: &str)
    ensures
        final(out)@ == old(out)@ + s@,
{
    let v = chars_of(s);
    push_chars(out, &v);
}

/// Appends the characters of `v` to `out`.
pub fn push_chars(out: &mut Vec<char>, v: &Vec<char>)
    ensures
        final(out)@ == old(out)@ + v@,
{
    let ghost start = out@;
    let mut i: usize = 0;
    while i < v.len()
        invariant
            i <= v@.len(),
            out@ == start + v@.subrange(0, i as int),
        decreases v@.len() - i,
    {
        out.push(v[i]);
        assert(v@.subrange(0, i + 1) =~= v@.subrange(0, i as int).push(v@[i as int]));
        i = i + 1;
    }
    assert(v@.subrange(0, v@.len() as int) =~= v@);
}

/// Relies on `str::chars`: the characters of the string, in order.
#[verifier::external_body]
pub(crate) fn chars_of(s: &str) -> (r: Vec<char>)
    ensures
        r@ == s@,
{
    s.chars().collect()
}

/// Relies on `String`'s `FromIterator<char>`: the string of those characters.
#[verifier::external_body]
pub(crate) fn string_of(v: &Vec<char>) -> (r: String)
    ensures
        r@ == v@,
{
    v.iter().collect()
}

} // verus!
