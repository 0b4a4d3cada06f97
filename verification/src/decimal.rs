//! Exact decimal rendering of scaled integers.
//!
//! Frequencies are held in Hz and bandwidths in kHz-scale integers; reports
//! show them as MHz / kHz decimals ("916.8", "62.5"). These functions render
//! `n / 10^k` as its exact decimal text, with the trailing zeros of the
//! fraction stripped and no fraction point when the fraction is zero.

use vstd::prelude::*;

verus! {

/// The character for one decimal digit.
pub open spec fn digit_char(d: nat) -> char {
    if d == 0 {
        '0'
    } else if d == 1 {
        '1'
    } else if d == 2 {
        '2'
    } else if d == 3 {
        '3'
    } else if d == 4 {
        '4'
    } else if d == 5 {
        '5'
    } else if d == 6 {
        '6'
    } else if d == 7 {
        '7'
    } else if d == 8 {
        '8'
    } else {
        '9'
    }
}

/// The decimal digits of `n`, most significant first; empty for zero.
pub open spec fn dec_digits(n: nat) -> Seq<char>
    decreases n,
{
    if n == 0 {
        Seq::empty()
    } else {
        dec_digits(n / 10) + seq![digit_char(n % 10)]
    }
}

/// The decimal text of `n` ("0" for zero).
pub open spec fn dec_chars(n: nat) -> Seq<char> {
    if n == 0 {
        seq!['0']
    } else {
        dec_digits(n)
    }
}

/// The last `k` decimal digits of `f`, zero-padded to exactly `k` characters.
pub open spec fn padded_digits(f: nat, k: nat) -> Seq<char>
    decreases k,
{
    if k == 0 {
        Seq::empty()
    } else {
        padded_digits(f / 10, (k - 1) as nat) + seq![digit_char(f % 10)]
    }
}

/// `s` with every trailing '0' removed.
pub open spec fn strip_trailing_zeros(s: Seq<char>) -> Seq<char>
    decreases s.len(),
{
    if s.len() > 0 && s.last() == '0' {
        strip_trailing_zeros(s.drop_last())
    } else {
        s
    }
}

/// Ten to the `k`.
pub open spec fn pow10(k: nat) -> nat
    decreases k,
{
    if k == 0 {
        1
    } else {
        10 * pow10((k - 1) as nat)
    }
}

/// The exact decimal text of `n / 10^k`: optional sign, integer part, and,
/// when the fraction is not zero, a point followed by the fraction's digits
/// with trailing zeros stripped.
pub open spec fn scaled_chars(n: int, k: nat) -> Seq<char> {
    let mag = vstd::math::abs(n);
    let ip = mag / pow10(k);
    let fp = mag % pow10(k);
    let frac = strip_trailing_zeros(padded_digits(fp, k));
    (if n < 0 {
        seq!['-']
    } else {
        Seq::<char>::empty()
    }) + dec_chars(ip) + (if frac.len() > 0 {
        seq!['.'] + frac
    } else {
        Seq::<char>::empty()
    })
}

/// Relies on String's FromIterator<char> impl: collecting an iterator of
/// chars yields the string of exactly those characters, in order.
#[verifier::external_body]
pub(crate) fn chars_to_string(v: Vec<char>) -> (r: String)
    ensures
        r@ == v@,
{
    v.into_iter().collect()
}

fn digit_to_char(d: u64) -> (c: char)
    requires
        d < 10,
    ensures
        c == digit_char(d as nat),
{
    match d {
        0 => '0',
        1 => '1',
        2 => '2',
        3 => '3',
        4 => '4',
        5 => '5',
        6 => '6',
        7 => '7',
        8 => '8',
        _ => '9',
    }
}

fn dec_chars_vec(n: u64) -> (v: Vec<char>)
    ensures
        v@ == dec_chars(n as nat),
{
    let mut v: Vec<char> = Vec::new();
    if n == 0 {
        v.push('0');
        return v;
    }
    let mut cur: u64 = n;
    while cur > 0
        invariant
            dec_digits(n as nat) == dec_digits(cur as nat) + v@,
        decreases cur,
    {
        let d = cur % 10;
        v.insert(0, digit_to_char(d));
        cur = cur / 10;
    }
    assert(v@ == dec_digits(n as nat));
    v
}

fn padded_digits_vec(f: u64, k: u64) -> (v: Vec<char>)
    ensures
        v@ == padded_digits(f as nat, k as nat),
{
    let mut v: Vec<char> = Vec::new();
    let mut cur: u64 = f;
    let mut i: u64 = 0;
    while i < k
        invariant
            i <= k,
            padded_digits(f as nat, k as nat) == padded_digits(cur as nat, (k - i) as nat) + v@,
        decreases k - i,
    {
        let d = cur % 10;
        v.insert(0, digit_to_char(d));
        cur = cur / 10;
        i = i + 1;
    }
    v
}

fn strip_zeros_vec(v: &mut Vec<char>)
    ensures
        final(v)@ == strip_trailing_zeros(old(v)@),
{
    while v.len() > 0 && v[v.len() - 1] == '0'
        invariant
            strip_trailing_zeros(old(v)@) == strip_trailing_zeros(v@),
        decreases v.len(),
    {
        let _ = v.pop();
    }
}

proof fn lemma_pow10_values()
    ensures
        pow10(0) == 1,
        pow10(1) == 10,
        pow10(2) == 100,
        pow10(3) == 1_000,
        pow10(4) == 10_000,
        pow10(5) == 100_000,
        pow10(6) == 1_000_000,
{
    assert(pow10(0) == 1);
    assert(pow10(1) == 10);
    assert(pow10(2) == 100);
    assert(pow10(3) == 1_000);
    assert(pow10(4) == 10_000);
    assert(pow10(5) == 100_000);
    assert(pow10(6) == 1_000_000);
}

fn pow10_exec(k: u64) -> (r: u64)
    requires
        k <= 6,
    ensures
        r == pow10(k as nat),
        1 <= r <= 1_000_000,
{
    let mut r: u64 = 1;
    let mut i: u64 = 0;
    while i < k
        invariant
            i <= k <= 6,
            r == pow10(i as nat),
        decreases k - i,
    {
        proof {
            lemma_pow10_values();
        }
        r = r * 10;
        i = i + 1;
    }
    proof {
        lemma_pow10_values();
    }
    r
}

/// Renders `n / 10^k` as its exact decimal text.
pub fn scaled_string(n: i64, k: u64) -> (r: String)
    requires
        k <= 6,
        n > i64::MIN,
    ensures
        r@ == scaled_chars(n as int, k as nat),
{
    let mag: u64 = if n < 0 {
        (-n) as u64
    } else {
        n as u64
    };
    let scale = pow10_exec(k);
    let ip = mag / scale;
    let fp = mag % scale;
    let mut out: Vec<char> = Vec::new();
    if n < 0 {
        out.push('-');
    }
    let mut ip_chars = dec_chars_vec(ip);
    out.append(&mut ip_chars);
    let mut frac = padded_digits_vec(fp, k);
    strip_zeros_vec(&mut frac);
    if frac.len() > 0 {
        out.push('.');
        out.append(&mut frac);
    }
    proof {
        assert(out@ =~= scaled_chars(n as int, k as nat));
    }
    chars_to_string(out)
}

} // verus!
