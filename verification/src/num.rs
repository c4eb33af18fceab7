//! Decimal text: rendering integers into JSON numbers and reading them back.

use vstd::prelude::*;
use vstd::string::StrSliceExecFns;

use crate::json::push_char;

verus! {

/// The decimal digit character for `d < 10`.
pub open spec fn digit_char(d: int) -> char {
    if d == 0 { '0' } else if d == 1 { '1' } else if d == 2 { '2' }
    else if d == 3 { '3' } else if d == 4 { '4' } else if d == 5 { '5' }
    else if d == 6 { '6' } else if d == 7 { '7' } else if d == 8 { '8' }
    else { '9' }
}

/// The decimal rendering of a natural number, no leading zeros (except `0`).
pub open spec fn dec_digits(n: nat) -> Seq<char>
    decreases n,
{
    if n < 10 {
        seq![digit_char(n as int)]
    } else {
        dec_digits(n / 10) + seq![digit_char((n % 10) as int)]
    }
}

/// The decimal rendering of an integer: a minus sign before the magnitude.
pub open spec fn dec_int(n: int) -> Seq<char> {
    if n < 0 {
        seq!['-'] + dec_digits((-n) as nat)
    } else {
        dec_digits(n as nat)
    }
}

/// The decimal digit character for `d < 10`.
fn digit_char_exec(d: u64) -> (r: char)
    requires
        d < 10,
    ensures
        r == digit_char(d as int),
{
    if d == 0 { '0' } else if d == 1 { '1' } else if d == 2 { '2' }
    else if d == 3 { '3' } else if d == 4 { '4' } else if d == 5 { '5' }
    else if d == 6 { '6' } else if d == 7 { '7' } else if d == 8 { '8' }
    else { '9' }
}

/// Appends the decimal rendering of `n`.
pub fn write_u64(n: u64, out: &mut String)
    ensures
        final(out)@ == old(out)@ + dec_digits(n as nat),
    decreases n,
{
    if n < 10 {
        push_char(out, digit_char_exec(n));
    } else {
        write_u64(n / 10, out);
        push_char(out, digit_char_exec(n % 10));
    }
}

/// The decimal text of `n`.
pub fn u64_to_dec(n: u64) -> (r: String)
    ensures
        r@ == dec_digits(n as nat),
{
    let mut out = String::new();
    write_u64(n, &mut out);
    out
}

/// The decimal text of `n`, signed.
pub fn i32_to_dec(n: i32) -> (r: String)
    ensures
        r@ == dec_int(n as int),
{
    let mut out = String::new();
    let wide: i64 = n as i64;
    if wide < 0 {
        push_char(&mut out, '-');
        write_u64((-wide) as u64, &mut out);
        proof {
            assert(out@ =~= dec_int(n as int));
        }
    } else {
        write_u64(wide as u64, &mut out);
    }
    out
}

/// Whether `c` is a decimal digit.
pub open spec fn is_digit(c: char) -> bool {
    48 <= (c as u32) <= 57
}

/// The value of a digit character.
pub open spec fn digit_val(c: char) -> int {
    (c as u32) - 48
}

/// Whether every character of `s` is a decimal digit.
pub open spec fn all_digits(s: Seq<char>) -> bool {
    forall|i: int| 0 <= i < s.len() ==> is_digit(s[i])
}

/// The value of a digit string read in base ten.
pub open spec fn dec_val(s: Seq<char>) -> int
    decreases s.len(),
{
    if s.len() == 0 {
        0
    } else {
        dec_val(s.drop_last()) * 10 + digit_val(s.last())
    }
}

/// A digit string's value is never negative.
pub proof fn lemma_dec_val_nonneg(s: Seq<char>)
    requires
        all_digits(s),
    ensures
        dec_val(s) >= 0,
    decreases s.len(),
{
    if s.len() > 0 {
        assert(all_digits(s.drop_last()));
        lemma_dec_val_nonneg(s.drop_last());
    }
}

/// A prefix of a digit string never exceeds the whole.
pub proof fn lemma_dec_val_prefix_le(s: Seq<char>, k: int)
    requires
        all_digits(s),
        0 <= k <= s.len(),
    ensures
        dec_val(s.take(k)) <= dec_val(s),
    decreases s.len() - k,
{
    if k == s.len() {
        assert(s.take(k) =~= s);
    } else {
        lemma_dec_val_prefix_le(s, k + 1);
        let t = s.take(k + 1);
        assert(t.drop_last() =~= s.take(k));
        assert(all_digits(s.take(k)));
        lemma_dec_val_nonneg(s.take(k));
        assert(dec_val(t) == dec_val(s.take(k)) * 10 + digit_val(s[k]));
        assert(dec_val(s.take(k)) * 10 >= dec_val(s.take(k)));
    }
}

/// The signed integer a JSON number text denotes, when it is a plain decimal
/// integer (an optional minus sign, then digits) whose value fits in `i32`;
/// `None` for any other text, as for a fraction or an exponent.
pub open spec fn sp_i32_of(t: Seq<char>) -> Option<int> {
    let neg = t.len() > 0 && t[0] == '-';
    let ds = if neg { t.drop_first() } else { t };
    if ds.len() == 0 || !all_digits(ds) {
        None
    } else {
        let v = if neg { -dec_val(ds) } else { dec_val(ds) };
        if -0x8000_0000 <= v <= 0x7fff_ffff {
            Some(v)
        } else {
            None
        }
    }
}

/// Whether `c` is a decimal digit.
fn is_digit_exec(c: char) -> (r: bool)
    ensures
        r == is_digit(c),
{
    let v: u32 = c as u32;
    48 <= v && v <= 57
}

/// Reads a plain decimal integer, exactly as `sp_i32_of` states it.
pub fn parse_i32(t: &str) -> (r: Option<i32>)
    ensures
        match r {
            Some(v) => sp_i32_of(t@) == Some(v as int),
            None => sp_i32_of(t@) is None,
        },
{
    let n = t.unicode_len();
    let mut start: usize = 0;
    let mut neg: bool = false;
    if n > 0 && t.get_char(0) == '-' {
        neg = true;
        start = 1;
    }
    let ghost ds = if neg { t@.drop_first() } else { t@ };
    proof {
        assert(ds =~= t@.skip(start as int));
    }
    if start == n {
        return None;
    }
    let mut acc: i64 = 0;
    let mut i: usize = start;
    while i < n
        invariant
            n == t@.len(),
            start <= i <= n,
            start < n,
            start == if neg { 1int } else { 0int },
            neg == (t@.len() > 0 && t@[0] == '-'),
            ds == if neg { t@.drop_first() } else { t@ },
            ds == t@.skip(start as int),
            all_digits(ds.take(i - start)),
            acc == dec_val(ds.take(i - start)),
            0 <= acc <= 0x8000_0000,
        decreases n - i,
    {
        let c = t.get_char(i);
        if !is_digit_exec(c) {
            proof {
                assert(ds[i - start] == t@[i as int]);
                assert(!is_digit(ds[i - start]));
                assert(!all_digits(ds));
            }
            return None;
        }
        let d: i64 = ((c as u32) - 48) as i64;
        acc = acc * 10 + d;
        proof {
            assert(ds.take(i - start + 1).drop_last() =~= ds.take(i - start));
            assert(ds.take(i - start + 1).last() == ds[i - start]);
            assert(ds[i - start] == t@[i as int]);
        }
        i = i + 1;
        if acc > 0x8000_0000 {
            proof {
                if all_digits(ds) {
                    lemma_dec_val_prefix_le(ds, i - start);
                }
            }
            return None;
        }
    }
    proof {
        assert(ds.take(n - start) =~= ds);
    }
    if neg {
        let v: i64 = -acc;
        proof {
            assert(sp_i32_of(t@) == Some(v as int));
        }
        Some(v as i32)
    } else {
        if acc > 0x7fff_ffff {
            return None;
        }
        proof {
            assert(sp_i32_of(t@) == Some(acc as int));
        }
        Some(acc as i32)
    }
}

} // verus!
