//! Reading a JSON text into the document model.
//!
//! `sp_parse` is the specification of what the library accepts: standard
//! JSON, with every `\uXXXX` escape denoting its code point and a surrogate
//! pair denoting one character. `parse_json` is proved to return exactly
//! what `sp_parse` says.

use vstd::prelude::*;
use vstd::string::StrSliceExecFns;
use vstd::string::StringExecFns;

use crate::json::push_char;
use crate::json::jv_arr;
use crate::json::jv_obj;
use crate::json::lemma_jv_arr;
use crate::json::lemma_jv_obj;
use crate::json::Json;
use crate::json::JsonV;
use crate::num::is_digit;

verus! {

/// JSON insignificant whitespace.
pub open spec fn is_ws(c: char) -> bool {
    c == ' ' || c == '\t' || c == '\n' || c == '\r'
}

/// The first index at or after `i` that does not hold whitespace.
pub open spec fn sp_ws(s: Seq<char>, i: int) -> int
    decreases s.len() - i,
{
    if 0 <= i < s.len() && is_ws(s[i]) {
        sp_ws(s, i + 1)
    } else {
        i
    }
}

/// `j` forced into `[lo, hi]`: the indices a scan can really reach. Every
/// argument a scan function is applied to below lies in that range, so the
/// clamp never changes a value; it makes the bound a matter of syntax.
pub open spec fn adv(j: int, lo: int, hi: int) -> int {
    if j < lo {
        lo
    } else if j > hi {
        hi
    } else {
        j
    }
}

/// Whether `c` is a hex digit.
pub open spec fn is_hex(c: char) -> bool {
    48 <= (c as u32) <= 57 || 97 <= (c as u32) <= 102 || 65 <= (c as u32) <= 70
}

/// The value of a hex digit.
pub open spec fn hex_val(c: char) -> int {
    if 48 <= (c as u32) <= 57 {
        (c as u32) - 48
    } else if 97 <= (c as u32) <= 102 {
        (c as u32) - 87
    } else {
        (c as u32) - 55
    }
}

/// The four hex digits at `i` read as one value, when they are all there.
pub open spec fn hex4_at(s: Seq<char>, i: int) -> Option<int> {
    if i + 4 <= s.len() && 0 <= i && is_hex(s[i]) && is_hex(s[i + 1]) && is_hex(s[i + 2])
        && is_hex(s[i + 3]) {
        Some(
            hex_val(s[i]) * 4096 + hex_val(s[i + 1]) * 256 + hex_val(s[i + 2]) * 16 + hex_val(
                s[i + 3],
            ),
        )
    } else {
        None
    }
}

/// The character an escape (after the backslash) at `i` denotes, and the
/// index after it. A `\uXXXX` escape denotes its code point; a high
/// surrogate must be followed by another `\uXXXX` holding a low surrogate,
/// and the pair denotes the one character they encode; a lone or misordered
/// surrogate is refused.
pub open spec fn sp_escape(s: Seq<char>, i: int) -> Option<(char, int)> {
    if !(0 <= i < s.len()) {
        None
    } else {
        let c = s[i];
        if c == '"' { Some(('"', i + 1)) }
        else if c == '\\' { Some(('\\', i + 1)) }
        else if c == '/' { Some(('/', i + 1)) }
        else if c == 'b' { Some(('\u{08}', i + 1)) }
        else if c == 'f' { Some(('\u{0c}', i + 1)) }
        else if c == 'n' { Some(('\n', i + 1)) }
        else if c == 'r' { Some(('\r', i + 1)) }
        else if c == 't' { Some(('\t', i + 1)) }
        else if c == 'u' {
            match hex4_at(s, i + 1) {
                None => None,
                Some(v) => {
                    if v < 0xD800 || v >= 0xE000 {
                        Some(((v as char), i + 5))
                    } else if v < 0xDC00 {
                        if i + 11 <= s.len() && s[i + 5] == '\\' && s[i + 6] == 'u' {
                            match hex4_at(s, i + 7) {
                                None => None,
                                Some(w) => {
                                    if 0xDC00 <= w && w < 0xE000 {
                                        let code = 0x10000 + (v - 0xD800) * 0x400 + (w - 0xDC00);
                                        Some(((code as char), i + 11))
                                    } else {
                                        None
                                    }
                                },
                            }
                        } else {
                            None
                        }
                    } else {
                        None
                    }
                },
            }
        } else {
            None
        }
    }
}

/// The body of a string starting at `i` (the quote already passed), up to and
/// including the closing quote: the characters it denotes and the index after
/// the quote. Unescaped controls are refused.
pub open spec fn sp_str_body(s: Seq<char>, i: int) -> Option<(Seq<char>, int)>
    decreases s.len() - i,
{
    if !(0 <= i < s.len()) {
        None
    } else {
        let c = s[i];
        if c == '"' {
            Some((Seq::empty(), i + 1))
        } else if c == '\\' {
            match sp_escape(s, i + 1) {
                None => None,
                Some((ec, k)) => {
                    match sp_str_body(s, adv(k, i + 1, s.len() as int)) {
                        None => None,
                        Some((rest, e)) => Some((seq![ec] + rest, e)),
                    }
                },
            }
        } else if (c as u32) < 0x20 {
            None
        } else {
            match sp_str_body(s, i + 1) {
                None => None,
                Some((rest, e)) => Some((seq![c] + rest, e)),
            }
        }
    }
}

/// The end of the run of decimal digits starting at `i`.
pub open spec fn digit_run(s: Seq<char>, i: int) -> int
    decreases s.len() - i,
{
    if 0 <= i < s.len() && is_digit(s[i]) {
        digit_run(s, i + 1)
    } else {
        i
    }
}

/// A digit run ends within the text.
pub proof fn lemma_digit_run_bounds(s: Seq<char>, i: int)
    requires
        0 <= i <= s.len(),
    ensures
        i <= digit_run(s, i) <= s.len(),
    decreases s.len() - i,
{
    if i < s.len() && is_digit(s[i]) {
        lemma_digit_run_bounds(s, i + 1);
    }
}

/// The end of the fraction part beginning at `i1`, if the grammar allows one
/// here: a dot must be followed by at least one digit.
pub open spec fn sp_frac_end(s: Seq<char>, i1: int) -> Option<int> {
    if 0 <= i1 < s.len() && s[i1] == '.' {
        let e = digit_run(s, i1 + 1);
        if e > i1 + 1 {
            Some(e)
        } else {
            None
        }
    } else {
        Some(i1)
    }
}

/// The end of the exponent part beginning at `i2`, if the grammar allows one
/// here: `e`/`E`, an optional sign, then at least one digit.
pub open spec fn sp_exp_end(s: Seq<char>, i2: int) -> Option<int> {
    if 0 <= i2 < s.len() && (s[i2] == 'e' || s[i2] == 'E') {
        let i3 = if i2 + 1 < s.len() && (s[i2 + 1] == '+' || s[i2 + 1] == '-') {
            i2 + 2
        } else {
            i2 + 1
        };
        let e = digit_run(s, i3);
        if e > i3 {
            Some(e)
        } else {
            None
        }
    } else {
        Some(i2)
    }
}

/// The end of the number starting at `i` under the JSON number grammar:
/// an optional minus, an integer part without a leading zero, an optional
/// fraction, an optional exponent.
pub open spec fn sp_num_end(s: Seq<char>, i: int) -> Option<int> {
    let i0 = if 0 <= i < s.len() && s[i] == '-' { i + 1 } else { i };
    if !(0 <= i0 < s.len() && is_digit(s[i0])) {
        None
    } else {
        let i1 = if s[i0] == '0' { i0 + 1 } else { digit_run(s, i0) };
        match sp_frac_end(s, i1) {
            None => None,
            Some(i2) => sp_exp_end(s, i2),
        }
    }
}

/// The value starting exactly at `i` (no leading whitespace) and the index
/// after it.
pub open spec fn sp_value(s: Seq<char>, i: int) -> Option<(JsonV, int)>
    decreases s.len() - i, 0int,
{
    if !(0 <= i < s.len()) {
        None
    } else {
        let c = s[i];
        if c == 'n' {
            if i + 4 <= s.len() && s[i + 1] == 'u' && s[i + 2] == 'l' && s[i + 3] == 'l' {
                Some((JsonV::Null, i + 4))
            } else {
                None
            }
        } else if c == 't' {
            if i + 4 <= s.len() && s[i + 1] == 'r' && s[i + 2] == 'u' && s[i + 3] == 'e' {
                Some((JsonV::Bool(true), i + 4))
            } else {
                None
            }
        } else if c == 'f' {
            if i + 5 <= s.len() && s[i + 1] == 'a' && s[i + 2] == 'l' && s[i + 3] == 's'
                && s[i + 4] == 'e' {
                Some((JsonV::Bool(false), i + 5))
            } else {
                None
            }
        } else if c == '"' {
            match sp_str_body(s, i + 1) {
                None => None,
                Some((body, e)) => Some((JsonV::Str(body), e)),
            }
        } else if c == '[' {
            let a = adv(sp_ws(s, i + 1), i + 1, s.len() as int);
            if a < s.len() && s[a] == ']' {
                Some((JsonV::Arr(Seq::empty()), a + 1))
            } else {
                match sp_elems(s, a) {
                    None => None,
                    Some((es, e)) => Some((JsonV::Arr(es), e)),
                }
            }
        } else if c == '{' {
            let a = adv(sp_ws(s, i + 1), i + 1, s.len() as int);
            if a < s.len() && s[a] == '}' {
                Some((JsonV::Obj(Seq::empty()), a + 1))
            } else {
                match sp_members(s, a) {
                    None => None,
                    Some((ms, e)) => Some((JsonV::Obj(ms), e)),
                }
            }
        } else {
            match sp_num_end(s, i) {
                None => None,
                Some(e) => Some((JsonV::Num(s.subrange(i, adv(e, i + 1, s.len() as int))),
                    adv(e, i + 1, s.len() as int))),
            }
        }
    }
}

/// One or more comma-separated values from `i` (whitespace already passed),
/// up to and including the closing bracket.
pub open spec fn sp_elems(s: Seq<char>, i: int) -> Option<(Seq<JsonV>, int)>
    decreases s.len() - i, 1int,
{
    if !(0 <= i <= s.len()) {
        None
    } else {
        match sp_value(s, i) {
            None => None,
            Some((v, k)) => {
                let k1 = adv(k, i + 1, s.len() as int);
                let k2 = adv(sp_ws(s, k1), k1, s.len() as int);
                if k2 < s.len() && s[k2] == ',' {
                    let k3 = adv(sp_ws(s, k2 + 1), k2 + 1, s.len() as int);
                    match sp_elems(s, k3) {
                        None => None,
                        Some((rest, e)) => Some((seq![v] + rest, e)),
                    }
                } else if k2 < s.len() && s[k2] == ']' {
                    Some((seq![v], k2 + 1))
                } else {
                    None
                }
            },
        }
    }
}

/// One or more comma-separated `"key":value` members from `i` (whitespace
/// already passed), up to and including the closing brace.
pub open spec fn sp_members(s: Seq<char>, i: int) -> Option<(Seq<(Seq<char>, JsonV)>, int)>
    decreases s.len() - i, 1int,
{
    if !(0 <= i < s.len() && s[i] == '"') {
        None
    } else {
        match sp_str_body(s, i + 1) {
            None => None,
            Some((key, k)) => {
                let k1 = adv(k, i + 1, s.len() as int);
                let k2 = adv(sp_ws(s, k1), k1, s.len() as int);
                if k2 < s.len() && s[k2] == ':' {
                    let k3 = adv(sp_ws(s, k2 + 1), k2 + 1, s.len() as int);
                    match sp_value(s, k3) {
                        None => None,
                        Some((v, k4)) => {
                            let k5 = adv(k4, k3, s.len() as int);
                            let k6 = adv(sp_ws(s, k5), k5, s.len() as int);
                            if k6 < s.len() && s[k6] == ',' {
                                let k7 = adv(sp_ws(s, k6 + 1), k6 + 1, s.len() as int);
                                match sp_members(s, k7) {
                                    None => None,
                                    Some((rest, e)) => Some((seq![(key, v)] + rest, e)),
                                }
                            } else if k6 < s.len() && s[k6] == '}' {
                                Some((seq![(key, v)], k6 + 1))
                            } else {
                                None
                            }
                        },
                    }
                } else {
                    None
                }
            },
        }
    }
}

/// The document a whole text denotes: one value, surrounded only by
/// whitespace.
pub open spec fn sp_parse(s: Seq<char>) -> Option<JsonV> {
    let i = adv(sp_ws(s, 0), 0, s.len() as int);
    match sp_value(s, i) {
        None => None,
        Some((v, k)) => {
            let k1 = adv(k, 0, s.len() as int);
            let k2 = adv(sp_ws(s, k1), k1, s.len() as int);
            if k2 == s.len() {
                Some(v)
            } else {
                None
            }
        },
    }
}

/// The first non-whitespace index at or after `i`.
fn skip_ws(s: &str, i: usize) -> (r: usize)
    requires
        i <= s@.len(),
    ensures
        i <= r <= s@.len(),
        r as int == sp_ws(s@, i as int),
{
    let n = s.unicode_len();
    let mut j: usize = i;
    while j < n && is_ws_exec(s.get_char(j))
        invariant
            n == s@.len(),
            i <= j <= n,
            sp_ws(s@, i as int) == sp_ws(s@, j as int),
        decreases n - j,
    {
        j = j + 1;
    }
    j
}

/// Whether `c` is JSON whitespace.
fn is_ws_exec(c: char) -> (r: bool)
    ensures
        r == is_ws(c),
{
    c == ' ' || c == '\t' || c == '\n' || c == '\r'
}

/// Whether `c` is a hex digit.
fn is_hex_exec(c: char) -> (r: bool)
    ensures
        r == is_hex(c),
{
    let v: u32 = c as u32;
    (48 <= v && v <= 57) || (97 <= v && v <= 102) || (65 <= v && v <= 70)
}

/// The value of a hex digit.
fn hex_val_exec(c: char) -> (r: u32)
    requires
        is_hex(c),
    ensures
        r as int == hex_val(c),
        r < 16,
{
    let v: u32 = c as u32;
    if 48 <= v && v <= 57 {
        v - 48
    } else if 97 <= v && v <= 102 {
        v - 87
    } else {
        v - 55
    }
}

/// Relies on char::from_u32: for a value that is not a surrogate code point
/// and at most 0x10FFFF, the result is the character with exactly that
/// scalar value.
#[verifier::external_body]
fn char_of_code(v: u32) -> (r: char)
    requires
        v < 0xD800 || (0xE000 <= v && v <= 0x10FFFF),
    ensures
        r as u32 == v,
{
    char::from_u32(v).unwrap()
}

/// Reads the four hex digits at `i`, as `hex4_at` states it.
fn read_hex4(s: &str, i: usize) -> (r: Option<u32>)
    requires
        i <= s@.len(),
    ensures
        match r {
            Some(v) => hex4_at(s@, i as int) == Some(v as int) && v < 0x10000,
            None => hex4_at(s@, i as int) is None,
        },
{
    let n = s.unicode_len();
    if n - i < 4 {
        return None;
    }
    let c1 = s.get_char(i);
    let c2 = s.get_char(i + 1);
    let c3 = s.get_char(i + 2);
    let c4 = s.get_char(i + 3);
    if is_hex_exec(c1) && is_hex_exec(c2) && is_hex_exec(c3) && is_hex_exec(c4) {
        Some(
            hex_val_exec(c1) * 4096 + hex_val_exec(c2) * 256 + hex_val_exec(c3) * 16
                + hex_val_exec(c4),
        )
    } else {
        None
    }
}

/// Reads one escape, as `sp_escape` states it.
fn parse_escape(s: &str, i: usize) -> (r: Option<(char, usize)>)
    requires
        i <= s@.len(),
    ensures
        match r {
            Some((c, e)) => sp_escape(s@, i as int) == Some((c, e as int)) && i < e <= s@.len(),
            None => sp_escape(s@, i as int) is None,
        },
{
    let n = s.unicode_len();
    if i == n {
        return None;
    }
    let c = s.get_char(i);
    if c == '"' { Some(('"', i + 1)) }
    else if c == '\\' { Some(('\\', i + 1)) }
    else if c == '/' { Some(('/', i + 1)) }
    else if c == 'b' { Some(('\u{08}', i + 1)) }
    else if c == 'f' { Some(('\u{0c}', i + 1)) }
    else if c == 'n' { Some(('\n', i + 1)) }
    else if c == 'r' { Some(('\r', i + 1)) }
    else if c == 't' { Some(('\t', i + 1)) }
    else if c == 'u' {
        match read_hex4(s, i + 1) {
            None => None,
            Some(v) => {
                if v < 0xD800 || v >= 0xE000 {
                    let ch = char_of_code(v);
                    proof {
                        assert(ch == ((v as int) as char));
                    }
                    Some((ch, i + 5))
                } else if v < 0xDC00 {
                    if n - i >= 11 && s.get_char(i + 5) == '\\' && s.get_char(i + 6) == 'u' {
                        match read_hex4(s, i + 7) {
                            None => None,
                            Some(w) => {
                                if 0xDC00 <= w && w < 0xE000 {
                                    let code: u32 = 0x10000 + (v - 0xD800) * 0x400 + (w - 0xDC00);
                                    let ch = char_of_code(code);
                                    proof {
                                        assert(ch == ((code as int) as char));
                                    }
                                    Some((ch, i + 11))
                                } else {
                                    None
                                }
                            },
                        }
                    } else {
                        None
                    }
                } else {
                    None
                }
            },
        }
    } else {
        None
    }
}

/// Reads a string body, as `sp_str_body` states it.
fn parse_str_body(s: &str, i: usize) -> (r: Option<(String, usize)>)
    requires
        i <= s@.len(),
    ensures
        match r {
            Some(p) => sp_str_body(s@, i as int) == Some((p.0@, p.1 as int)) && i < p.1
                <= s@.len(),
            None => sp_str_body(s@, i as int) is None,
        },
    decreases s@.len() - i,
{
    let n = s.unicode_len();
    if i == n {
        return None;
    }
    let c = s.get_char(i);
    if c == '"' {
        Some((String::new(), i + 1))
    } else if c == '\\' {
        match parse_escape(s, i + 1) {
            None => None,
            Some((ec, k)) => {
                proof {
                    assert(adv(k as int, i as int + 1, s@.len() as int) == k as int);
                }
                match parse_str_body(s, k) {
                    None => None,
                    Some((rest, e)) => {
                        let mut out = String::new();
                        push_char(&mut out, ec);
                        out.append(rest.as_str());
                        proof {
                            assert(out@ =~= seq![ec] + rest@);
                        }
                        Some((out, e))
                    },
                }
            },
        }
    } else if (c as u32) < 0x20 {
        None
    } else {
        match parse_str_body(s, i + 1) {
            None => None,
            Some((rest, e)) => {
                let mut out = String::new();
                push_char(&mut out, c);
                out.append(rest.as_str());
                proof {
                    assert(out@ =~= seq![c] + rest@);
                }
                Some((out, e))
            },
        }
    }
}

/// The end of the digit run at `i`.
fn digit_run_exec(s: &str, i: usize) -> (r: usize)
    requires
        i <= s@.len(),
    ensures
        i <= r <= s@.len(),
        r as int == digit_run(s@, i as int),
{
    let n = s.unicode_len();
    let mut j: usize = i;
    while j < n && is_digit_exec(s.get_char(j))
        invariant
            n == s@.len(),
            i <= j <= n,
            digit_run(s@, i as int) == digit_run(s@, j as int),
        decreases n - j,
    {
        j = j + 1;
    }
    j
}

/// Whether `c` is a decimal digit.
fn is_digit_exec(c: char) -> (r: bool)
    ensures
        r == is_digit(c),
{
    let v: u32 = c as u32;
    48 <= v && v <= 57
}

/// Finds the end of the number at `i`, as `sp_num_end` states it.
fn parse_num_end(s: &str, i: usize) -> (r: Option<usize>)
    requires
        i <= s@.len(),
    ensures
        match r {
            Some(e) => sp_num_end(s@, i as int) == Some(e as int) && i < e <= s@.len(),
            None => sp_num_end(s@, i as int) is None,
        },
{
    let n = s.unicode_len();
    let i0: usize = if i < n && s.get_char(i) == '-' {
        i + 1
    } else {
        i
    };
    if !(i0 < n && is_digit_exec(s.get_char(i0))) {
        return None;
    }
    let i1: usize = if s.get_char(i0) == '0' {
        i0 + 1
    } else {
        digit_run_exec(s, i0)
    };
    proof {
        if s@[i0 as int] != '0' {
            assert(digit_run(s@, i0 as int) == digit_run(s@, i0 as int + 1));
            lemma_digit_run_bounds(s@, i0 as int + 1);
        }
    }
    let i2: usize = if i1 < n && s.get_char(i1) == '.' {
        let e = digit_run_exec(s, i1 + 1);
        if e > i1 + 1 {
            e
        } else {
            return None;
        }
    } else {
        i1
    };
    if i2 < n && (s.get_char(i2) == 'e' || s.get_char(i2) == 'E') {
        let i3: usize = if i2 + 1 < n && (s.get_char(i2 + 1) == '+' || s.get_char(i2 + 1) == '-') {
            i2 + 2
        } else {
            i2 + 1
        };
        let e = digit_run_exec(s, i3);
        if e > i3 {
            Some(e)
        } else {
            None
        }
    } else {
        Some(i2)
    }
}

/// Whether a whole text is one number under the JSON number grammar.
pub open spec fn sp_is_number_text(s: Seq<char>) -> bool {
    sp_num_end(s, 0) == Some(s.len() as int)
}

/// Checks a number text, as `sp_is_number_text` states it: what a confidence
/// score must satisfy to stand verbatim in a request body as a JSON number.
pub fn is_number_text(s: &str) -> (r: bool)
    ensures
        r == sp_is_number_text(s@),
{
    match parse_num_end(s, 0) {
        Some(e) => e == s.unicode_len(),
        None => false,
    }
}

/// Reads one value, as `sp_value` states it.
pub fn parse_value(s: &str, i: usize) -> (r: Option<(Json, usize)>)
    requires
        i <= s@.len(),
    ensures
        match r {
            Some(p) => sp_value(s@, i as int) == Some((p.0@, p.1 as int)) && i < p.1 <= s@.len(),
            None => sp_value(s@, i as int) is None,
        },
    decreases s@.len() - i, 0int,
{
    let n = s.unicode_len();
    if i == n {
        return None;
    }
    let c = s.get_char(i);
    if c == 'n' {
        if n - i >= 4 && s.get_char(i + 1) == 'u' && s.get_char(i + 2) == 'l'
            && s.get_char(i + 3) == 'l' {
            Some((Json::Null, i + 4))
        } else {
            None
        }
    } else if c == 't' {
        if n - i >= 4 && s.get_char(i + 1) == 'r' && s.get_char(i + 2) == 'u'
            && s.get_char(i + 3) == 'e' {
            Some((Json::Bool(true), i + 4))
        } else {
            None
        }
    } else if c == 'f' {
        if n - i >= 5 && s.get_char(i + 1) == 'a' && s.get_char(i + 2) == 'l'
            && s.get_char(i + 3) == 's' && s.get_char(i + 4) == 'e' {
            Some((Json::Bool(false), i + 5))
        } else {
            None
        }
    } else if c == '"' {
        match parse_str_body(s, i + 1) {
            None => None,
            Some((body, e)) => Some((Json::Str(body), e)),
        }
    } else if c == '[' {
        let a = skip_ws(s, i + 1);
        proof {
            assert(adv(sp_ws(s@, i as int + 1), i as int + 1, s@.len() as int) == a as int);
        }
        if a < n && s.get_char(a) == ']' {
            let out: Vec<Json> = Vec::new();
            proof {
                lemma_jv_arr(out@);
                assert(jv_arr(out@) =~= Seq::<JsonV>::empty());
            }
            Some((Json::Arr(out), a + 1))
        } else {
            match parse_elems(s, a) {
                None => None,
                Some((es, e)) => Some((Json::Arr(es), e)),
            }
        }
    } else if c == '{' {
        let a = skip_ws(s, i + 1);
        proof {
            assert(adv(sp_ws(s@, i as int + 1), i as int + 1, s@.len() as int) == a as int);
        }
        if a < n && s.get_char(a) == '}' {
            let out: Vec<(String, Json)> = Vec::new();
            proof {
                lemma_jv_obj(out@);
                assert(jv_obj(out@) =~= Seq::<(Seq<char>, JsonV)>::empty());
            }
            Some((Json::Obj(out), a + 1))
        } else {
            match parse_members(s, a) {
                None => None,
                Some((ms, e)) => Some((Json::Obj(ms), e)),
            }
        }
    } else {
        match parse_num_end(s, i) {
            None => None,
            Some(e) => {
                proof {
                    assert(adv(e as int, i as int + 1, s@.len() as int) == e as int);
                }
                let text = s.substring_char(i, e);
                Some((Json::Num(text.to_owned()), e))
            },
        }
    }
}

/// Reads the elements of a non-empty array, as `sp_elems` states it.
fn parse_elems(s: &str, i: usize) -> (r: Option<(Vec<Json>, usize)>)
    requires
        i <= s@.len(),
    ensures
        match r {
            Some(p) => sp_elems(s@, i as int) == Some((jv_arr(p.0@), p.1 as int)) && i < p.1
                <= s@.len(),
            None => sp_elems(s@, i as int) is None,
        },
    decreases s@.len() - i, 1int,
{
    let n = s.unicode_len();
    match parse_value(s, i) {
        None => None,
        Some((val, k)) => {
            proof {
                assert(adv(k as int, i as int + 1, s@.len() as int) == k as int);
            }
            let k2 = skip_ws(s, k);
            proof {
                assert(adv(sp_ws(s@, k as int), k as int, s@.len() as int) == k2 as int);
            }
            if k2 < n && s.get_char(k2) == ',' {
                let k3 = skip_ws(s, k2 + 1);
                proof {
                    assert(adv(sp_ws(s@, k2 as int + 1), k2 as int + 1, s@.len() as int)
                        == k3 as int);
                }
                match parse_elems(s, k3) {
                    None => None,
                    Some((rest, e)) => {
                        let ghost rest_view = rest@;
                        let mut out = rest;
                        out.insert(0, val);
                        proof {
                            lemma_jv_arr(out@);
                            lemma_jv_arr(rest_view);
                            assert(jv_arr(out@) =~= seq![val@] + jv_arr(rest_view));
                        }
                        Some((out, e))
                    },
                }
            } else if k2 < n && s.get_char(k2) == ']' {
                let mut out: Vec<Json> = Vec::new();
                out.push(val);
                proof {
                    lemma_jv_arr(out@);
                    assert(jv_arr(out@) =~= seq![val@]);
                }
                Some((out, k2 + 1))
            } else {
                None
            }
        },
    }
}

/// Reads the members of a non-empty object, as `sp_members` states it.
fn parse_members(s: &str, i: usize) -> (r: Option<(Vec<(String, Json)>, usize)>)
    requires
        i <= s@.len(),
    ensures
        match r {
            Some(p) => sp_members(s@, i as int) == Some((jv_obj(p.0@), p.1 as int)) && i < p.1
                <= s@.len(),
            None => sp_members(s@, i as int) is None,
        },
    decreases s@.len() - i, 1int,
{
    let n = s.unicode_len();
    if !(i < n && s.get_char(i) == '"') {
        return None;
    }
    match parse_str_body(s, i + 1) {
        None => None,
        Some((key, k)) => {
            proof {
                assert(adv(k as int, i as int + 1, s@.len() as int) == k as int);
            }
            let k2 = skip_ws(s, k);
            proof {
                assert(adv(sp_ws(s@, k as int), k as int, s@.len() as int) == k2 as int);
            }
            if k2 < n && s.get_char(k2) == ':' {
                let k3 = skip_ws(s, k2 + 1);
                proof {
                    assert(adv(sp_ws(s@, k2 as int + 1), k2 as int + 1, s@.len() as int)
                        == k3 as int);
                }
                match parse_value(s, k3) {
                    None => None,
                    Some((val, k4)) => {
                        proof {
                            assert(adv(k4 as int, k3 as int, s@.len() as int) == k4 as int);
                        }
                        let k6 = skip_ws(s, k4);
                        proof {
                            assert(adv(sp_ws(s@, k4 as int), k4 as int, s@.len() as int)
                                == k6 as int);
                        }
                        if k6 < n && s.get_char(k6) == ',' {
                            let k7 = skip_ws(s, k6 + 1);
                            proof {
                                assert(adv(sp_ws(s@, k6 as int + 1), k6 as int + 1,
                                    s@.len() as int) == k7 as int);
                            }
                            match parse_members(s, k7) {
                                None => None,
                                Some((rest, e)) => {
                                    let ghost rest_view = rest@;
                                    let mut out = rest;
                                    out.insert(0, (key, val));
                                    proof {
                                        lemma_jv_obj(out@);
                                        lemma_jv_obj(rest_view);
                                        assert(jv_obj(out@) =~= seq![(key@, val@)]
                                            + jv_obj(rest_view));
                                    }
                                    Some((out, e))
                                },
                            }
                        } else if k6 < n && s.get_char(k6) == '}' {
                            let mut out: Vec<(String, Json)> = Vec::new();
                            out.push((key, val));
                            proof {
                                lemma_jv_obj(out@);
                                assert(jv_obj(out@) =~= seq![(key@, val@)]);
                            }
                            Some((out, k6 + 1))
                        } else {
                            None
                        }
                    },
                }
            } else {
                None
            }
        },
    }
}

/// Reads a whole JSON text, as `sp_parse` states it.
pub fn parse_json(s: &str) -> (r: Option<Json>)
    ensures
        match r {
            Some(j) => sp_parse(s@) == Some(j@),
            None => sp_parse(s@) is None,
        },
{
    let n = s.unicode_len();
    let i = skip_ws(s, 0);
    proof {
        assert(adv(sp_ws(s@, 0), 0, s@.len() as int) == i as int);
    }
    match parse_value(s, i) {
        None => None,
        Some((j, k)) => {
            proof {
                assert(adv(k as int, 0, s@.len() as int) == k as int);
            }
            let k2 = skip_ws(s, k);
            proof {
                assert(adv(sp_ws(s@, k as int), k as int, s@.len() as int) == k2 as int);
            }
            if k2 == n {
                Some(j)
            } else {
                None
            }
        },
    }
}

} // verus!
