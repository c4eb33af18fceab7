//! The JSON document model the wire contract is stated over.
//!
//! A number carries its decimal text rather than a machine float, so a value
//! decoded from the wire can be re-encoded without loss and the model stays
//! within the integers.

use vstd::prelude::*;
use vstd::string::StrSliceExecFns;
use vstd::string::StringExecFns;

verus! {

/// A JSON document as held and produced by this library.
#[derive(Debug, PartialEq, Eq)]
pub enum Json {
    Null,
    Bool(bool),
    /// The decimal text of the number, e.g. `-12.5e3`.
    Num(String),
    Str(String),
    Arr(Vec<Json>),
    Obj(Vec<(String, Json)>),
}

/// The mathematical shape of a JSON document: what contracts speak of.
pub enum JsonV {
    Null,
    Bool(bool),
    Num(Seq<char>),
    Str(Seq<char>),
    Arr(Seq<JsonV>),
    Obj(Seq<(Seq<char>, JsonV)>),
}

/// The model of an executable document.
pub open spec fn jv(j: Json) -> JsonV
    decreases j,
{
    match j {
        Json::Null => JsonV::Null,
        Json::Bool(b) => JsonV::Bool(b),
        Json::Num(t) => JsonV::Num(t@),
        Json::Str(s) => JsonV::Str(s@),
        Json::Arr(v) => JsonV::Arr(jv_arr(v@)),
        Json::Obj(m) => JsonV::Obj(jv_obj(m@)),
    }
}

/// The models of the elements of an array, in order.
pub open spec fn jv_arr(v: Seq<Json>) -> Seq<JsonV>
    decreases v,
{
    if v.len() == 0 {
        Seq::empty()
    } else {
        jv_arr(v.subrange(0, v.len() - 1)).push(jv(v[v.len() - 1]))
    }
}

/// The models of the members of an object, in order.
pub open spec fn jv_obj(m: Seq<(String, Json)>) -> Seq<(Seq<char>, JsonV)>
    decreases m,
{
    if m.len() == 0 {
        Seq::empty()
    } else {
        jv_obj(m.subrange(0, m.len() - 1)).push(
            (m[m.len() - 1].0@, jv(m[m.len() - 1].1)),
        )
    }
}

impl View for Json {
    type V = JsonV;

    open spec fn view(&self) -> JsonV {
        jv(*self)
    }
}

/// `jv_arr` is the element-wise model.
pub proof fn lemma_jv_arr(v: Seq<Json>)
    ensures
        jv_arr(v).len() == v.len(),
        forall|i: int| 0 <= i < v.len() ==> jv_arr(v)[i] == jv(v[i]),
    decreases v.len(),
{
    if v.len() > 0 {
        let pre = v.subrange(0, v.len() - 1);
        lemma_jv_arr(pre);
        assert forall|i: int| 0 <= i < v.len() implies jv_arr(v)[i] == jv(v[i]) by {
            if i < v.len() - 1 {
                assert(jv_arr(v)[i] == jv_arr(pre)[i]);
                assert(pre[i] == v[i]);
            }
        }
    }
}

/// `jv_obj` is the member-wise model.
pub proof fn lemma_jv_obj(m: Seq<(String, Json)>)
    ensures
        jv_obj(m).len() == m.len(),
        forall|i: int| 0 <= i < m.len() ==> jv_obj(m)[i] == (m[i].0@, jv(m[i].1)),
    decreases m.len(),
{
    if m.len() > 0 {
        let pre = m.subrange(0, m.len() - 1);
        lemma_jv_obj(pre);
        assert forall|i: int| 0 <= i < m.len() implies jv_obj(m)[i] == (m[i].0@, jv(m[i].1)) by {
            if i < m.len() - 1 {
                assert(jv_obj(m)[i] == jv_obj(pre)[i]);
                assert(pre[i] == m[i]);
            }
        }
    }
}

/// The lower-case hex digit for a value below 16.
pub open spec fn hex_digit(n: int) -> char {
    if n == 0 { '0' } else if n == 1 { '1' } else if n == 2 { '2' }
    else if n == 3 { '3' } else if n == 4 { '4' } else if n == 5 { '5' }
    else if n == 6 { '6' } else if n == 7 { '7' } else if n == 8 { '8' }
    else if n == 9 { '9' } else if n == 10 { 'a' } else if n == 11 { 'b' }
    else if n == 12 { 'c' } else if n == 13 { 'd' } else if n == 14 { 'e' }
    else { 'f' }
}

/// How one character of a string is rendered inside quotes: the two-character
/// escapes for quote, backslash and the named controls, `\u00XX` for the other
/// controls, and the character itself for everything else.
pub open spec fn esc_char(c: char) -> Seq<char> {
    if c == '"' { seq!['\\', '"'] }
    else if c == '\\' { seq!['\\', '\\'] }
    else if c == '\u{08}' { seq!['\\', 'b'] }
    else if c == '\u{0c}' { seq!['\\', 'f'] }
    else if c == '\n' { seq!['\\', 'n'] }
    else if c == '\r' { seq!['\\', 'r'] }
    else if c == '\t' { seq!['\\', 't'] }
    else if (c as u32) < 0x20 {
        seq!['\\', 'u', '0', '0', hex_digit((c as u32) as int / 16), hex_digit((c as u32) as int % 16)]
    } else {
        seq![c]
    }
}

/// The rendering of a whole string body (without the surrounding quotes).
pub open spec fn esc(s: Seq<char>) -> Seq<char>
    decreases s.len(),
{
    if s.len() == 0 {
        Seq::empty()
    } else {
        esc(s.drop_last()) + esc_char(s.last())
    }
}

/// The exact text `to_json_text` produces for a value: no whitespace, object
/// members in the order held, numbers verbatim.
pub open spec fn ser(v: JsonV) -> Seq<char>
    decreases v,
{
    match v {
        JsonV::Null => seq!['n', 'u', 'l', 'l'],
        JsonV::Bool(b) => if b { seq!['t', 'r', 'u', 'e'] } else { seq!['f', 'a', 'l', 's', 'e'] },
        JsonV::Num(t) => t,
        JsonV::Str(s) => seq!['"'] + esc(s) + seq!['"'],
        JsonV::Arr(elems) => seq!['['] + ser_elems(elems) + seq![']'],
        JsonV::Obj(members) => seq!['{'] + ser_members(members) + seq!['}'],
    }
}

/// Comma-separated renderings of the elements.
pub open spec fn ser_elems(elems: Seq<JsonV>) -> Seq<char>
    decreases elems,
{
    if elems.len() == 0 {
        Seq::empty()
    } else if elems.len() == 1 {
        ser(elems[0])
    } else {
        ser_elems(elems.subrange(0, elems.len() - 1)) + seq![','] + ser(elems[elems.len() - 1])
    }
}

/// `"key":value` for one object member.
pub open spec fn ser_member(m: (Seq<char>, JsonV)) -> Seq<char>
    decreases m,
{
    seq!['"'] + esc(m.0) + seq!['"', ':'] + ser(m.1)
}

/// Comma-separated renderings of the members.
pub open spec fn ser_members(members: Seq<(Seq<char>, JsonV)>) -> Seq<char>
    decreases members,
{
    if members.len() == 0 {
        Seq::empty()
    } else if members.len() == 1 {
        ser_member(members[0])
    } else {
        ser_members(members.subrange(0, members.len() - 1)) + seq![',']
            + ser_member(members[members.len() - 1])
    }
}

/// Relies on String::push: appends exactly the one character.
#[verifier::external_body]
pub(crate) fn push_char(s: &mut String, c: char)
    ensures
        final(s)@ == old(s)@ + seq![c],
{
    s.push(c);
}

/// The lower-case hex digit character for `n < 16`.
fn hex_digit_exec(n: u32) -> (r: char)
    requires
        n < 16,
    ensures
        r == hex_digit(n as int),
{
    if n == 0 { '0' } else if n == 1 { '1' } else if n == 2 { '2' }
    else if n == 3 { '3' } else if n == 4 { '4' } else if n == 5 { '5' }
    else if n == 6 { '6' } else if n == 7 { '7' } else if n == 8 { '8' }
    else if n == 9 { '9' } else if n == 10 { 'a' } else if n == 11 { 'b' }
    else if n == 12 { 'c' } else if n == 13 { 'd' } else if n == 14 { 'e' }
    else { 'f' }
}

/// Appends the rendering of one string-body character.
fn write_esc_char(c: char, out: &mut String)
    ensures
        final(out)@ == old(out)@ + esc_char(c),
{
    if c == '"' {
        out.append("\\\"");
        proof {
            reveal_strlit("\\\"");
            assert(("\\\"")@ =~= esc_char(c));
        }
    } else if c == '\\' {
        out.append("\\\\");
        proof {
            reveal_strlit("\\\\");
            assert(("\\\\")@ =~= esc_char(c));
        }
    } else if c == '\u{08}' {
        out.append("\\b");
        proof {
            reveal_strlit("\\b");
            assert(("\\b")@ =~= esc_char(c));
        }
    } else if c == '\u{0c}' {
        out.append("\\f");
        proof {
            reveal_strlit("\\f");
            assert(("\\f")@ =~= esc_char(c));
        }
    } else if c == '\n' {
        out.append("\\n");
        proof {
            reveal_strlit("\\n");
            assert(("\\n")@ =~= esc_char(c));
        }
    } else if c == '\r' {
        out.append("\\r");
        proof {
            reveal_strlit("\\r");
            assert(("\\r")@ =~= esc_char(c));
        }
    } else if c == '\t' {
        out.append("\\t");
        proof {
            reveal_strlit("\\t");
            assert(("\\t")@ =~= esc_char(c));
        }
    } else if (c as u32) < 0x20 {
        let code: u32 = c as u32;
        out.append("\\u00");
        push_char(out, hex_digit_exec(code / 16));
        push_char(out, hex_digit_exec(code % 16));
        proof {
            reveal_strlit("\\u00");
            assert(("\\u00")@ + seq![hex_digit((c as u32) as int / 16), hex_digit((c as u32) as int % 16)]
                =~= esc_char(c));
        }
    } else {
        push_char(out, c);
        assert(seq![c] =~= esc_char(c));
    }
}

/// Appends `"` + escaped body + `"` for a string field.
fn write_quoted(s: &str, out: &mut String)
    ensures
        final(out)@ == old(out)@ + seq!['"'] + esc(s@) + seq!['"'],
{
    push_char(out, '"');
    let n = s.unicode_len();
    let mut i: usize = 0;
    while i < n
        invariant
            n == s@.len(),
            i <= n,
            out@ == old(out)@ + seq!['"'] + esc(s@.take(i as int)),
        decreases n - i,
    {
        let c = s.get_char(i);
        write_esc_char(c, out);
        proof {
            assert(s@.take(i + 1).drop_last() =~= s@.take(i as int));
            assert(s@.take(i + 1).last() == s@[i as int]);
        }
        i = i + 1;
    }
    proof {
        assert(s@.take(n as int) =~= s@);
    }
    push_char(out, '"');
}

/// Appends the exact rendering of `j`, as `ser` states it.
pub fn write_json(j: &Json, out: &mut String)
    ensures
        final(out)@ == old(out)@ + ser(j@),
    decreases *j,
{
    match j {
        Json::Null => {
            out.append("null");
            proof {
                reveal_strlit("null");
                assert(("null")@ =~= ser(j@));
            }
        },
        Json::Bool(b) => {
            if *b {
                out.append("true");
                proof {
                    reveal_strlit("true");
                    assert(("true")@ =~= ser(j@));
                }
            } else {
                out.append("false");
                proof {
                    reveal_strlit("false");
                    assert(("false")@ =~= ser(j@));
                }
            }
        },
        Json::Num(t) => {
            out.append(t.as_str());
        },
        Json::Str(s) => {
            write_quoted(s.as_str(), out);
        },
        Json::Arr(v) => {
            push_char(out, '[');
            let ghost es = jv_arr(v@);
            let n = v.len();
            let mut i: usize = 0;
            while i < n
                invariant
                    *j == Json::Arr(*v),
                    es == jv_arr(v@),
                    j@ == JsonV::Arr(es),
                    n == v@.len(),
                    i <= n,
                    out@ == old(out)@ + seq!['['] + ser_elems(es.take(i as int)),
                decreases n - i,
            {
                if i > 0 {
                    push_char(out, ',');
                }
                proof {
                    assert(decreases_to!(*j => (*j)->Arr_0));
                    assert(decreases_to!((*j)->Arr_0 => ((*j)->Arr_0)@));
                    assert(((*j)->Arr_0)@ == v@);
                    assert(decreases_to!(v@ => v@[i as int]));
                }
                write_json(&v[i], out);
                proof {
                    lemma_jv_arr(v@);
                    assert(es.take(i + 1).subrange(0, i as int) =~= es.take(i as int));
                    assert(es.take(i + 1)[i as int] == es[i as int]);
                    assert(es[i as int] == jv(v@[i as int]));
                }
                i = i + 1;
            }
            proof {
                lemma_jv_arr(v@);
                assert(es.take(n as int) =~= es);
            }
            push_char(out, ']');
            proof {
                assert(old(out)@ + seq!['['] + ser_elems(es) + seq![']'] =~= old(out)@ + ser(j@));
            }
        },
        Json::Obj(m) => {
            push_char(out, '{');
            let ghost ms = jv_obj(m@);
            let n = m.len();
            let mut i: usize = 0;
            while i < n
                invariant
                    *j == Json::Obj(*m),
                    ms == jv_obj(m@),
                    j@ == JsonV::Obj(ms),
                    n == m@.len(),
                    i <= n,
                    out@ == old(out)@ + seq!['{'] + ser_members(ms.take(i as int)),
                decreases n - i,
            {
                if i > 0 {
                    push_char(out, ',');
                }
                write_quoted(m[i].0.as_str(), out);
                push_char(out, ':');
                proof {
                    assert(decreases_to!(*j => (*j)->Obj_0));
                    assert(decreases_to!((*j)->Obj_0 => ((*j)->Obj_0)@));
                    assert(((*j)->Obj_0)@ == m@);
                    assert(decreases_to!(m@ => m@[i as int]));
                    assert(decreases_to!(m@[i as int] => m@[i as int].1));
                }
                write_json(&m[i].1, out);
                proof {
                    lemma_jv_obj(m@);
                    assert(ms.take(i + 1).subrange(0, i as int) =~= ms.take(i as int));
                    assert(ms.take(i + 1)[i as int] == ms[i as int]);
                    assert(ms[i as int] == (m@[i as int].0@, jv(m@[i as int].1)));
                    assert(seq!['"'] + esc(ms[i as int].0) + seq!['"'] + seq![':']
                        + ser(ms[i as int].1) =~= ser_member(ms[i as int]));
                }
                i = i + 1;
            }
            proof {
                lemma_jv_obj(m@);
                assert(ms.take(n as int) =~= ms);
            }
            push_char(out, '}');
            proof {
                assert(old(out)@ + seq!['{'] + ser_members(ms) + seq!['}'] =~= old(out)@ + ser(j@));
            }
        },
    }
}

/// Renders `j` as its exact JSON text.
pub fn to_json_text(j: &Json) -> (r: String)
    ensures
        r@ == ser(j@),
{
    let mut out = String::new();
    write_json(j, &mut out);
    out
}

/// The value of the first member named `k`, if any: how every decoder reads
/// an object.
pub open spec fn sp_get(members: Seq<(Seq<char>, JsonV)>, k: Seq<char>) -> Option<JsonV>
    decreases members.len(),
{
    if members.len() == 0 {
        None
    } else if members[0].0 == k {
        Some(members[0].1)
    } else {
        sp_get(members.drop_first(), k)
    }
}

/// Looks a member up by key, first occurrence.
pub fn json_get<'a>(m: &'a Vec<(String, Json)>, k: &String) -> (r: Option<&'a Json>)
    ensures
        match r {
            Some(v) => sp_get(jv_obj(m@), k@) == Some(v@),
            None => sp_get(jv_obj(m@), k@) is None,
        },
{
    let ghost ms = jv_obj(m@);
    proof {
        assert(ms.skip(0) =~= ms);
    }
    let n = m.len();
    let mut i: usize = 0;
    while i < n
        invariant
            ms == jv_obj(m@),
            n == m@.len(),
            i <= n,
            sp_get(ms, k@) == sp_get(ms.skip(i as int), k@),
        decreases n - i,
    {
        proof {
            lemma_jv_obj(m@);
        }
        if m[i].0.eq(k) {
            proof {
                assert(ms[i as int] == (m@[i as int].0@, jv(m@[i as int].1)));
                assert(ms.skip(i as int)[0] == ms[i as int]);
                assert(ms.skip(i as int)[0].0 == k@);
                assert(sp_get(ms.skip(i as int), k@) == Some(ms[i as int].1));
                assert(sp_get(ms, k@) == Some(jv(m@[i as int].1)));
            }
            let r = &m[i].1;
            proof {
                assert(r@ == jv(m@[i as int].1));
            }
            return Some(r);
        }
        proof {
            assert(ms[i as int] == (m@[i as int].0@, jv(m@[i as int].1)));
            assert(ms.skip(i as int)[0] == ms[i as int]);
            assert(ms.skip(i as int).drop_first() =~= ms.skip(i + 1));
        }
        i = i + 1;
    }
    proof {
        lemma_jv_obj(m@);
        assert(ms.skip(n as int) =~= Seq::<(Seq<char>, JsonV)>::empty());
    }
    None
}

} // verus!
