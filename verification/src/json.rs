//! A small JSON value type with a verified serializer and parser.
//!
//! Model responses and tool-call arguments arrive as untyped JSON; this
//! module confines that untyped representation to one tagged union with a
//! mathematical model, so that the extractor and the dispatcher can state
//! exactly which value a piece of text denotes.
//!
//! The parser is deliberately lenient in two ways that only widen the set of
//! accepted texts: a number is any maximal run of number characters starting
//! with a digit or a minus sign (its lexeme is kept verbatim), and a string
//! may contain unescaped control characters.  Unicode escapes (`\uXXXX`) are
//! not accepted.

use vstd::prelude::*;

verus! {

/// An untyped JSON value.  Numbers keep their lexeme verbatim, so no
/// precision is lost and no floating point is involved.
#[derive(Debug, PartialEq, Eq)]
pub enum JsonValue {
    Null,
    Bool(bool),
    Number(String),
    Text(String),
    Array(Vec<JsonValue>),
    Object(Vec<(String, JsonValue)>),
}

/// The mathematical model of a `JsonValue`: the same tree over `Seq<char>`.
#[verifier::ext_equal]
pub enum JsonModel {
    Null,
    Bool(bool),
    Number(Seq<char>),
    Text(Seq<char>),
    Array(Seq<JsonModel>),
    Object(Seq<(Seq<char>, JsonModel)>),
}

/// The model denoted by a `JsonValue`.
pub open spec fn jm(v: JsonValue) -> JsonModel
    decreases v via jm_dec
{
    match v {
        JsonValue::Null => JsonModel::Null,
        JsonValue::Bool(b) => JsonModel::Bool(b),
        JsonValue::Number(s) => JsonModel::Number(s@),
        JsonValue::Text(s) => JsonModel::Text(s@),
        JsonValue::Array(items) => JsonModel::Array(
            Seq::new(items@.len(), |i: int| if 0 <= i < items@.len() {
                jm(items@[i])
            } else {
                JsonModel::Null
            }),
        ),
        JsonValue::Object(members) => JsonModel::Object(
            Seq::new(members@.len(), |i: int| if 0 <= i < members@.len() {
                (members@[i].0@, jm(members@[i].1))
            } else {
                (Seq::empty(), JsonModel::Null)
            }),
        ),
    }
}

#[via_fn]
proof fn jm_dec(v: JsonValue) {
    broadcast use vstd::std_specs::vec::group_vec_axioms;
    match v {
        JsonValue::Array(items) => {
            assert(decreases_to!(v => items));
            assert(decreases_to!(items => items@));
            assert forall|i: int| 0 <= i < items@.len() implies decreases_to!(v => items@[i]) by {
                assert(decreases_to!(items@ => items@[i]));
            }
        },
        JsonValue::Object(members) => {
            assert(decreases_to!(v => members));
            assert(decreases_to!(members => members@));
            assert forall|i: int| 0 <= i < members@.len() implies decreases_to!(
                v => members@[i].1,
            ) by {
                assert(decreases_to!(members@ => members@[i]));
                assert(decreases_to!(members@[i] => members@[i].1));
            }
        },
        _ => {},
    }
}

impl View for JsonValue {
    type V = JsonModel;

    open spec fn view(&self) -> JsonModel {
        jm(*self)
    }
}

/// A character that may appear in a number lexeme.
pub open spec fn is_num_char(c: char) -> bool {
    ('0' <= c && c <= '9') || c == '-' || c == '+' || c == '.' || c == 'e' || c == 'E'
}

/// Number-character test used by the scanner.
pub fn num_char(c: char) -> (r: bool)
    ensures
        r == is_num_char(c),
{
    ('0' <= c && c <= '9') || c == '-' || c == '+' || c == '.' || c == 'e' || c == 'E'
}

/// A number lexeme as the parser produces it: nonempty, made of number
/// characters, and starting with a digit or a minus sign.
pub open spec fn wf_num_lexeme(s: Seq<char>) -> bool {
    &&& s.len() > 0
    &&& (('0' <= s[0] && s[0] <= '9') || s[0] == '-')
    &&& forall|i: int| 0 <= i < s.len() ==> is_num_char(#[trigger] s[i])
}

/// A value the serializer can render so that the parser reads it back:
/// every number lexeme in it is well formed.  Text is unconstrained.
pub open spec fn wf_json(m: JsonModel) -> bool
    decreases m,
{
    match m {
        JsonModel::Null => true,
        JsonModel::Bool(_) => true,
        JsonModel::Number(s) => wf_num_lexeme(s),
        JsonModel::Text(_) => true,
        JsonModel::Array(items) => forall|i: int|
            0 <= i < items.len() ==> wf_json(#[trigger] items[i]),
        JsonModel::Object(members) => forall|i: int|
            0 <= i < members.len() ==> wf_json(#[trigger] members[i].1),
    }
}

/// How one character of a string is rendered: the quote, the backslash and
/// the three common control characters are escaped, everything else stands
/// for itself.
pub open spec fn escape_char(c: char) -> Seq<char> {
    if c == '"' {
        seq!['\\', '"']
    } else if c == '\\' {
        seq!['\\', '\\']
    } else if c == '\n' {
        seq!['\\', 'n']
    } else if c == '\t' {
        seq!['\\', 't']
    } else if c == '\r' {
        seq!['\\', 'r']
    } else {
        seq![c]
    }
}

/// The body of a rendered string (without the surrounding quotes).
pub open spec fn escape_seq(t: Seq<char>) -> Seq<char>
    decreases t.len(),
{
    if t.len() == 0 {
        Seq::empty()
    } else {
        escape_char(t[0]) + escape_seq(t.drop_first())
    }
}

/// The rendering of a value as text: no added whitespace, strings escaped
/// as `escape_char` says, arrays and objects comma separated.
pub open spec fn sp_ser(m: JsonModel) -> Seq<char>
    decreases m,
{
    match m {
        JsonModel::Null => seq!['n', 'u', 'l', 'l'],
        JsonModel::Bool(b) => if b {
            seq!['t', 'r', 'u', 'e']
        } else {
            seq!['f', 'a', 'l', 's', 'e']
        },
        JsonModel::Number(s) => s,
        JsonModel::Text(t) => seq!['"'] + escape_seq(t) + seq!['"'],
        JsonModel::Array(items) => seq!['['] + sp_ser_items(items, 0) + seq![']'],
        JsonModel::Object(members) => seq!['{'] + sp_ser_members(members, 0) + seq!['}'],
    }
}

/// The rendering of the items of an array from index `k` on.
pub open spec fn sp_ser_items(items: Seq<JsonModel>, k: int) -> Seq<char>
    decreases items, items.len() - k,
{
    if 0 <= k < items.len() {
        if k == items.len() - 1 {
            sp_ser(items[k])
        } else {
            sp_ser(items[k]) + seq![','] + sp_ser_items(items, k + 1)
        }
    } else {
        Seq::empty()
    }
}

/// The rendering of the members of an object from index `k` on.
pub open spec fn sp_ser_members(members: Seq<(Seq<char>, JsonModel)>, k: int) -> Seq<char>
    decreases members, members.len() - k,
{
    if 0 <= k < members.len() {
        let one = seq!['"'] + escape_seq(members[k].0) + seq!['"', ':'] + sp_ser(members[k].1);
        if k == members.len() - 1 {
            one
        } else {
            one + seq![','] + sp_ser_members(members, k + 1)
        }
    } else {
        Seq::empty()
    }
}

/// What is still to be appended once the first `i` items are rendered: the
/// separating comma, if one is owed, and the rest of the items.
pub open spec fn sp_ser_items_rem(items: Seq<JsonModel>, i: int) -> Seq<char> {
    if i == 0 {
        sp_ser_items(items, 0)
    } else if i < items.len() {
        seq![','] + sp_ser_items(items, i)
    } else {
        Seq::empty()
    }
}

/// The member counterpart of `sp_ser_items_rem`.
pub open spec fn sp_ser_members_rem(members: Seq<(Seq<char>, JsonModel)>, i: int) -> Seq<char> {
    if i == 0 {
        sp_ser_members(members, 0)
    } else if i < members.len() {
        seq![','] + sp_ser_members(members, i)
    } else {
        Seq::empty()
    }
}

/// Relies on `FromIterator` for `String`: collecting characters yields the
/// string with exactly those characters in order.
#[verifier::external_body]
pub fn chars_to_string(v: &Vec<char>) -> (s: String)
    ensures
        s@ == v@,
{
    v.iter().collect()
}

/// The characters of a string slice, in order.
pub fn str_to_chars(s: &str) -> (r: Vec<char>)
    ensures
        r@ == s@,
{
    let n = s.unicode_len();
    let mut r: Vec<char> = Vec::new();
    let mut i: usize = 0;
    while i < n
        invariant
            n == s@.len(),
            i <= n,
            r@ == s@.subrange(0, i as int),
        decreases n - i,
    {
        r.push(s.get_char(i));
        i = i + 1;
        proof {
            assert(r@ =~= s@.subrange(0, i as int));
        }
    }
    proof {
        assert(r@ =~= s@);
    }
    r
}

/// Appends the rendering of one character of a string body.
fn write_escaped_char(c: char, out: &mut Vec<char>)
    ensures
        final(out)@ == old(out)@ + escape_char(c),
{
    if c == '"' {
        out.push('\\');
        out.push('"');
    } else if c == '\\' {
        out.push('\\');
        out.push('\\');
    } else if c == '\n' {
        out.push('\\');
        out.push('n');
    } else if c == '\t' {
        out.push('\\');
        out.push('t');
    } else if c == '\r' {
        out.push('\\');
        out.push('r');
    } else {
        out.push(c);
    }
    proof {
        assert(out@ =~= old(out)@ + escape_char(c));
    }
}

/// One unfolding of `escape_seq` on a suffix.
proof fn lemma_escape_skip_step(t: Seq<char>, i: int)
    requires
        0 <= i < t.len(),
    ensures
        escape_seq(t.skip(i)) == escape_char(t[i]) + escape_seq(t.skip(i + 1)),
{
    assert(t.skip(i).len() > 0);
    assert(t.skip(i)[0] == t[i]);
    assert(t.skip(i).drop_first() =~= t.skip(i + 1));
}

/// Appends a quoted, escaped string.
fn write_quoted(t: &str, out: &mut Vec<char>)
    ensures
        final(out)@ == old(out)@ + seq!['"'] + escape_seq(t@) + seq!['"'],
{
    out.push('"');
    let chars = str_to_chars(t);
    let mut i: usize = 0;
    proof {
        assert(t@.skip(0) =~= t@);
    }
    while i < chars.len()
        invariant
            chars@ == t@,
            i <= chars@.len(),
            out@ + escape_seq(t@.skip(i as int)) == old(out)@ + seq!['"'] + escape_seq(t@),
        decreases chars@.len() - i,
    {
        write_escaped_char(chars[i], out);
        proof {
            lemma_escape_skip_step(t@, i as int);
            assert(out@ + escape_seq(t@.skip(i + 1 as int)) =~= old(out)@ + seq!['"']
                + escape_seq(t@));
        }
        i = i + 1;
    }
    proof {
        assert(escape_seq(t@.skip(t@.len() as int)) =~= Seq::<char>::empty());
        assert(out@ =~= old(out)@ + seq!['"'] + escape_seq(t@));
    }
    out.push('"');
    proof {
        assert(out@ =~= old(out)@ + seq!['"'] + escape_seq(t@) + seq!['"']);
    }
}

/// Appends the rendering of `v`.
#[verifier::loop_isolation(false)]
#[verifier::rlimit(60)]
pub fn write_json(v: &JsonValue, out: &mut Vec<char>)
    ensures
        final(out)@ == old(out)@ + sp_ser(v@),
    decreases v,
{
    match v {
        JsonValue::Null => {
            out.push('n');
            out.push('u');
            out.push('l');
            out.push('l');
            proof {
                assert(out@ =~= old(out)@ + sp_ser(v@));
            }
        },
        JsonValue::Bool(b) => {
            if *b {
                out.push('t');
                out.push('r');
                out.push('u');
                out.push('e');
            } else {
                out.push('f');
                out.push('a');
                out.push('l');
                out.push('s');
                out.push('e');
            }
            proof {
                assert(out@ =~= old(out)@ + sp_ser(v@));
            }
        },
        JsonValue::Number(s) => {
            let chars = str_to_chars(s.as_str());
            let mut i: usize = 0;
            proof {
                assert(s@.skip(0) =~= s@);
            }
            while i < chars.len()
                invariant
                    chars@ == s@,
                    i <= chars@.len(),
                    out@ + s@.skip(i as int) == old(out)@ + s@,
                decreases chars@.len() - i,
            {
                out.push(chars[i]);
                proof {
                    assert(s@.skip(i as int) =~= seq![s@[i as int]] + s@.skip(i + 1 as int));
                    assert(out@ + s@.skip(i + 1 as int) =~= old(out)@ + s@);
                }
                i = i + 1;
            }
            proof {
                assert(s@.skip(s@.len() as int) =~= Seq::<char>::empty());
                assert(out@ =~= old(out)@ + sp_ser(v@));
            }
        },
        JsonValue::Text(t) => {
            write_quoted(t.as_str(), out);
            proof {
                assert(out@ =~= old(out)@ + sp_ser(v@));
            }
        },
        JsonValue::Array(items) => {
            out.push('[');
            let ghost mitems = v@->Array_0;
            proof {
                assert(mitems.len() == items@.len());
            }
            let mut i: usize = 0;
            while i < items.len()
                invariant
                    mitems == v@->Array_0,
                    mitems.len() == items@.len(),
                    forall|j: int| 0 <= j < items@.len() ==> mitems[j] == #[trigger] items@[j]@,
                    i <= items@.len(),
                    out@ + sp_ser_items_rem(mitems, i as int) == old(out)@ + seq!['[']
                        + sp_ser_items(mitems, 0),
                decreases items@.len() - i,
            {
                if i > 0 {
                    out.push(',');
                }
                proof {
                    broadcast use vstd::std_specs::vec::group_vec_axioms;
                    assert(decreases_to!(*v => v->Array_0));
                    assert(decreases_to!(v->Array_0 => v->Array_0@));
                    assert(decreases_to!(v->Array_0@ => v->Array_0@[i as int]));
                }
                write_json(&items[i], out);
                proof {
                    assert(sp_ser_items_rem(mitems, i as int) == (if i > 0 {
                        seq![',']
                    } else {
                        Seq::<char>::empty()
                    }) + sp_ser(mitems[i as int]) + sp_ser_items_rem(mitems, i + 1 as int)) by {
                        if i + 1 < items@.len() {
                            assert(sp_ser_items(mitems, i as int) == sp_ser(mitems[i as int])
                                + seq![','] + sp_ser_items(mitems, i + 1 as int));
                        } else {
                            assert(sp_ser_items(mitems, i as int) == sp_ser(mitems[i as int]));
                        }
                        assert((if i > 0 {
                            seq![',']
                        } else {
                            Seq::<char>::empty()
                        }) + sp_ser(mitems[i as int]) + sp_ser_items_rem(mitems, i + 1 as int)
                            =~= sp_ser_items_rem(mitems, i as int));
                    }
                    assert(out@ + sp_ser_items_rem(mitems, i + 1 as int) =~= old(out)@ + seq!['[']
                        + sp_ser_items(mitems, 0));
                }
                i = i + 1;
            }
            out.push(']');
            proof {
                assert(out@ =~= old(out)@ + sp_ser(v@));
            }
        },
        JsonValue::Object(members) => {
            out.push('{');
            let ghost mmem = v@->Object_0;
            proof {
                assert(mmem.len() == members@.len());
            }
            let mut i: usize = 0;
            while i < members.len()
                invariant
                    mmem == v@->Object_0,
                    mmem.len() == members@.len(),
                    forall|j: int| 0 <= j < members@.len() ==> mmem[j] == (#[trigger] members@[j].0@,
                        members@[j].1@),
                    i <= members@.len(),
                    out@ + sp_ser_members_rem(mmem, i as int) == old(out)@ + seq!['{']
                        + sp_ser_members(mmem, 0),
                decreases members@.len() - i,
            {
                if i > 0 {
                    out.push(',');
                }
                let pair = &members[i];
                write_quoted(pair.0.as_str(), out);
                out.push(':');
                proof {
                    broadcast use vstd::std_specs::vec::group_vec_axioms;
                    assert(decreases_to!(*v => v->Object_0));
                    assert(decreases_to!(v->Object_0 => v->Object_0@));
                    assert(decreases_to!(v->Object_0@ => v->Object_0@[i as int]));
                    assert(decreases_to!(v->Object_0@[i as int] => v->Object_0@[i as int].1));
                }
                write_json(&pair.1, out);
                proof {
                    let one = seq!['"'] + escape_seq(mmem[i as int].0) + seq!['"', ':']
                        + sp_ser(mmem[i as int].1);
                    assert(sp_ser_members_rem(mmem, i as int) == (if i > 0 {
                        seq![',']
                    } else {
                        Seq::<char>::empty()
                    }) + one + sp_ser_members_rem(mmem, i + 1 as int)) by {
                        if i + 1 < members@.len() {
                            assert(sp_ser_members(mmem, i as int) == one + seq![',']
                                + sp_ser_members(mmem, i + 1 as int));
                        } else {
                            assert(sp_ser_members(mmem, i as int) == one);
                        }
                        assert((if i > 0 {
                            seq![',']
                        } else {
                            Seq::<char>::empty()
                        }) + one + sp_ser_members_rem(mmem, i + 1 as int) =~= sp_ser_members_rem(
                            mmem,
                            i as int,
                        ));
                    }
                    assert(out@ + sp_ser_members_rem(mmem, i + 1 as int) =~= old(out)@ + seq!['{']
                        + sp_ser_members(mmem, 0));
                }
                i = i + 1;
            }
            out.push('}');
            proof {
                assert(out@ =~= old(out)@ + sp_ser(v@));
            }
        },
    }
}

/// The rendering of `v` as a fresh string.
pub fn json_to_string(v: &JsonValue) -> (r: String)
    ensures
        r@ == sp_ser(v@),
{
    let mut out: Vec<char> = Vec::new();
    write_json(v, &mut out);
    chars_to_string(&out)
}

} // verus!
