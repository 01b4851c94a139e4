//! The round-trip law of the JSON codec: parsing the rendering of any
//! well-formed value yields exactly that value.  This is what lets the
//! extractor promise to return "exactly the object" embedded in a model
//! response, and what pins the registry catalogue under serialization.

use vstd::prelude::*;
use crate::is_json_ws;
use crate::json::JsonModel;
use crate::json::escape_char;
use crate::json::escape_seq;
use crate::json::is_num_char;
use crate::json::sp_ser;
use crate::json::sp_ser_items;
use crate::json::sp_ser_members;
use crate::json::wf_json;
use crate::parse::sp_num_end;
use crate::parse::sp_parse_elements;
use crate::parse::sp_parse_members;
use crate::parse::sp_parse_string;
use crate::parse::sp_parse_text;
use crate::parse::sp_parse_value;
use crate::parse::sp_skip_ws;
use crate::parse::sp_unescape;

verus! {

/// The word `w` stands in `s` at position `i`.
pub open spec fn sub_at(s: Seq<char>, i: int, w: Seq<char>) -> bool {
    &&& 0 <= i
    &&& i + w.len() <= s.len()
    &&& s.subrange(i, i + w.len()) == w
}

/// Each character of an embedded word is at its place.
proof fn lemma_sub_at_index(s: Seq<char>, i: int, w: Seq<char>)
    requires
        sub_at(s, i, w),
    ensures
        forall|k: int| 0 <= k < w.len() ==> s[i + k] == w[k],
{
    assert forall|k: int| 0 <= k < w.len() implies s[i + k] == w[k] by {
        assert(s.subrange(i, i + w.len())[k] == s[i + k]);
    }
}

/// An embedded concatenation embeds both parts.
proof fn lemma_sub_at_split(s: Seq<char>, i: int, u: Seq<char>, v: Seq<char>)
    requires
        sub_at(s, i, u + v),
    ensures
        sub_at(s, i, u),
        sub_at(s, i + u.len(), v),
{
    lemma_sub_at_index(s, i, u + v);
    assert(s.subrange(i, i + u.len()) =~= u);
    assert forall|k: int| 0 <= k < v.len() implies s.subrange(
        i + u.len(),
        i + u.len() + v.len(),
    )[k] == v[k] by {
        assert(s[i + (u.len() + k)] == (u + v)[u.len() + k]);
        assert(s.subrange(i + u.len(), i + u.len() + v.len())[k] == s[i + u.len() + k]);
    }
    assert(s.subrange(i + u.len(), i + u.len() + v.len()) =~= v);
}

/// An embedded one-character word pins the character at its place.
proof fn lemma_sub_at_one(s: Seq<char>, i: int, c: char)
    requires
        sub_at(s, i, seq![c]),
    ensures
        s[i] == c,
{
    assert(s.subrange(i, i + 1)[0] == s[i]);
}

/// An embedded nonempty word pins its first character.
proof fn lemma_sub_at_first(s: Seq<char>, i: int, w: Seq<char>)
    requires
        sub_at(s, i, w),
        w.len() > 0,
    ensures
        s[i] == w[0],
{
    assert(s.subrange(i, i + w.len())[0] == s[i]);
}

/// An embedded two-character word pins its second character.
proof fn lemma_sub_at_second(s: Seq<char>, i: int, w: Seq<char>)
    requires
        sub_at(s, i, w),
        w.len() > 1,
    ensures
        s[i + 1] == w[1],
{
    assert(s.subrange(i, i + w.len())[1] == s[i + 1]);
}

/// A number scan over a run of number characters ends exactly at its end.
proof fn lemma_num_run(s: Seq<char>, i: int, e: int)
    requires
        0 <= i <= e <= s.len(),
        forall|k: int| i <= k < e ==> is_num_char(#[trigger] s[k]),
        e == s.len() || !is_num_char(s[e]),
    ensures
        sp_num_end(s, i) == e,
    decreases e - i,
{
    if i < e {
        lemma_num_run(s, i + 1, e);
    }
}

/// A rendered string body parses back to the string it renders.
proof fn lemma_rt_string(s: Seq<char>, i: int, t: Seq<char>)
    requires
        sub_at(s, i, escape_seq(t) + seq!['"']),
    ensures
        sp_parse_string(s, i) == Some((t, i + escape_seq(t).len() + 1)),
    decreases t.len(),
{
    if t.len() == 0 {
        assert(escape_seq(t) =~= Seq::<char>::empty());
        lemma_sub_at_first(s, i, escape_seq(t) + seq!['"']);
        assert((escape_seq(t) + seq!['"'])[0] == '"');
        assert(s[i] == '"');
        assert(t =~= Seq::<char>::empty());
    } else {
        let c = t[0];
        let rest = t.drop_first();
        assert(escape_seq(t) == escape_char(c) + escape_seq(rest));
        assert((escape_char(c) + escape_seq(rest)) + seq!['"'] =~= escape_char(c) + (escape_seq(
            rest,
        ) + seq!['"']));
        lemma_sub_at_split(s, i, escape_char(c), escape_seq(rest) + seq!['"']);
        lemma_sub_at_first(s, i, escape_char(c));
        let off = escape_char(c).len();
        lemma_rt_string(s, i + off, rest);
        if c == '"' || c == '\\' || c == '\n' || c == '\t' || c == '\r' {
            lemma_sub_at_second(s, i, escape_char(c));
            assert(s[i] == '\\');
            assert(s[i + 1] == escape_char(c)[1]);
            assert(sp_unescape(s[i + 1]) == Some(c));
            assert(sp_parse_string(s, i) == Some((seq![c] + rest, i + escape_seq(t).len() + 1)));
        } else {
            assert(s[i] == c);
            assert(s[i] != '"' && s[i] != '\\');
            assert(sp_parse_string(s, i) == Some((seq![c] + rest, i + escape_seq(t).len() + 1)));
        }
        assert(seq![c] + rest =~= t);
    }
}

/// The first character of any rendering announces a value.
pub open spec fn is_value_start(c: char) -> bool {
    c == 'n' || c == 't' || c == 'f' || c == '"' || c == '[' || c == '{' || ('0' <= c && c <= '9')
        || c == '-'
}

/// A rendering is nonempty and starts with a value-start character.
pub proof fn lemma_ser_head(m: JsonModel)
    requires
        wf_json(m),
    ensures
        sp_ser(m).len() > 0,
        is_value_start(sp_ser(m)[0]),
{
    match m {
        JsonModel::Null => {},
        JsonModel::Bool(b) => {},
        JsonModel::Number(lex) => {},
        JsonModel::Text(t) => {},
        JsonModel::Array(items) => {},
        JsonModel::Object(members) => {},
    }
}

/// A value-start character is not whitespace, not a closer, not a comma.
pub proof fn lemma_value_start_facts(c: char)
    requires
        is_value_start(c),
    ensures
        !is_json_ws(c),
        c != ']',
        c != '}',
        c != ',',
{
}

/// Parsing the rendering of a well-formed value at its position yields the
/// value and stops right after it.  If the value is a number, nothing that
/// could extend the lexeme may follow.
pub proof fn lemma_rt_value(s: Seq<char>, i: int, m: JsonModel)
    requires
        wf_json(m),
        sub_at(s, i, sp_ser(m)),
        m is Number ==> (i + sp_ser(m).len() == s.len() || !is_num_char(
            s[i + sp_ser(m).len()],
        )),
    ensures
        sp_parse_value(s, i) == Some((m, i + sp_ser(m).len())),
    decreases m, 0int,
{
    lemma_sub_at_index(s, i, sp_ser(m));
    lemma_ser_head(m);
    lemma_value_start_facts(sp_ser(m)[0]);
    assert(s[i] == sp_ser(m)[0]);
    assert(sp_skip_ws(s, i) == i);
    match m {
        JsonModel::Null => {},
        JsonModel::Bool(b) => {},
        JsonModel::Number(lex) => {
            assert forall|k: int| i <= k < i + lex.len() implies is_num_char(#[trigger] s[k]) by {
                assert(s[i + (k - i)] == lex[k - i]);
            }
            lemma_num_run(s, i, i + lex.len());
            assert(s.subrange(i, i + lex.len()) == lex);
        },
        JsonModel::Text(t) => {
            assert((seq!['"'] + escape_seq(t) + seq!['"']).len() == escape_seq(t).len() + 2);
            assert(sp_ser(m) =~= seq!['"'] + (escape_seq(t) + seq!['"']));
            lemma_sub_at_split(s, i, seq!['"'], escape_seq(t) + seq!['"']);
            lemma_rt_string(s, i + 1, t);
        },
        JsonModel::Array(items) => {
            assert(sp_ser(m) =~= seq!['['] + (sp_ser_items(items, 0) + seq![']']));
            lemma_sub_at_split(s, i, seq!['['], sp_ser_items(items, 0) + seq![']']);
            lemma_sub_at_split(s, i + 1, sp_ser_items(items, 0), seq![']']);
            let close = i + 1 + sp_ser_items(items, 0).len();
            lemma_sub_at_one(s, close, ']');
            assert(s[close] == ']');
            if items.len() == 0 {
                assert(sp_ser_items(items, 0) =~= Seq::<char>::empty());
                assert(s[i + 1] == ']');
                assert(sp_skip_ws(s, i + 1) == i + 1);
                assert(m == JsonModel::Array(Seq::<JsonModel>::empty())) by {
                    assert(items =~= Seq::<JsonModel>::empty());
                }
            } else {
                assert(decreases_to!(m => m->Array_0));
                assert(sp_ser_items(items, 0)[0] == sp_ser(items[0])[0]) by {
                    if items.len() == 1 {
                        assert(sp_ser_items(items, 0) == sp_ser(items[0]));
                    } else {
                        assert(sp_ser_items(items, 0) == sp_ser(items[0]) + seq![',']
                            + sp_ser_items(items, 1));
                    }
                    assert(wf_json(items[0]));
                    lemma_ser_head(items[0]);
                };
                assert(wf_json(items[0]));
                lemma_ser_head(items[0]);
                lemma_value_start_facts(sp_ser(items[0])[0]);
                lemma_sub_at_first(s, i + 1, sp_ser_items(items, 0));
                assert(s[i + 1] == sp_ser_items(items, 0)[0]);
                assert(!is_json_ws(s[i + 1]));
                assert(sp_skip_ws(s, i + 1) == i + 1);
                assert(s[i + 1] != ']');
                lemma_rt_elements(s, i + 1, items, 0);
                assert(items.skip(0) =~= items);
            }
        },
        JsonModel::Object(members) => {
            assert(sp_ser(m) =~= seq!['{'] + (sp_ser_members(members, 0) + seq!['}']));
            lemma_sub_at_split(s, i, seq!['{'], sp_ser_members(members, 0) + seq!['}']);
            lemma_sub_at_split(s, i + 1, sp_ser_members(members, 0), seq!['}']);
            let close = i + 1 + sp_ser_members(members, 0).len();
            lemma_sub_at_one(s, close, '}');
            assert(s[close] == '}');
            if members.len() == 0 {
                assert(sp_ser_members(members, 0) =~= Seq::<char>::empty());
                assert(s[i + 1] == '}');
                assert(sp_skip_ws(s, i + 1) == i + 1);
                assert(m == JsonModel::Object(Seq::<(Seq<char>, JsonModel)>::empty())) by {
                    assert(members =~= Seq::<(Seq<char>, JsonModel)>::empty());
                }
            } else {
                assert(decreases_to!(m => m->Object_0));
                assert(sp_ser_members(members, 0)[0] == '"') by {
                    let one = seq!['"'] + escape_seq(members[0].0) + seq!['"', ':'] + sp_ser(
                        members[0].1,
                    );
                    if members.len() == 1 {
                        assert(sp_ser_members(members, 0) == one);
                    } else {
                        assert(sp_ser_members(members, 0) == one + seq![','] + sp_ser_members(
                            members,
                            1,
                        ));
                    }
                };
                lemma_sub_at_first(s, i + 1, sp_ser_members(members, 0));
                assert(s[i + 1] == '"');
                assert(sp_skip_ws(s, i + 1) == i + 1);
                lemma_rt_members(s, i + 1, members, 0);
                assert(members.skip(0) =~= members);
            }
        },
    }
}

/// Parsing a rendered item list (followed by `]`) from item `k` on yields
/// the remaining items and stops right after the bracket.
proof fn lemma_rt_elements(s: Seq<char>, i: int, items: Seq<JsonModel>, k: int)
    requires
        0 <= k < items.len(),
        forall|q: int| 0 <= q < items.len() ==> wf_json(#[trigger] items[q]),
        sub_at(s, i, sp_ser_items(items, k)),
        i + sp_ser_items(items, k).len() < s.len(),
        s[i + sp_ser_items(items, k).len()] == ']',
    ensures
        sp_parse_elements(s, i) == Some((items.skip(k), i + sp_ser_items(items, k).len() + 1)),
    decreases items, items.len() - k,
{
    assert(decreases_to!(items => items[k]));
    let w = sp_ser(items[k]);
    if k == items.len() - 1 {
        assert(sp_ser_items(items, k) == w);
        lemma_sub_at_index(s, i, w);
        lemma_rt_value(s, i, items[k]);
        let j = i + w.len();
        assert(s[j] == ']');
        lemma_ser_head(items[k]);
        assert(w.len() > 0);
        assert(sp_skip_ws(s, j) == j);
        assert(sp_parse_elements(s, i) == Some((seq![items[k]], j + 1)));
        assert(seq![items[k]] =~= items.skip(k));
    } else {
        assert(sp_ser_items(items, k) == w + seq![','] + sp_ser_items(items, k + 1));
        assert(sp_ser_items(items, k) =~= w + (seq![','] + sp_ser_items(items, k + 1)));
        lemma_sub_at_split(s, i, w, seq![','] + sp_ser_items(items, k + 1));
        lemma_sub_at_split(s, i + w.len(), seq![','], sp_ser_items(items, k + 1));
        lemma_sub_at_one(s, i + w.len(), ',');
        let j = i + w.len();
        assert(s[j] == ',');
        lemma_rt_value(s, i, items[k]);
        lemma_ser_head(items[k]);
        assert(w.len() > 0);
        assert(sp_skip_ws(s, j) == j);
        lemma_rt_elements(s, j + 1, items, k + 1);
        assert(sp_parse_elements(s, i) == Some(
            (seq![items[k]] + items.skip(k + 1), i + sp_ser_items(items, k).len() + 1),
        ));
        assert(seq![items[k]] + items.skip(k + 1) =~= items.skip(k));
    }
}

/// Parsing a rendered member list (followed by `}`) from member `k` on
/// yields the remaining members and stops right after the brace.
proof fn lemma_rt_members(s: Seq<char>, i: int, members: Seq<(Seq<char>, JsonModel)>, k: int)
    requires
        0 <= k < members.len(),
        forall|q: int| 0 <= q < members.len() ==> wf_json(#[trigger] members[q].1),
        sub_at(s, i, sp_ser_members(members, k)),
        i + sp_ser_members(members, k).len() < s.len(),
        s[i + sp_ser_members(members, k).len()] == '}',
    ensures
        sp_parse_members(s, i) == Some(
            (members.skip(k), i + sp_ser_members(members, k).len() + 1),
        ),
    decreases members, members.len() - k,
{
    assert(decreases_to!(members => members[k]));
    assert(decreases_to!(members[k] => members[k].1));
    let key = members[k].0;
    let v = members[k].1;
    let one = seq!['"'] + escape_seq(key) + seq!['"', ':'] + sp_ser(v);
    assert(one =~= seq!['"'] + ((escape_seq(key) + seq!['"']) + (seq![':'] + sp_ser(v))));
    let last = k == members.len() - 1;
    if last {
        assert(sp_ser_members(members, k) == one);
    } else {
        assert(sp_ser_members(members, k) == one + seq![','] + sp_ser_members(members, k + 1));
        assert(sp_ser_members(members, k) =~= one + (seq![','] + sp_ser_members(members, k + 1)));
        lemma_sub_at_split(s, i, one, seq![','] + sp_ser_members(members, k + 1));
        lemma_sub_at_split(s, i + one.len(), seq![','], sp_ser_members(members, k + 1));
        lemma_sub_at_one(s, i + one.len(), ',');
    }
    lemma_sub_at_split(s, i, seq!['"'], (escape_seq(key) + seq!['"']) + (seq![':'] + sp_ser(v)));
    lemma_sub_at_split(s, i + 1, escape_seq(key) + seq!['"'], seq![':'] + sp_ser(v));
    let p_colon = i + 1 + escape_seq(key).len() + 1;
    lemma_sub_at_split(s, p_colon, seq![':'], sp_ser(v));
    lemma_sub_at_one(s, i, '"');
    lemma_sub_at_one(s, p_colon, ':');
    assert(s[i] == '"');
    assert(s[p_colon] == ':');
    assert(sp_skip_ws(s, i) == i);
    lemma_rt_string(s, i + 1, key);
    assert(sp_skip_ws(s, p_colon) == p_colon);
    let p_val = p_colon + 1;
    let j3 = p_val + sp_ser(v).len();
    assert(j3 == i + one.len());
    if last {
        assert(s[j3] == '}');
    }
    lemma_rt_value(s, p_val, v);
    lemma_ser_head(v);
    assert(sp_skip_ws(s, j3) == j3) by {
        if last {
            assert(s[j3] == '}');
        } else {
            assert(s[j3] == ',');
        }
    }
    if last {
        assert(sp_parse_members(s, i) == Some((seq![(key, v)], j3 + 1)));
        assert(seq![(key, v)] =~= members.skip(k)) by {
            assert(members.skip(k).len() == 1);
            assert(members.skip(k)[0] == members[k]);
            assert(members[k] == (key, v));
        }
    } else {
        lemma_rt_members(s, j3 + 1, members, k + 1);
        assert(sp_parse_members(s, i) == Some(
            (seq![(key, v)] + members.skip(k + 1), i + sp_ser_members(members, k).len() + 1),
        ));
        assert(seq![(key, v)] + members.skip(k + 1) =~= members.skip(k)) by {
            assert(members[k] == (key, v));
        }
    }
}

/// The round trip: the rendering of any well-formed value parses back to
/// exactly that value.
pub proof fn lemma_json_round_trip(m: JsonModel)
    requires
        wf_json(m),
    ensures
        sp_parse_text(sp_ser(m)) == Some(m),
{
    let s = sp_ser(m);
    assert(s.subrange(0, s.len() as int) =~= s);
    assert(sub_at(s, 0, s));
    lemma_rt_value(s, 0, m);
    assert(sp_skip_ws(s, s.len() as int) == s.len());
}

} // verus!
