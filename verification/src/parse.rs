//! A verified JSON parser.
//!
//! The grammar is stated once, as a family of spec functions over a
//! `Seq<char>` and a start position, each returning the parsed model and the
//! position just past it; the executable parser mirrors those functions and
//! returns exactly what they say.  The spec functions carry redundant range
//! guards (always true of a successful parse) so that their termination is
//! plain; the executable code tests the same guards.

use vstd::prelude::*;
use crate::is_json_ws;
use crate::json_ws;
use crate::json::JsonModel;
use crate::json::JsonValue;
use crate::json::chars_to_string;
use crate::json::is_num_char;
use crate::json::num_char;

verus! {

/// The first position at or after `i` that does not hold whitespace.
pub open spec fn sp_skip_ws(s: Seq<char>, i: int) -> int
    decreases s.len() - i,
{
    if 0 <= i < s.len() && is_json_ws(s[i]) {
        sp_skip_ws(s, i + 1)
    } else {
        i
    }
}

/// The first position at or after `i` that does not hold a number character.
pub open spec fn sp_num_end(s: Seq<char>, i: int) -> int
    decreases s.len() - i,
{
    if 0 <= i < s.len() && is_num_char(s[i]) {
        sp_num_end(s, i + 1)
    } else {
        i
    }
}

/// What a backslash escape denotes, if anything.
pub open spec fn sp_unescape(c: char) -> Option<char> {
    if c == '"' {
        Some('"')
    } else if c == '\\' {
        Some('\\')
    } else if c == '/' {
        Some('/')
    } else if c == 'n' {
        Some('\n')
    } else if c == 't' {
        Some('\t')
    } else if c == 'r' {
        Some('\r')
    } else if c == 'b' {
        Some('\u{8}')
    } else if c == 'f' {
        Some('\u{c}')
    } else {
        None
    }
}

/// The string body starting at `i` (just past the opening quote): its
/// characters up to the closing quote, and the position past that quote.
pub open spec fn sp_parse_string(s: Seq<char>, i: int) -> Option<(Seq<char>, int)>
    decreases s.len() - i, 0int,
{
    if 0 <= i < s.len() {
        let c = s[i];
        if c == '"' {
            Some((Seq::empty(), i + 1))
        } else if c == '\\' {
            if i + 1 < s.len() {
                match sp_unescape(s[i + 1]) {
                    Some(u) => match sp_parse_string(s, i + 2) {
                        Some((rest, j)) => Some((seq![u] + rest, j)),
                        None => None,
                    },
                    None => None,
                }
            } else {
                None
            }
        } else {
            match sp_parse_string(s, i + 1) {
                Some((rest, j)) => Some((seq![c] + rest, j)),
                None => None,
            }
        }
    } else {
        None
    }
}

/// The array starting at `j`, where `s[j]` is `[`.
pub open spec fn sp_parse_array(s: Seq<char>, j: int) -> Option<(JsonModel, int)>
    decreases s.len() - j, 1int,
{
    if 0 <= j < s.len() {
        let k = sp_skip_ws(s, j + 1);
        if j + 1 <= k < s.len() && s[k] == ']' {
            Some((JsonModel::Array(Seq::empty()), k + 1))
        } else {
            match sp_parse_elements(s, j + 1) {
                Some((items, e)) => Some((JsonModel::Array(items), e)),
                None => None,
            }
        }
    } else {
        None
    }
}

/// The object starting at `j`, where `s[j]` is `{`.
pub open spec fn sp_parse_object(s: Seq<char>, j: int) -> Option<(JsonModel, int)>
    decreases s.len() - j, 1int,
{
    if 0 <= j < s.len() {
        let k = sp_skip_ws(s, j + 1);
        if j + 1 <= k < s.len() && s[k] == '}' {
            Some((JsonModel::Object(Seq::empty()), k + 1))
        } else {
            match sp_parse_members(s, j + 1) {
                Some((members, e)) => Some((JsonModel::Object(members), e)),
                None => None,
            }
        }
    } else {
        None
    }
}

/// The value starting at the first non-whitespace position at or after `i`,
/// and the position just past it.
pub open spec fn sp_parse_value(s: Seq<char>, i: int) -> Option<(JsonModel, int)>
    decreases s.len() - i, 2int,
{
    if 0 <= i <= s.len() {
        let j = sp_skip_ws(s, i);
        if i <= j < s.len() {
            let c = s[j];
            if c == 'n' {
                if j + 4 <= s.len() && s[j + 1] == 'u' && s[j + 2] == 'l' && s[j + 3] == 'l' {
                    Some((JsonModel::Null, j + 4))
                } else {
                    None
                }
            } else if c == 't' {
                if j + 4 <= s.len() && s[j + 1] == 'r' && s[j + 2] == 'u' && s[j + 3] == 'e' {
                    Some((JsonModel::Bool(true), j + 4))
                } else {
                    None
                }
            } else if c == 'f' {
                if j + 5 <= s.len() && s[j + 1] == 'a' && s[j + 2] == 'l' && s[j + 3] == 's' && s[j
                    + 4] == 'e' {
                    Some((JsonModel::Bool(false), j + 5))
                } else {
                    None
                }
            } else if c == '"' {
                match sp_parse_string(s, j + 1) {
                    Some((t, e)) => Some((JsonModel::Text(t), e)),
                    None => None,
                }
            } else if c == '[' {
                sp_parse_array(s, j)
            } else if c == '{' {
                sp_parse_object(s, j)
            } else if ('0' <= c && c <= '9') || c == '-' {
                let e = sp_num_end(s, j);
                if j < e {
                    Some((JsonModel::Number(s.subrange(j, e)), e))
                } else {
                    None
                }
            } else {
                None
            }
        } else {
            None
        }
    } else {
        None
    }
}

/// The comma-separated values from `i` up to the closing `]`.
pub open spec fn sp_parse_elements(s: Seq<char>, i: int) -> Option<(Seq<JsonModel>, int)>
    decreases s.len() - i, 3int,
{
    if 0 <= i <= s.len() {
        match sp_parse_value(s, i) {
            Some((v, j)) => if i < j <= s.len() {
                let k = sp_skip_ws(s, j);
                if j <= k < s.len() {
                    if s[k] == ',' {
                        match sp_parse_elements(s, k + 1) {
                            Some((rest, e)) => Some((seq![v] + rest, e)),
                            None => None,
                        }
                    } else if s[k] == ']' {
                        Some((seq![v], k + 1))
                    } else {
                        None
                    }
                } else {
                    None
                }
            } else {
                None
            },
            None => None,
        }
    } else {
        None
    }
}

/// The comma-separated `"key": value` pairs from `i` up to the closing `}`.
pub open spec fn sp_parse_members(s: Seq<char>, i: int) -> Option<
    (Seq<(Seq<char>, JsonModel)>, int),
>
    decreases s.len() - i, 3int,
{
    if 0 <= i <= s.len() {
        let j = sp_skip_ws(s, i);
        if i <= j < s.len() && s[j] == '"' {
            match sp_parse_string(s, j + 1) {
                Some((key, j2)) => if j + 1 < j2 <= s.len() {
                    let k = sp_skip_ws(s, j2);
                    if j2 <= k < s.len() && s[k] == ':' {
                        match sp_parse_value(s, k + 1) {
                            Some((v, j3)) => if k + 1 < j3 <= s.len() {
                                let k2 = sp_skip_ws(s, j3);
                                if j3 <= k2 < s.len() {
                                    if s[k2] == ',' {
                                        match sp_parse_members(s, k2 + 1) {
                                            Some((rest, e)) => Some((seq![(key, v)] + rest, e)),
                                            None => None,
                                        }
                                    } else if s[k2] == '}' {
                                        Some((seq![(key, v)], k2 + 1))
                                    } else {
                                        None
                                    }
                                } else {
                                    None
                                }
                            } else {
                                None
                            },
                            None => None,
                        }
                    } else {
                        None
                    }
                } else {
                    None
                },
                None => None,
            }
        } else {
            None
        }
    } else {
        None
    }
}

/// The whole text as one value: a parse that leaves only whitespace behind.
pub open spec fn sp_parse_text(s: Seq<char>) -> Option<JsonModel> {
    match sp_parse_value(s, 0) {
        Some((m, e)) => if 0 <= e <= s.len() && sp_skip_ws(s, e) == s.len() {
            Some(m)
        } else {
            None
        },
        None => None,
    }
}

/// Skipping whitespace stays within bounds and stops on a non-whitespace
/// character.
pub proof fn lemma_skip_ws(s: Seq<char>, i: int)
    requires
        0 <= i <= s.len(),
    ensures
        i <= sp_skip_ws(s, i) <= s.len(),
        sp_skip_ws(s, i) < s.len() ==> !is_json_ws(s[sp_skip_ws(s, i)]),
    decreases s.len() - i,
{
    if i < s.len() && is_json_ws(s[i]) {
        lemma_skip_ws(s, i + 1);
    }
}

/// Skips whitespace.
pub fn skip_ws(s: &Vec<char>, i: usize) -> (r: usize)
    requires
        i <= s@.len(),
    ensures
        r as int == sp_skip_ws(s@, i as int),
        i <= r <= s@.len(),
        r < s@.len() ==> !is_json_ws(s@[r as int]),
{
    let mut p = i;
    while p < s.len() && json_ws(s[p])
        invariant
            i <= p <= s@.len(),
            sp_skip_ws(s@, i as int) == sp_skip_ws(s@, p as int),
        decreases s@.len() - p,
    {
        p = p + 1;
    }
    p
}

/// What a backslash escape denotes.
pub fn unescape_char(c: char) -> (r: Option<char>)
    ensures
        r == sp_unescape(c),
{
    if c == '"' {
        Some('"')
    } else if c == '\\' {
        Some('\\')
    } else if c == '/' {
        Some('/')
    } else if c == 'n' {
        Some('\n')
    } else if c == 't' {
        Some('\t')
    } else if c == 'r' {
        Some('\r')
    } else if c == 'b' {
        Some('\u{8}')
    } else if c == 'f' {
        Some('\u{c}')
    } else {
        None
    }
}

/// Reads a string body, `i` standing just past the opening quote.
#[verifier::loop_isolation(false)]
#[verifier::rlimit(60)]
fn parse_string_body(s: &Vec<char>, i: usize) -> (r: Option<(String, usize)>)
    requires
        i <= s@.len(),
    ensures
        match r {
            Some((t, j)) => sp_parse_string(s@, i as int) == Some((t@, j as int)) && i < j
                <= s@.len(),
            None => sp_parse_string(s@, i as int) is None,
        },
{
    let mut buf: Vec<char> = Vec::new();
    let mut p = i;
    loop
        invariant
            i <= p <= s@.len(),
            match sp_parse_string(s@, p as int) {
                Some((rest, j)) => sp_parse_string(s@, i as int) == Some((buf@ + rest, j)),
                None => sp_parse_string(s@, i as int) is None,
            },
        decreases s@.len() - p,
    {
        if p == s.len() {
            return None;
        }
        let c = s[p];
        if c == '"' {
            proof {
                assert(sp_parse_string(s@, p as int) == Some((Seq::<char>::empty(), p + 1 as int)));
                assert(buf@ + Seq::<char>::empty() =~= buf@);
            }
            return Some((chars_to_string(&buf), p + 1));
        } else if c == '\\' {
            if p + 1 == s.len() {
                return None;
            }
            match unescape_char(s[p + 1]) {
                Some(u) => {
                    let ghost oldbuf = buf@;
                    buf.push(u);
                    p = p + 2;
                    proof {
                        assert(buf@ =~= oldbuf + seq![u]);
                        match sp_parse_string(s@, p as int) {
                            Some((rest, jj)) => {
                                assert(sp_parse_string(s@, p - 2 as int) == Some(
                                    (seq![u] + rest, jj),
                                ));
                                assert(oldbuf + (seq![u] + rest) =~= buf@ + rest);
                            },
                            None => {
                                assert(sp_parse_string(s@, p - 2 as int) is None);
                            },
                        }
                    }
                },
                None => {
                    return None;
                },
            }
        } else {
            let ghost oldbuf = buf@;
            buf.push(c);
            p = p + 1;
            proof {
                assert(buf@ =~= oldbuf + seq![c]);
                match sp_parse_string(s@, p as int) {
                    Some((rest, jj)) => {
                        assert(sp_parse_string(s@, p - 1 as int) == Some((seq![c] + rest, jj)));
                        assert(oldbuf + (seq![c] + rest) =~= buf@ + rest);
                    },
                    None => {
                        assert(sp_parse_string(s@, p - 1 as int) is None);
                    },
                }
            }
        }
    }
}

/// The characters `s[a .. b]` as a fresh vector.
pub fn subvec(s: &Vec<char>, a: usize, b: usize) -> (r: Vec<char>)
    requires
        a <= b <= s@.len(),
    ensures
        r@ == s@.subrange(a as int, b as int),
{
    let mut r: Vec<char> = Vec::new();
    let mut p = a;
    while p < b
        invariant
            a <= p <= b <= s@.len(),
            r@ == s@.subrange(a as int, p as int),
        decreases b - p,
    {
        r.push(s[p]);
        p = p + 1;
        proof {
            assert(r@ =~= s@.subrange(a as int, p as int));
        }
    }
    r
}

/// The views of the values parsed so far.
pub open spec fn views_of(items: Seq<JsonValue>) -> Seq<JsonModel> {
    Seq::new(items.len(), |q: int| if 0 <= q < items.len() {
        items[q]@
    } else {
        JsonModel::Null
    })
}

/// The views of the members parsed so far.
pub open spec fn views_of_members(members: Seq<(String, JsonValue)>) -> Seq<(Seq<char>, JsonModel)> {
    Seq::new(members.len(), |q: int| if 0 <= q < members.len() {
        (members[q].0@, members[q].1@)
    } else {
        (Seq::<char>::empty(), JsonModel::Null)
    })
}

/// Reads one value, mirroring `sp_parse_value`.
#[verifier::loop_isolation(false)]
#[verifier::rlimit(100)]
pub fn parse_value(s: &Vec<char>, i: usize) -> (r: Option<(JsonValue, usize)>)
    requires
        i <= s@.len(),
    ensures
        match r {
            Some((v, j)) => sp_parse_value(s@, i as int) == Some((v@, j as int)) && i < j
                <= s@.len(),
            None => sp_parse_value(s@, i as int) is None,
        },
    decreases s@.len() - i, 2int,
{
    let n = s.len();
    let j = skip_ws(s, i);
    if j == n {
        return None;
    }
    let c = s[j];
    if c == 'n' {
        if n - j >= 4 && s[j + 1] == 'u' && s[j + 2] == 'l' && s[j + 3] == 'l' {
            Some((JsonValue::Null, j + 4))
        } else {
            None
        }
    } else if c == 't' {
        if n - j >= 4 && s[j + 1] == 'r' && s[j + 2] == 'u' && s[j + 3] == 'e' {
            Some((JsonValue::Bool(true), j + 4))
        } else {
            None
        }
    } else if c == 'f' {
        if n - j >= 5 && s[j + 1] == 'a' && s[j + 2] == 'l' && s[j + 3] == 's' && s[j + 4] == 'e' {
            Some((JsonValue::Bool(false), j + 5))
        } else {
            None
        }
    } else if c == '"' {
        match parse_string_body(s, j + 1) {
            Some((t, e)) => Some((JsonValue::Text(t), e)),
            None => None,
        }
    } else if c == '[' {
        parse_array(s, j)
    } else if c == '{' {
        parse_object(s, j)
    } else if (('0' <= c && c <= '9') || c == '-') {
        let mut e = j;
        while e < n && num_char(s[e])
            invariant
                j <= e <= s@.len(),
                sp_num_end(s@, j as int) == sp_num_end(s@, e as int),
            decreases s@.len() - e,
        {
            e = e + 1;
        }
        if e > j {
            let lex = subvec(s, j, e);
            Some((JsonValue::Number(chars_to_string(&lex)), e))
        } else {
            None
        }
    } else {
        None
    }
}

/// Reads an array, `j` standing on the opening bracket.
#[verifier::loop_isolation(false)]
#[verifier::rlimit(100)]
fn parse_array(s: &Vec<char>, j: usize) -> (r: Option<(JsonValue, usize)>)
    requires
        j < s@.len(),
        s@[j as int] == '[',
    ensures
        match r {
            Some((v, e)) => sp_parse_array(s@, j as int) == Some((v@, e as int)) && j < e
                <= s@.len(),
            None => sp_parse_array(s@, j as int) is None,
        },
    decreases s@.len() - j, 1int,
{
    let n = s.len();
    let k = skip_ws(s, j + 1);
    if k < n && s[k] == ']' {
        let items: Vec<JsonValue> = Vec::new();
        proof {
            assert(JsonValue::Array(items)@->Array_0 =~= Seq::<JsonModel>::empty());
        }
        return Some((JsonValue::Array(items), k + 1));
    }
    let mut items: Vec<JsonValue> = Vec::new();
    let mut p = j + 1;
    proof {
        if sp_parse_elements(s@, p as int) is Some {
            let (rest, e) = sp_parse_elements(s@, p as int)->Some_0;
            assert(views_of(items@) + rest =~= rest);
        }
    }
    loop
        invariant
            j < p <= s@.len(),
            match sp_parse_elements(s@, p as int) {
                Some((rest, e)) => sp_parse_elements(s@, (j + 1) as int) == Some(
                    (views_of(items@) + rest, e),
                ),
                None => sp_parse_elements(s@, (j + 1) as int) is None,
            },
            sp_parse_array(s@, j as int) == (match sp_parse_elements(s@, (j + 1) as int) {
                Some((its, e2)) => Some((JsonModel::Array(its), e2)),
                None => None::<(JsonModel, int)>,
            }),
        decreases s@.len() - p,
    {
        let parsed = parse_value(s, p);
        match parsed {
            Some((v, j2)) => {
                let k2 = skip_ws(s, j2);
                if k2 == n {
                    return None;
                }
                let ghost before = views_of(items@);
                items.push(v);
                proof {
                    assert(views_of(items@) =~= before + seq![v@]);
                }
                if s[k2] == ',' {
                    proof {
                        match sp_parse_elements(s@, (k2 + 1) as int) {
                            Some((rest2, e2)) => {
                                assert(sp_parse_elements(s@, p as int) == Some(
                                    (seq![v@] + rest2, e2),
                                ));
                                assert(before + (seq![v@] + rest2) =~= views_of(items@) + rest2);
                            },
                            None => {
                                assert(sp_parse_elements(s@, p as int) is None);
                            },
                        }
                    }
                    p = k2 + 1;
                } else if s[k2] == ']' {
                    proof {
                        assert(sp_parse_elements(s@, p as int) == Some((seq![v@], k2 + 1 as int)));
                        assert(before + seq![v@] =~= views_of(items@));
                        assert(JsonValue::Array(items)@->Array_0 =~= views_of(items@));
                    }
                    return Some((JsonValue::Array(items), k2 + 1));
                } else {
                    return None;
                }
            },
            None => {
                return None;
            },
        }
    }
}

/// Reads an object, `j` standing on the opening brace.
#[verifier::loop_isolation(false)]
#[verifier::rlimit(100)]
fn parse_object(s: &Vec<char>, j: usize) -> (r: Option<(JsonValue, usize)>)
    requires
        j < s@.len(),
        s@[j as int] == '{',
    ensures
        match r {
            Some((v, e)) => sp_parse_object(s@, j as int) == Some((v@, e as int)) && j < e
                <= s@.len(),
            None => sp_parse_object(s@, j as int) is None,
        },
    decreases s@.len() - j, 1int,
{
    let n = s.len();
    let k = skip_ws(s, j + 1);
    if k < n && s[k] == '}' {
        let members: Vec<(String, JsonValue)> = Vec::new();
        proof {
            assert(JsonValue::Object(members)@->Object_0 =~= Seq::<(Seq<char>, JsonModel)>::empty());
        }
        return Some((JsonValue::Object(members), k + 1));
    }
    let mut members: Vec<(String, JsonValue)> = Vec::new();
    let mut p = j + 1;
    proof {
        if sp_parse_members(s@, p as int) is Some {
            let (rest, e) = sp_parse_members(s@, p as int)->Some_0;
            assert(views_of_members(members@) + rest =~= rest);
        }
    }
    loop
        invariant
            j < p <= s@.len(),
            match sp_parse_members(s@, p as int) {
                Some((rest, e)) => sp_parse_members(s@, (j + 1) as int) == Some(
                    (views_of_members(members@) + rest, e),
                ),
                None => sp_parse_members(s@, (j + 1) as int) is None,
            },
            sp_parse_object(s@, j as int) == (match sp_parse_members(s@, (j + 1) as int) {
                Some((mem, e2)) => Some((JsonModel::Object(mem), e2)),
                None => None::<(JsonModel, int)>,
            }),
        decreases s@.len() - p,
    {
        let q0 = skip_ws(s, p);
        if q0 == n {
            return None;
        }
        if s[q0] != '"' {
            return None;
        }
        match parse_string_body(s, q0 + 1) {
            Some((key, j2)) => {
                let k1 = skip_ws(s, j2);
                if k1 == n {
                    return None;
                }
                if s[k1] != ':' {
                    return None;
                }
                match parse_value(s, k1 + 1) {
                    Some((v, j3)) => {
                        let k2 = skip_ws(s, j3);
                        if k2 == n {
                            return None;
                        }
                        let ghost before = views_of_members(members@);
                        let ghost pair_view = (key@, v@);
                        members.push((key, v));
                        proof {
                            assert(views_of_members(members@) =~= before + seq![pair_view]);
                        }
                        if s[k2] == ',' {
                            proof {
                                match sp_parse_members(s@, (k2 + 1) as int) {
                                    Some((rest2, e2)) => {
                                        assert(sp_parse_members(s@, p as int) == Some(
                                            (seq![pair_view] + rest2, e2),
                                        ));
                                        assert(before + (seq![pair_view] + rest2)
                                            =~= views_of_members(members@) + rest2);
                                    },
                                    None => {
                                        assert(sp_parse_members(s@, p as int) is None);
                                    },
                                }
                            }
                            p = k2 + 1;
                        } else if s[k2] == '}' {
                            proof {
                                assert(sp_parse_members(s@, p as int) == Some(
                                    (seq![pair_view], k2 + 1 as int),
                                ));
                                assert(before + seq![pair_view] =~= views_of_members(members@));
                                assert(JsonValue::Object(members)@->Object_0 =~= views_of_members(
                                    members@,
                                ));
                            }
                            return Some((JsonValue::Object(members), k2 + 1));
                        } else {
                            return None;
                        }
                    },
                    None => {
                        return None;
                    },
                }
            },
            None => {
                return None;
            },
        }
    }
}

/// Reads the whole text as one value, mirroring `sp_parse_text`.
pub fn parse_text(s: &Vec<char>) -> (r: Option<JsonValue>)
    ensures
        match r {
            Some(v) => sp_parse_text(s@) == Some(v@),
            None => sp_parse_text(s@) is None,
        },
{
    match parse_value(s, 0) {
        Some((v, e)) => {
            let k = skip_ws(s, e);
            if k == s.len() {
                Some(v)
            } else {
                None
            }
        },
        None => None,
    }
}

} // verus!
