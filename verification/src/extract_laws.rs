//! Laws of the extractor: a fenced block whose content is the rendering of
//! a well-formed value yields exactly that value; so does a rendered object
//! embedded in fenceless prose, found by depth counting from the first
//! brace; and text without any brace-balanced object yields `NoJsonFound`.

use vstd::prelude::*;
use crate::action::ActionSetModel;
use crate::action::sp_action_set_from_json;
use crate::action::sp_extract_action_set;
use crate::extract::ExtractionError;
use crate::extract::sp_extract;
use crate::extract::sp_find_brace;
use crate::extract::sp_find_fence;
use crate::is_json_ws;
use crate::json::JsonModel;
use crate::json::is_num_char;
use crate::json::sp_ser;
use crate::json::wf_json;
use crate::json_laws::lemma_rt_value;
use crate::json_laws::lemma_ser_head;
use crate::json_laws::lemma_value_start_facts;
use crate::json_laws::sub_at;
use crate::parse::sp_parse_value;
use crate::parse::sp_skip_ws;

verus! {

/// Skipping whitespace over a whitespace run ends exactly at its end.
proof fn lemma_ws_run(s: Seq<char>, i: int, e: int)
    requires
        0 <= i <= e <= s.len(),
        forall|k: int| i <= k < e ==> is_json_ws(#[trigger] s[k]),
        e == s.len() || !is_json_ws(s[e]),
    ensures
        sp_skip_ws(s, i) == e,
    decreases e - i,
{
    if i < e {
        lemma_ws_run(s, i + 1, e);
    }
}

/// A value parse is unchanged by starting anywhere in the whitespace that
/// precedes it.
proof fn lemma_parse_value_skip(s: Seq<char>, i: int)
    requires
        0 <= i <= s.len(),
    ensures
        sp_parse_value(s, i) == sp_parse_value(s, sp_skip_ws(s, i)),
{
    let j = sp_skip_ws(s, i);
    crate::parse::lemma_skip_ws(s, i);
    assert(sp_skip_ws(s, j) == j);
}

/// The fenced-block law: when the first matching fence's content is the
/// rendering of a well-formed value, surrounded only by whitespace,
/// extraction returns exactly that value.
pub proof fn lemma_extract_fenced(s: Seq<char>, b: int, m: JsonModel)
    requires
        wf_json(m),
        sp_find_fence(s, 0) is Some,
        0 <= sp_find_fence(s, 0)->Some_0.0 <= b,
        b + sp_ser(m).len() <= sp_find_fence(s, 0)->Some_0.1 <= s.len(),
        forall|k: int|
            sp_find_fence(s, 0)->Some_0.0 <= k < b ==> is_json_ws(#[trigger] s[k]),
        forall|k: int|
            b + sp_ser(m).len() <= k < sp_find_fence(s, 0)->Some_0.1 ==> is_json_ws(
                #[trigger] s[k],
            ),
        s.subrange(b, b + sp_ser(m).len()) == sp_ser(m),
    ensures
        sp_extract(s) == Ok::<JsonModel, ExtractionError>(m),
{
    let (cs, ce) = sp_find_fence(s, 0)->Some_0;
    let sub = s.subrange(cs, ce);
    let off = b - cs;
    let len = sp_ser(m).len() as int;
    assert forall|k: int| 0 <= k < len implies sub[off + k] == sp_ser(m)[k] by {
        assert(sub[off + k] == s[cs + (off + k)]);
        assert(s.subrange(b, b + len)[k] == s[b + k]);
    }
    assert(sub.subrange(off, off + len) =~= sp_ser(m));
    assert(sub_at(sub, off, sp_ser(m)));
    lemma_ser_head(m);
    lemma_value_start_facts(sp_ser(m)[0]);
    if m is Number {
        if off + len < sub.len() {
            assert(sub[off + len] == s[b + len]);
            assert(is_json_ws(sub[off + len]));
            assert(!is_num_char(sub[off + len]));
        }
    }
    lemma_rt_value(sub, off, m);
    assert forall|k: int| 0 <= k < off implies is_json_ws(#[trigger] sub[k]) by {
        assert(sub[k] == s[cs + k]);
    }
    assert(sub[off] == sp_ser(m)[0]) by {
        assert(sub.subrange(off, off + len)[0] == sub[off]);
    }
    lemma_ws_run(sub, 0, off);
    lemma_parse_value_skip(sub, 0);
    assert forall|k: int| off + len <= k < sub.len() implies is_json_ws(#[trigger] sub[k]) by {
        assert(sub[k] == s[cs + k]);
    }
    lemma_ws_run(sub, off + len, sub.len() as int);
}

/// The depth-counting law: in fenceless text, a rendered well-formed object
/// standing at the first brace is extracted exactly, whatever surrounds it
/// — braces inside its string values included, since the parse tracks
/// string literals.
pub proof fn lemma_extract_embedded(s: Seq<char>, m: JsonModel)
    requires
        wf_json(m),
        m is Object,
        sp_find_fence(s, 0) is None,
        sub_at(s, sp_find_brace(s, 0), sp_ser(m)),
    ensures
        sp_extract(s) == Ok::<JsonModel, ExtractionError>(m),
{
    let b = sp_find_brace(s, 0);
    lemma_ser_head(m);
    assert(b < s.len());
    lemma_rt_value(s, b, m);
}

/// The fenced-block law at the batch level: when the fence's content
/// renders a well-formed value that denotes a batch, the extractor returns
/// exactly that batch.
pub proof fn lemma_extract_fenced_action_set(s: Seq<char>, b: int, m: JsonModel, a: ActionSetModel)
    requires
        wf_json(m),
        sp_find_fence(s, 0) is Some,
        0 <= sp_find_fence(s, 0)->Some_0.0 <= b,
        b + sp_ser(m).len() <= sp_find_fence(s, 0)->Some_0.1 <= s.len(),
        forall|k: int|
            sp_find_fence(s, 0)->Some_0.0 <= k < b ==> is_json_ws(#[trigger] s[k]),
        forall|k: int|
            b + sp_ser(m).len() <= k < sp_find_fence(s, 0)->Some_0.1 ==> is_json_ws(
                #[trigger] s[k],
            ),
        s.subrange(b, b + sp_ser(m).len()) == sp_ser(m),
        sp_action_set_from_json(m) == Some(a),
    ensures
        sp_extract_action_set(s) == Ok::<ActionSetModel, ExtractionError>(a),
{
    lemma_extract_fenced(s, b, m);
}

/// The depth-counting law at the batch level: a rendered batch object at
/// the first brace of fenceless text is extracted exactly.
pub proof fn lemma_extract_embedded_action_set(s: Seq<char>, m: JsonModel, a: ActionSetModel)
    requires
        wf_json(m),
        m is Object,
        sp_find_fence(s, 0) is None,
        sub_at(s, sp_find_brace(s, 0), sp_ser(m)),
        sp_action_set_from_json(m) == Some(a),
    ensures
        sp_extract_action_set(s) == Ok::<ActionSetModel, ExtractionError>(a),
{
    lemma_extract_embedded(s, m);
}

/// The no-object law: text with no fenced block and no opening brace at all
/// fails with `NoJsonFound`.
pub proof fn lemma_no_json_found(s: Seq<char>)
    requires
        sp_find_fence(s, 0) is None,
        sp_find_brace(s, 0) == s.len(),
    ensures
        sp_extract(s) == Err::<JsonModel, ExtractionError>(ExtractionError::NoJsonFound),
{
}

} // verus!
