//! The output extractor: locating one JSON object inside loosely formatted
//! model text.
//!
//! Two strategies, first success wins.  A fenced block delimited by triple
//! backticks (optionally tagged `json`) whose content opens with a brace is
//! parsed whole; a deserialization failure there is final.  Otherwise the
//! text is scanned from its first `{` with brace-depth counting that honours
//! string literals and escapes; if a balanced object span exists, the value
//! is parsed at that brace, and if no balanced span exists at all the text
//! holds no JSON object.

use vstd::prelude::*;
use crate::json::JsonModel;
use crate::json::JsonValue;
use crate::json::str_to_chars;
use crate::parse::parse_text;
use crate::parse::parse_value;
use crate::parse::skip_ws;
use crate::parse::sp_parse_text;
use crate::parse::sp_parse_value;
use crate::parse::sp_skip_ws;
use crate::parse::subvec;

verus! {

/// Why extraction failed: no brace-balanced object anywhere, a located
/// object span that is not valid JSON, or a valid JSON value that does not
/// have the required shape (a missing field or a wrongly typed one).
#[derive(PartialEq, Eq, Structural, Clone, Copy, Debug)]
pub enum ExtractionError {
    NoJsonFound,
    MalformedJson,
    InvalidShape,
}

/// The first triple-backtick at or after `i`, or the length if none.
pub open spec fn sp_find_triple(s: Seq<char>, i: int) -> int
    decreases s.len() - i,
{
    if 0 <= i && i + 3 <= s.len() {
        if s[i] == '`' && s[i + 1] == '`' && s[i + 2] == '`' {
            i
        } else {
            sp_find_triple(s, i + 1)
        }
    } else {
        s.len() as int
    }
}

/// The first `{` at or after `i`, or the length if none.
pub open spec fn sp_find_brace(s: Seq<char>, i: int) -> int
    decreases s.len() - i,
{
    if 0 <= i < s.len() {
        if s[i] == '{' {
            i
        } else {
            sp_find_brace(s, i + 1)
        }
    } else {
        s.len() as int
    }
}

/// The content span of the first fenced block, at or after `i`, whose
/// content (after an optional `json` tag and whitespace) opens with `{`.
pub open spec fn sp_find_fence(s: Seq<char>, i: int) -> Option<(int, int)>
    decreases s.len() - i,
{
    if 0 <= i <= s.len() {
        let o = sp_find_triple(s, i);
        if i <= o && o < s.len() {
            let cs0 = o + 3;
            let cs = if cs0 + 4 <= s.len() && s[cs0] == 'j' && s[cs0 + 1] == 's' && s[cs0 + 2]
                == 'o' && s[cs0 + 3] == 'n' {
                cs0 + 4
            } else {
                cs0
            };
            if cs <= s.len() {
                let c = sp_find_triple(s, cs);
                if cs <= c && c <= s.len() {
                    let w = sp_skip_ws(s, cs);
                    if cs <= w && w < c && s[w] == '{' {
                        Some((cs, c))
                    } else if c + 3 <= s.len() {
                        sp_find_fence(s, c + 3)
                    } else {
                        None
                    }
                } else {
                    None
                }
            } else {
                None
            }
        } else {
            None
        }
    } else {
        None
    }
}

/// The end of the brace-balanced span that starts one past a `{`: scanning
/// with `depth` open braces, skipping string literals and their escapes.
pub open spec fn sp_scan_balanced(s: Seq<char>, i: int, depth: int, in_str: bool, esc: bool) -> Option<int>
    decreases s.len() - i,
{
    if 0 <= i < s.len() {
        let c = s[i];
        if in_str {
            if esc {
                sp_scan_balanced(s, i + 1, depth, true, false)
            } else if c == '\\' {
                sp_scan_balanced(s, i + 1, depth, true, true)
            } else if c == '"' {
                sp_scan_balanced(s, i + 1, depth, false, false)
            } else {
                sp_scan_balanced(s, i + 1, depth, true, false)
            }
        } else {
            if c == '{' {
                sp_scan_balanced(s, i + 1, depth + 1, false, false)
            } else if c == '}' {
                if depth == 1 {
                    Some(i + 1)
                } else {
                    sp_scan_balanced(s, i + 1, depth - 1, false, false)
                }
            } else if c == '"' {
                sp_scan_balanced(s, i + 1, depth, true, false)
            } else {
                sp_scan_balanced(s, i + 1, depth, false, false)
            }
        }
    } else {
        None
    }
}

/// What extraction yields on the given text.
pub open spec fn sp_extract(s: Seq<char>) -> Result<JsonModel, ExtractionError> {
    match sp_find_fence(s, 0) {
        Some((cs, ce)) => match sp_parse_text(s.subrange(cs, ce)) {
            Some(m) => Ok(m),
            None => Err(ExtractionError::MalformedJson),
        },
        None => {
            let b = sp_find_brace(s, 0);
            if b < s.len() {
                match sp_parse_value(s, b) {
                    Some((m, e)) => Ok(m),
                    None => {
                        if sp_scan_balanced(s, b + 1, 1, false, false) is Some {
                            Err(ExtractionError::MalformedJson)
                        } else {
                            Err(ExtractionError::NoJsonFound)
                        }
                    },
                }
            } else {
                Err(ExtractionError::NoJsonFound)
            }
        },
    }
}

/// Finds the next triple backtick.
fn find_triple(s: &Vec<char>, i: usize) -> (r: usize)
    requires
        i <= s@.len(),
    ensures
        r as int == sp_find_triple(s@, i as int),
        i <= r <= s@.len(),
        r < s@.len() ==> r + 3 <= s@.len(),
{
    let n = s.len();
    let mut p = i;
    loop
        invariant
            i <= p <= s@.len(),
            n == s@.len(),
            sp_find_triple(s@, i as int) == sp_find_triple(s@, p as int),
        decreases s@.len() - p,
    {
        if p == n || n - p < 3 {
            return n;
        }
        if s[p] == '`' && s[p + 1] == '`' && s[p + 2] == '`' {
            return p;
        }
        p = p + 1;
    }
}

/// Finds the next opening brace.
fn find_brace(s: &Vec<char>, i: usize) -> (r: usize)
    requires
        i <= s@.len(),
    ensures
        r as int == sp_find_brace(s@, i as int),
        i <= r <= s@.len(),
        r < s@.len() ==> s@[r as int] == '{',
{
    let n = s.len();
    let mut p = i;
    while p < n && s[p] != '{'
        invariant
            i <= p <= s@.len(),
            n == s@.len(),
            sp_find_brace(s@, i as int) == sp_find_brace(s@, p as int),
        decreases s@.len() - p,
    {
        p = p + 1;
    }
    p
}

/// Finds the first matching fenced block.
#[verifier::loop_isolation(false)]
fn find_fence(s: &Vec<char>) -> (r: Option<(usize, usize)>)
    ensures
        match r {
            Some((cs, ce)) => sp_find_fence(s@, 0) == Some((cs as int, ce as int)) && cs <= ce
                <= s@.len(),
            None => sp_find_fence(s@, 0) is None,
        },
{
    let n = s.len();
    let mut i: usize = 0;
    loop
        invariant
            i <= s@.len(),
            n == s@.len(),
            sp_find_fence(s@, 0) == sp_find_fence(s@, i as int),
        decreases s@.len() - i,
    {
        let o = find_triple(s, i);
        if o == n {
            return None;
        }
        let cs0 = o + 3;
        let cs: usize = if n - cs0 >= 4 && s[cs0] == 'j' && s[cs0 + 1] == 's' && s[cs0 + 2] == 'o'
            && s[cs0 + 3] == 'n' {
            cs0 + 4
        } else {
            cs0
        };
        let c = find_triple(s, cs);
        let w = skip_ws(s, cs);
        if w < c && s[w] == '{' {
            return Some((cs, c));
        }
        if n - c >= 3 {
            i = c + 3;
        } else {
            return None;
        }
    }
}

/// Scans for the balanced closing brace.
fn scan_balanced(s: &Vec<char>, i: usize) -> (r: Option<usize>)
    requires
        i <= s@.len(),
    ensures
        match r {
            Some(e) => sp_scan_balanced(s@, i as int, 1, false, false) == Some(e as int),
            None => sp_scan_balanced(s@, i as int, 1, false, false) is None,
        },
{
    let n = s.len();
    let mut p = i;
    let mut depth: u128 = 1;
    let mut in_str = false;
    let mut esc = false;
    loop
        invariant
            i <= p <= s@.len(),
            n == s@.len(),
            depth >= 1,
            depth <= p - i + 1,
            !in_str ==> !esc,
            sp_scan_balanced(s@, i as int, 1, false, false) == sp_scan_balanced(
                s@,
                p as int,
                depth as int,
                in_str,
                esc,
            ),
        decreases s@.len() - p,
    {
        if p == n {
            return None;
        }
        let c = s[p];
        let ghost d0 = depth as int;
        let ghost is0 = in_str;
        let ghost e0 = esc;
        if in_str {
            if esc {
                esc = false;
            } else if c == '\\' {
                esc = true;
            } else if c == '"' {
                in_str = false;
            }
        } else {
            if c == '{' {
                depth = depth + 1;
            } else if c == '}' {
                if depth == 1 {
                    return Some(p + 1);
                }
                depth = depth - 1;
            } else if c == '"' {
                in_str = true;
            }
        }
        p = p + 1;
        proof {
            assert(sp_scan_balanced(s@, p - 1 as int, d0, is0, e0) == sp_scan_balanced(
                s@,
                p as int,
                depth as int,
                in_str,
                esc,
            ));
        }
    }
}

/// Extracts one JSON value from loosely formatted text: the first matching
/// fenced block if there is one, else the value at the first `{`.
pub fn extract_json(output: &str) -> (r: Result<JsonValue, ExtractionError>)
    ensures
        match r {
            Ok(v) => sp_extract(output@) == Ok::<JsonModel, ExtractionError>(v@),
            Err(e) => sp_extract(output@) == Err::<JsonModel, ExtractionError>(e),
        },
{
    let chars = str_to_chars(output);
    match find_fence(&chars) {
        Some((cs, ce)) => {
            let content = subvec(&chars, cs, ce);
            match parse_text(&content) {
                Some(v) => Ok(v),
                None => Err(ExtractionError::MalformedJson),
            }
        },
        None => {
            let b = find_brace(&chars, 0);
            if b == chars.len() {
                return Err(ExtractionError::NoJsonFound);
            }
            match parse_value(&chars, b) {
                Some((v, _e)) => Ok(v),
                None => {
                    match scan_balanced(&chars, b + 1) {
                        Some(_) => Err(ExtractionError::MalformedJson),
                        None => Err(ExtractionError::NoJsonFound),
                    }
                },
            }
        },
    }
}

} // verus!
