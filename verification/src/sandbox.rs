//! The path sandbox: lexical normalization and the working-directory check.
//!
//! A candidate path is joined onto the working directory (unless it is
//! absolute), its `.` and `..` components are collapsed lexically, and the
//! result is accepted only if the working directory's own components are a
//! prefix of it.  This is the lexical policy: it needs no file system and
//! covers paths that do not exist yet, but it does not chase symbolic links;
//! the caller is expected to hand in a canonical working directory.

use vstd::prelude::*;
use crate::json::chars_to_string;
use crate::json::str_to_chars;

verus! {

/// Sandbox rejection: the path would leave the working directory.
#[derive(PartialEq, Eq, Structural, Clone, Copy, Debug)]
pub enum PathError {
    UnsafePath,
}

/// The first `/` at or after `i`, or the length if there is none.
pub open spec fn sp_find_slash(s: Seq<char>, i: int) -> int
    decreases s.len() - i,
{
    if 0 <= i < s.len() {
        if s[i] == '/' {
            i
        } else {
            sp_find_slash(s, i + 1)
        }
    } else {
        s.len() as int
    }
}

/// The pieces of `s` between `/` separators, from position `i` on.  Empty
/// pieces (leading slash, doubled slashes, trailing slash) are kept here and
/// dropped by normalization.
pub open spec fn sp_split_from(s: Seq<char>, i: int) -> Seq<Seq<char>>
    decreases s.len() - i,
{
    if 0 <= i <= s.len() {
        let f = sp_find_slash(s, i);
        if i <= f < s.len() {
            seq![s.subrange(i, f)] + sp_split_from(s, f + 1)
        } else {
            seq![s.subrange(i, s.len() as int)]
        }
    } else {
        Seq::empty()
    }
}

/// All pieces of `s` between `/` separators.
pub open spec fn sp_split(s: Seq<char>) -> Seq<Seq<char>> {
    sp_split_from(s, 0)
}

/// One step of lexical normalization: empty pieces and `.` vanish, `..`
/// removes the last kept component (or nothing at the root), anything else
/// is kept.
pub open spec fn sp_norm_step(acc: Seq<Seq<char>>, c: Seq<char>) -> Seq<Seq<char>> {
    if c.len() == 0 || c == seq!['.'] {
        acc
    } else if c == seq!['.', '.'] {
        if acc.len() > 0 {
            acc.drop_last()
        } else {
            acc
        }
    } else {
        acc.push(c)
    }
}

/// Lexical normalization of a component list, left to right.
pub open spec fn sp_norm(comps: Seq<Seq<char>>) -> Seq<Seq<char>>
    decreases comps.len(),
{
    if comps.len() == 0 {
        Seq::empty()
    } else {
        sp_norm_step(sp_norm(comps.drop_last()), comps.last())
    }
}

/// The normalized components the candidate resolves to: its own if it is
/// absolute, the working directory's followed by its own otherwise.
pub open spec fn sp_resolved(cwd: Seq<char>, path: Seq<char>) -> Seq<Seq<char>> {
    if path.len() > 0 && path[0] == '/' {
        sp_norm(sp_split(path))
    } else {
        sp_norm(sp_split(cwd) + sp_split(path))
    }
}

/// The candidate stays inside the working directory: the directory's
/// normalized components are a prefix of what the candidate resolves to.
pub open spec fn sp_is_safe(cwd: Seq<char>, path: Seq<char>) -> bool {
    sp_norm(sp_split(cwd)).is_prefix_of(sp_resolved(cwd, path))
}

/// The absolute rendering of a normalized component list.
pub open spec fn sp_join(comps: Seq<Seq<char>>) -> Seq<char>
    decreases comps.len(),
{
    if comps.len() == 0 {
        seq!['/']
    } else if comps.len() == 1 {
        seq!['/'] + comps[0]
    } else {
        sp_join(comps.drop_last()) + seq!['/'] + comps.last()
    }
}

/// What the sandbox hands back on success: the rendering of the resolved
/// components.
pub open spec fn sp_resolved_str(cwd: Seq<char>, path: Seq<char>) -> Seq<char> {
    sp_join(sp_resolved(cwd, path))
}

/// A string without separators has no slash to find.
proof fn lemma_find_slash_none(s: Seq<char>, i: int)
    requires
        0 <= i <= s.len(),
        forall|k: int| 0 <= k < s.len() ==> s[k] != '/',
    ensures
        sp_find_slash(s, i) == s.len(),
    decreases s.len() - i,
{
    if i < s.len() {
        lemma_find_slash_none(s, i + 1);
    }
}

/// A string without separators is one single component.
proof fn lemma_split_no_slash(p: Seq<char>)
    requires
        forall|k: int| 0 <= k < p.len() ==> p[k] != '/',
    ensures
        sp_split(p) == seq![p],
{
    lemma_find_slash_none(p, 0);
    assert(p.subrange(0, p.len() as int) =~= p);
}

/// A bare filename — no separator, and neither `.` nor `..` — is always
/// accepted by the sandbox, and lands directly under the working directory.
pub proof fn lemma_bare_filename_safe(cwd: Seq<char>, p: Seq<char>)
    requires
        p.len() > 0,
        forall|k: int| 0 <= k < p.len() ==> p[k] != '/',
        p != seq!['.'],
        p != seq!['.', '.'],
    ensures
        sp_is_safe(cwd, p),
        sp_resolved(cwd, p) == sp_norm(sp_split(cwd)).push(p),
{
    lemma_split_no_slash(p);
    let base = sp_norm(sp_split(cwd));
    let whole = sp_split(cwd) + seq![p];
    assert(whole.drop_last() =~= sp_split(cwd));
    assert(whole.last() == p);
    assert(sp_norm(whole) == sp_norm_step(base, p));
    assert(p[0] != '/');
    assert(sp_resolved(cwd, p) == base.push(p));
    assert(base =~= base.push(p).subrange(0, base.len() as int));
    assert(base.is_prefix_of(base.push(p)));
}

/// A lone `..` climbs out of any working directory that has at least one
/// component, and the sandbox rejects it: the join of `cwd` and the
/// candidate normalizes to the directory's parent, which the directory's
/// own components no longer prefix.
pub proof fn lemma_dotdot_escapes(cwd: Seq<char>, p: Seq<char>)
    requires
        p == seq!['.', '.'],
        sp_norm(sp_split(cwd)).len() > 0,
    ensures
        !sp_is_safe(cwd, p),
        sp_resolved(cwd, p) == sp_norm(sp_split(cwd)).drop_last(),
{
    lemma_split_no_slash(p);
    let base = sp_norm(sp_split(cwd));
    let whole = sp_split(cwd) + seq![p];
    assert(whole.drop_last() =~= sp_split(cwd));
    assert(whole.last() == p);
    assert(sp_norm(whole) == base.drop_last());
    assert(p[0] == '.');
    assert(sp_resolved(cwd, p) == base.drop_last());
    assert(!base.is_prefix_of(base.drop_last()));
}

/// Finds the next `/`.
fn find_slash(s: &Vec<char>, i: usize) -> (r: usize)
    requires
        i <= s@.len(),
    ensures
        r as int == sp_find_slash(s@, i as int),
        i <= r <= s@.len(),
        r < s@.len() ==> s@[r as int] == '/',
{
    let mut p = i;
    while p < s.len() && s[p] != '/'
        invariant
            i <= p <= s@.len(),
            sp_find_slash(s@, i as int) == sp_find_slash(s@, p as int),
        decreases s@.len() - p,
    {
        p = p + 1;
    }
    p
}

/// Splits on `/`.
#[verifier::loop_isolation(false)]
fn split_path(s: &Vec<char>) -> (r: Vec<Vec<char>>)
    ensures
        r@.len() == sp_split(s@).len(),
        forall|q: int| 0 <= q < r@.len() ==> #[trigger] r@[q]@ == sp_split(s@)[q],
{
    let mut r: Vec<Vec<char>> = Vec::new();
    let mut start: usize = 0;
    loop
        invariant
            start <= s@.len(),
            sp_split(s@) == Seq::new(r@.len(), |q: int| if 0 <= q < r@.len() {
                r@[q]@
            } else {
                Seq::<char>::empty()
            }) + sp_split_from(s@, start as int),
        decreases s@.len() - start,
    {
        let ghost pre = Seq::new(r@.len(), |q: int| if 0 <= q < r@.len() {
            r@[q]@
        } else {
            Seq::<char>::empty()
        });
        let f = find_slash(s, start);
        let piece = crate::parse::subvec(s, start, f);
        r.push(piece);
        let ghost post = Seq::new(r@.len(), |q: int| if 0 <= q < r@.len() {
            r@[q]@
        } else {
            Seq::<char>::empty()
        });
        proof {
            assert(post =~= pre + seq![s@.subrange(start as int, f as int)]);
        }
        if f < s.len() {
            proof {
                assert(sp_split_from(s@, start as int) == seq![
                    s@.subrange(start as int, f as int),
                ] + sp_split_from(s@, f + 1 as int));
                assert(pre + (seq![s@.subrange(start as int, f as int)] + sp_split_from(
                    s@,
                    f + 1 as int,
                )) =~= post + sp_split_from(s@, f + 1 as int));
            }
            start = f + 1;
        } else {
            proof {
                assert(sp_split_from(s@, start as int) == seq![
                    s@.subrange(start as int, s@.len() as int),
                ]);
                assert(pre + seq![s@.subrange(start as int, s@.len() as int)] =~= post);
                assert(sp_split(s@) =~= post);
                assert forall|q: int| 0 <= q < r@.len() implies #[trigger] r@[q]@ == sp_split(
                    s@,
                )[q] by {
                    assert(sp_split(s@)[q] == post[q]);
                }
            }
            return r;
        }
    }
}

/// Is the component exactly `.`?
fn is_dot(c: &Vec<char>) -> (r: bool)
    ensures
        r == (c@ == seq!['.']),
{
    let r = c.len() == 1 && c[0] == '.';
    proof {
        if r {
            assert(c@ =~= seq!['.']);
        }
        if c@ == seq!['.'] {
            assert(c@.len() == 1);
        }
    }
    r
}

/// Is the component exactly `..`?
fn is_dot_dot(c: &Vec<char>) -> (r: bool)
    ensures
        r == (c@ == seq!['.', '.']),
{
    let r = c.len() == 2 && c[0] == '.' && c[1] == '.';
    proof {
        if r {
            assert(c@ =~= seq!['.', '.']);
        }
        if c@ == seq!['.', '.'] {
            assert(c@.len() == 2);
        }
    }
    r
}

/// The views of a component list.
pub open spec fn comp_views(r: Seq<Vec<char>>) -> Seq<Seq<char>> {
    Seq::new(r.len(), |q: int| if 0 <= q < r.len() {
        r[q]@
    } else {
        Seq::<char>::empty()
    })
}

/// Normalizes a component list, left to right.
#[verifier::loop_isolation(false)]
fn normalize(comps: &Vec<Vec<char>>) -> (r: Vec<Vec<char>>)
    ensures
        comp_views(r@) == sp_norm(comp_views(comps@)),
{
    let mut stack: Vec<Vec<char>> = Vec::new();
    let mut i: usize = 0;
    proof {
        assert(comp_views(comps@).take(0) =~= Seq::<Seq<char>>::empty());
        assert(comp_views(stack@) =~= sp_norm(comp_views(comps@).take(0)));
    }
    while i < comps.len()
        invariant
            i <= comps@.len(),
            comp_views(stack@) == sp_norm(comp_views(comps@).take(i as int)),
        decreases comps@.len() - i,
    {
        let ghost pre = comp_views(stack@);
        let c = &comps[i];
        if c.len() == 0 || is_dot(c) {
        } else if is_dot_dot(c) {
            if stack.len() > 0 {
                stack.pop();
                proof {
                    assert(comp_views(stack@) =~= pre.drop_last());
                }
            }
        } else {
            let mut copy: Vec<char> = Vec::new();
            let mut k: usize = 0;
            while k < c.len()
                invariant
                    k <= c@.len(),
                    copy@ == c@.subrange(0, k as int),
                decreases c@.len() - k,
            {
                copy.push(c[k]);
                k = k + 1;
                proof {
                    assert(copy@ =~= c@.subrange(0, k as int));
                }
            }
            proof {
                assert(copy@ =~= c@);
            }
            stack.push(copy);
            proof {
                assert(comp_views(stack@) =~= pre.push(c@));
            }
        }
        i = i + 1;
        proof {
            assert(comp_views(comps@).take(i as int).drop_last() =~= comp_views(comps@).take(
                i - 1 as int,
            ));
            assert(comp_views(comps@).take(i as int).last() == comps@[i - 1 as int]@);
            assert(sp_norm(comp_views(comps@).take(i as int)) == sp_norm_step(
                sp_norm(comp_views(comps@).take(i - 1 as int)),
                comps@[i - 1 as int]@,
            ));
        }
    }
    proof {
        assert(comp_views(comps@).take(comps@.len() as int) =~= comp_views(comps@));
    }
    stack
}

/// Renders a normalized component list as an absolute path.
#[verifier::loop_isolation(false)]
fn join_components(comps: &Vec<Vec<char>>) -> (r: Vec<char>)
    ensures
        r@ == sp_join(comp_views(comps@)),
{
    if comps.len() == 0 {
        let mut out: Vec<char> = Vec::new();
        out.push('/');
        proof {
            assert(comp_views(comps@).len() == 0);
            assert(out@ =~= sp_join(comp_views(comps@)));
        }
        return out;
    }
    let mut out: Vec<char> = Vec::new();
    let mut i: usize = 0;
    while i < comps.len()
        invariant
            0 < comps@.len(),
            i <= comps@.len(),
            i == 0 ==> out@ == Seq::<char>::empty(),
            i > 0 ==> out@ == sp_join(comp_views(comps@).take(i as int)),
        decreases comps@.len() - i,
    {
        let ghost pre = out@;
        out.push('/');
        let c = &comps[i];
        let mut k: usize = 0;
        while k < c.len()
            invariant
                k <= c@.len(),
                out@ == pre + seq!['/'] + c@.subrange(0, k as int),
            decreases c@.len() - k,
        {
            out.push(c[k]);
            k = k + 1;
            proof {
                assert(out@ =~= pre + seq!['/'] + c@.subrange(0, k as int));
            }
        }
        proof {
            assert(c@.subrange(0, c@.len() as int) =~= c@);
        }
        i = i + 1;
        proof {
            let t = comp_views(comps@).take(i as int);
            assert(t.last() == comps@[i - 1 as int]@);
            if i == 1 {
                assert(t.len() == 1);
                assert(t[0] == comps@[0]@);
                assert(out@ =~= seq!['/'] + t[0]);
                assert(sp_join(t) == seq!['/'] + t[0]);
            } else {
                assert(t.drop_last() =~= comp_views(comps@).take(i - 1 as int));
                assert(sp_join(t) == sp_join(t.drop_last()) + seq!['/'] + t.last());
                assert(out@ =~= sp_join(t.drop_last()) + seq!['/'] + t.last());
            }
        }
    }
    proof {
        assert(comp_views(comps@).take(comps@.len() as int) =~= comp_views(comps@));
    }
    out
}

/// Are the two component lists equal, component by component?
#[verifier::loop_isolation(false)]
fn comps_eq_prefix(cwd_comps: &Vec<Vec<char>>, resolved: &Vec<Vec<char>>) -> (r: bool)
    ensures
        r == comp_views(cwd_comps@).is_prefix_of(comp_views(resolved@)),
{
    if cwd_comps.len() > resolved.len() {
        proof {
            assert(!comp_views(cwd_comps@).is_prefix_of(comp_views(resolved@)));
        }
        return false;
    }
    let mut i: usize = 0;
    while i < cwd_comps.len()
        invariant
            i <= cwd_comps@.len() <= resolved@.len(),
            forall|q: int| 0 <= q < i ==> #[trigger] comp_views(cwd_comps@)[q] == comp_views(
                resolved@,
            )[q],
        decreases cwd_comps@.len() - i,
    {
        let a = &cwd_comps[i];
        let b = &resolved[i];
        if a.len() != b.len() {
            proof {
                assert(comp_views(cwd_comps@)[i as int] != comp_views(resolved@)[i as int]);
                assert(!comp_views(cwd_comps@).is_prefix_of(comp_views(resolved@)));
            }
            return false;
        }
        let mut k: usize = 0;
        while k < a.len()
            invariant
                k <= a@.len(),
                a@.len() == b@.len(),
                i < cwd_comps@.len() <= resolved@.len(),
                forall|q: int| 0 <= q < k ==> a@[q] == b@[q],
            decreases a@.len() - k,
        {
            if a[k] != b[k] {
                proof {
                    assert(a@ != b@);
                    assert(comp_views(cwd_comps@)[i as int] != comp_views(resolved@)[i as int]);
                    assert(!comp_views(cwd_comps@).is_prefix_of(comp_views(resolved@)));
                }
                return false;
            }
            k = k + 1;
        }
        proof {
            assert(a@ =~= b@);
        }
        i = i + 1;
    }
    proof {
        assert(comp_views(cwd_comps@).is_prefix_of(comp_views(resolved@))) by {
            assert(forall|q: int| 0 <= q < cwd_comps@.len() ==> #[trigger] comp_views(cwd_comps@)[q]
                == comp_views(resolved@)[q]);
            assert(comp_views(cwd_comps@) =~= comp_views(resolved@).subrange(
                0,
                cwd_comps@.len() as int,
            ));
        }
    }
    true
}

/// Normalizes a candidate path against the working directory and accepts it
/// only if it stays inside: the lexical sandbox.  On success the returned
/// path is the absolute rendering of the resolved components, which the
/// working directory's components prefix.
pub fn sanitize_and_resolve_path(cwd: &str, path_str: &str) -> (r: Result<String, PathError>)
    ensures
        r is Ok <==> sp_is_safe(cwd@, path_str@),
        r is Ok ==> r->Ok_0@ == sp_resolved_str(cwd@, path_str@),
        r is Err ==> r->Err_0 == PathError::UnsafePath,
{
    let cwd_chars = str_to_chars(cwd);
    let path_chars = str_to_chars(path_str);
    let cwd_split = split_path(&cwd_chars);
    proof {
        assert(comp_views(cwd_split@) =~= sp_split(cwd@));
    }
    let cwd_comps = normalize(&cwd_split);
    let absolute = path_chars.len() > 0 && path_chars[0] == '/';
    let resolved: Vec<Vec<char>> = if absolute {
        let path_split = split_path(&path_chars);
        proof {
            assert(comp_views(path_split@) =~= sp_split(path_str@));
        }
        normalize(&path_split)
    } else {
        let mut joined = split_path(&cwd_chars);
        let path_comps = split_path(&path_chars);
        proof {
            assert(comp_views(joined@) =~= sp_split(cwd@));
            assert(comp_views(path_comps@) =~= sp_split(path_str@));
        }
        let ghost a = comp_views(joined@);
        let ghost b = comp_views(path_comps@);
        let mut k: usize = 0;
        while k < path_comps.len()
            invariant
                k <= path_comps@.len(),
                b == comp_views(path_comps@),
                comp_views(joined@) == a + b.take(k as int),
            decreases path_comps@.len() - k,
        {
            let mut copy: Vec<char> = Vec::new();
            let c = &path_comps[k];
            let mut q: usize = 0;
            while q < c.len()
                invariant
                    q <= c@.len(),
                    copy@ == c@.subrange(0, q as int),
                decreases c@.len() - q,
            {
                copy.push(c[q]);
                q = q + 1;
                proof {
                    assert(copy@ =~= c@.subrange(0, q as int));
                }
            }
            proof {
                assert(copy@ =~= c@);
            }
            let ghost pre = comp_views(joined@);
            joined.push(copy);
            k = k + 1;
            proof {
                assert(comp_views(joined@) =~= pre.push(b[k - 1 as int]));
                assert(a + b.take(k as int) =~= (a + b.take(k - 1 as int)).push(b[k - 1 as int]));
            }
        }
        proof {
            assert(b.take(b.len() as int) =~= b);
            assert(comp_views(joined@) =~= sp_split(cwd@) + sp_split(path_str@));
        }
        normalize(&joined)
    };
    proof {
        assert(comp_views(resolved@) == sp_resolved(cwd@, path_str@));
        assert(comp_views(cwd_comps@) == sp_norm(sp_split(cwd@)));
    }
    if comps_eq_prefix(&cwd_comps, &resolved) {
        let out = join_components(&resolved);
        Ok(chars_to_string(&out))
    } else {
        Err(PathError::UnsafePath)
    }
}

/// Prefixes a bare relative path with `./`, as the dispatcher hands paths
/// to the resolver; absolute paths and paths already written `./` or `../`
/// pass through.
pub open spec fn sp_sanitized(s: Seq<char>) -> Seq<char> {
    if s.len() > 0 && s[0] == '/' {
        s
    } else if s.len() >= 2 && s[0] == '.' && s[1] == '/' {
        s
    } else if s.len() >= 3 && s[0] == '.' && s[1] == '.' && s[2] == '/' {
        s
    } else {
        seq!['.', '/'] + s
    }
}

/// Normalizes the spelling of a candidate path before resolution.
pub fn sanitize_path_string(path_str: &str) -> (r: String)
    ensures
        r@ == sp_sanitized(path_str@),
{
    let chars = str_to_chars(path_str);
    let n = chars.len();
    if n > 0 && chars[0] == '/' {
        return chars_to_string(&chars);
    }
    if n >= 2 && chars[0] == '.' && chars[1] == '/' {
        return chars_to_string(&chars);
    }
    if n >= 3 && chars[0] == '.' && chars[1] == '.' && chars[2] == '/' {
        return chars_to_string(&chars);
    }
    let mut out: Vec<char> = Vec::new();
    out.push('.');
    out.push('/');
    let mut i: usize = 0;
    while i < n
        invariant
            n == chars@.len(),
            i <= n,
            out@ == seq!['.', '/'] + chars@.subrange(0, i as int),
        decreases n - i,
    {
        out.push(chars[i]);
        i = i + 1;
        proof {
            assert(out@ =~= seq!['.', '/'] + chars@.subrange(0, i as int));
        }
    }
    proof {
        assert(chars@.subrange(0, n as int) =~= chars@);
    }
    chars_to_string(&out)
}

} // verus!
