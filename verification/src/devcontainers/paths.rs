//! Host path arithmetic (Unix paths, by characters).

use vstd::prelude::*;
use crate::text::{chars_of, concat2, concat3, join, join_spec, owned, string_of};

verus! {

/// A path that starts at the root (`Path::is_absolute` on Unix).
pub open spec fn is_absolute_spec(p: Seq<char>) -> bool {
    p.len() > 0 && p[0] == '/'
}

/// `base.join(p)` (`PathBuf::push`): an absolute `p` replaces `base`; otherwise
/// `p` is appended, with a `/` between them unless `base` is empty or already
/// ends with one.
pub open spec fn path_join_spec(base: Seq<char>, p: Seq<char>) -> Seq<char> {
    if is_absolute_spec(p) {
        p
    } else if base.len() == 0 || base.last() == '/' {
        base + p
    } else {
        base + "/"@ + p
    }
}

/// Whether `p` is absolute.
pub fn is_absolute(p: &str) -> (r: bool)
    ensures
        r == is_absolute_spec(p@),
{
    let v = chars_of(p);
    v.len() > 0 && v[0] == '/'
}

/// `base.join(p)`.
pub fn path_join(base: &str, p: &str) -> (r: String)
    ensures
        r@ == path_join_spec(base@, p@),
{
    if is_absolute(p) {
        return owned(p);
    }
    let v = chars_of(base);
    if v.len() == 0 || v[v.len() - 1] == '/' {
        concat2(base, p)
    } else {
        concat3(base, "/", p)
    }
}

/// The pieces of `s` between `/` characters (`s.split('/')`).
pub open spec fn slash_pieces(s: Seq<char>) -> Seq<Seq<char>>
    decreases s.len(),
{
    if s.len() == 0 {
        seq![Seq::empty()]
    } else {
        let pieces = slash_pieces(s.drop_last());
        if s.last() == '/' {
            pieces.push(Seq::empty())
        } else {
            pieces.update(pieces.len() - 1, pieces.last().push(s.last()))
        }
    }
}

/// A piece that names something (neither empty nor `.`).
pub open spec fn is_named_piece(p: Seq<char>) -> bool {
    p.len() != 0 && p != seq!['.']
}

/// The path's components with `.` and `..` resolved lexically: `..` removes the
/// component before it, if any.
pub open spec fn resolved_components(pieces: Seq<Seq<char>>) -> Seq<Seq<char>>
    decreases pieces.len(),
{
    if pieces.len() == 0 {
        Seq::empty()
    } else {
        let prev = resolved_components(pieces.drop_last());
        let p = pieces.last();
        if !is_named_piece(p) {
            prev
        } else if p == seq!['.', '.'] {
            if prev.len() > 0 { prev.drop_last() } else { prev }
        } else {
            prev.push(p)
        }
    }
}

/// The components of `p` after lexical resolution.
pub open spec fn normal_components(p: Seq<char>) -> Seq<Seq<char>> {
    resolved_components(slash_pieces(p))
}

/// The text of a resolved path: `/` before the components when `absolute`.
pub open spec fn normal_text(absolute: bool, comps: Seq<Seq<char>>) -> Seq<char> {
    (if absolute { "/"@ } else { Seq::empty() }) + join_spec(comps, "/"@)
}

/// `path` (taken relative to `root` when it is relative) lies inside `root`:
/// the resolved components of `root` are a prefix of those of the joined path.
pub open spec fn within_root_spec(root: Seq<char>, path: Seq<char>) -> bool {
    let rc = normal_components(root);
    let pc = normal_components(path_join_spec(root, path));
    rc.len() <= pc.len() && pc.take(rc.len() as int) == rc
}

/// The resolved text of `path` taken relative to `root`.
pub open spec fn resolved_path_spec(root: Seq<char>, path: Seq<char>) -> Seq<char> {
    let full = path_join_spec(root, path);
    normal_text(is_absolute_spec(full), normal_components(full))
}

/// The message when a path leaves the workspace root.
pub open spec fn outside_root_message(root: Seq<char>, path: Seq<char>) -> Seq<char> {
    "path '"@ + path + "' is outside the workspace root '"@ + root + "'"@
}

/// The pieces of `p` between `/` characters.
pub fn split_slashes(p: &str) -> (r: Vec<String>)
    ensures
        r.deep_view() == slash_pieces(p@),
{
    let v = chars_of(p);
    let mut out: Vec<String> = Vec::new();
    let mut start: usize = 0;
    let mut i: usize = 0;
    assert(v@.take(0) =~= Seq::<char>::empty());
    assert(out.deep_view().push(v@.subrange(0, 0)) =~= seq![Seq::<char>::empty()]);
    while i < v.len()
        invariant
            v@ == p@,
            start <= i <= v@.len(),
            start == 0 || v@[start - 1] == '/',
            forall|j: int| start <= j < i ==> v@[j] != '/',
            out.deep_view().push(v@.subrange(start as int, i as int)) == slash_pieces(v@.take(i as int)),
        decreases v@.len() - i,
    {
        let ghost before = out.deep_view();
        assert(v@.take(i + 1).drop_last() =~= v@.take(i as int));
        assert(v@.take(i + 1).last() == v@[i as int]);
        if v[i] == '/' {
            out.push(string_of(&v, start, i));
            start = i + 1;
            assert(v@.subrange(start as int, (i + 1) as int) =~= Seq::<char>::empty());
            assert(out.deep_view().push(v@.subrange(start as int, (i + 1) as int))
                =~= slash_pieces(v@.take(i as int)).push(Seq::empty()));
        } else {
            assert(v@.subrange(start as int, (i + 1) as int) =~= v@.subrange(start as int, i as int).push(v@[i as int]));
            assert(out.deep_view().push(v@.subrange(start as int, (i + 1) as int))
                =~= slash_pieces(v@.take(i as int)).update(
                    slash_pieces(v@.take(i as int)).len() - 1,
                    slash_pieces(v@.take(i as int)).last().push(v@[i as int]),
                ));
        }
        i = i + 1;
    }
    out.push(string_of(&v, start, v.len()));
    assert(v@.take(v@.len() as int) =~= p@);
    out
}

/// The components of `p` after lexical resolution of `.` and `..`.
pub fn normalize(p: &str) -> (r: Vec<String>)
    ensures
        r.deep_view() == normal_components(p@),
{
    let pieces = split_slashes(p);
    let ghost all = pieces.deep_view();
    let mut out: Vec<String> = Vec::new();
    let mut i: usize = 0;
    assert(all.take(0) =~= Seq::<Seq<char>>::empty());
    while i < pieces.len()
        invariant
            all == pieces.deep_view(),
            all == slash_pieces(p@),
            i <= pieces@.len(),
            out.deep_view() == resolved_components(all.take(i as int)),
        decreases pieces@.len() - i,
    {
        let piece = &pieces[i];
        let pv = chars_of(piece.as_str());
        let ghost before = out.deep_view();
        assert(all.take(i + 1).drop_last() =~= all.take(i as int));
        assert(all.take(i + 1).last() == piece@);
        let dot = pv.len() == 1 && pv[0] == '.';
        let dotdot = pv.len() == 2 && pv[0] == '.' && pv[1] == '.';
        proof {
            if dot { assert(piece@ =~= seq!['.']); }
            if !dot && pv@.len() == 1 { assert(piece@ != seq!['.'] ) by { if piece@ == seq!['.'] { assert(pv@[0] == '.'); } } }
            if dotdot { assert(piece@ =~= seq!['.', '.']); }
            if !dotdot && piece@ == seq!['.', '.'] { assert(pv@[0] == '.' && pv@[1] == '.'); }
        }
        if pv.len() == 0 || dot {
        } else if dotdot {
            if out.len() > 0 {
                out.pop();
                assert(out.deep_view() =~= before.drop_last());
            }
        } else {
            out.push(piece.clone());
            assert(out.deep_view() =~= before.push(piece@));
        }
        i = i + 1;
    }
    assert(all.take(pieces@.len() as int) =~= all);
    out
}

/// Component lists `a` is a prefix of `b`.
fn components_prefix(a: &Vec<String>, b: &Vec<String>) -> (r: bool)
    ensures
        r == (a.deep_view().len() <= b.deep_view().len()
            && b.deep_view().take(a.deep_view().len() as int) == a.deep_view()),
{
    if a.len() > b.len() {
        return false;
    }
    let mut i: usize = 0;
    while i < a.len()
        invariant
            a@.len() <= b@.len(),
            i <= a@.len(),
            forall|j: int| 0 <= j < i ==> a@[j]@ == b@[j]@,
        decreases a@.len() - i,
    {
        if !crate::text::str_eq(a[i].as_str(), b[i].as_str()) {
            assert(b.deep_view().take(a@.len() as int)[i as int] == b@[i as int]@);
            return false;
        }
        i = i + 1;
    }
    assert(b.deep_view().take(a.deep_view().len() as int) =~= a.deep_view());
    true
}

/// Resolve `path` against `root` lexically and require it to stay inside `root`.
///
/// A relative `path` is taken relative to `root`; `.` and `..` components are
/// resolved without reading the file system. Returns the resolved path, or the
/// message naming both paths when it leaves `root`.
pub fn validate_within_root(root: &str, path: &str) -> (r: Result<String, String>)
    ensures
        within_root_spec(root@, path@) ==> r is Ok && r->Ok_0@ == resolved_path_spec(root@, path@),
        !within_root_spec(root@, path@) ==> r is Err && r->Err_0@ == outside_root_message(root@, path@),
{
    let full = path_join(root, path);
    let rc = normalize(root);
    let pc = normalize(full.as_str());
    if components_prefix(&rc, &pc) {
        let joined = join(&pc, "/");
        if is_absolute(full.as_str()) {
            Ok(concat2("/", joined.as_str()))
        } else {
            assert(Seq::<char>::empty() + joined@ =~= joined@);
            Ok(joined)
        }
    } else {
        let a = concat3("path '", path, "' is outside the workspace root '");
        Err(concat3(a.as_str(), root, "'"))
    }
}

/// No character of `s` is `/`.
pub open spec fn slash_free(s: Seq<char>) -> bool {
    forall|i: int| 0 <= i < s.len() ==> s[i] != '/'
}

/// There is always at least one piece, and no piece holds a `/`.
proof fn lemma_pieces_slash_free(s: Seq<char>)
    ensures
        slash_pieces(s).len() >= 1,
        forall|k: int| 0 <= k < slash_pieces(s).len() ==> slash_free(#[trigger] slash_pieces(s)[k]),
    decreases s.len(),
{
    if s.len() > 0 {
        let prev = slash_pieces(s.drop_last());
        lemma_pieces_slash_free(s.drop_last());
        if s.last() == '/' {
            assert forall|k: int| 0 <= k < prev.push(Seq::<char>::empty()).len() implies
                slash_free(#[trigger] prev.push(Seq::<char>::empty())[k]) by {
                if k < prev.len() {
                    assert(prev.push(Seq::<char>::empty())[k] == prev[k]);
                }
            }
        } else {
            let n = prev.len() - 1;
            let q = prev.update(n, prev.last().push(s.last()));
            assert forall|k: int| 0 <= k < q.len() implies slash_free(#[trigger] q[k]) by {
                if k != n {
                    assert(q[k] == prev[k]);
                } else {
                    assert(slash_free(prev[n]));
                    assert forall|i: int| 0 <= i < q[k].len() implies q[k][i] != '/' by {
                        if i < prev[n].len() {
                            assert(q[k][i] == prev[n][i]);
                        }
                    }
                }
            }
        }
    }
}

/// Resolved components are named pieces other than `..`, and hold no `/` when
/// the pieces they come from hold none.
proof fn lemma_resolved_clean(pieces: Seq<Seq<char>>)
    requires
        forall|k: int| 0 <= k < pieces.len() ==> slash_free(#[trigger] pieces[k]),
    ensures
        forall|k: int| 0 <= k < resolved_components(pieces).len() ==> {
            let c = #[trigger] resolved_components(pieces)[k];
            slash_free(c) && is_named_piece(c) && c != seq!['.', '.']
        },
    decreases pieces.len(),
{
    if pieces.len() > 0 {
        let dl = pieces.drop_last();
        assert forall|k: int| 0 <= k < dl.len() implies slash_free(#[trigger] dl[k]) by {
            assert(dl[k] == pieces[k]);
        }
        lemma_resolved_clean(dl);
        let prev = resolved_components(dl);
        let p = pieces.last();
        assert(slash_free(p)) by {
            assert(p == pieces[pieces.len() - 1]);
        }
        if is_named_piece(p) && p != seq!['.', '.'] {
            assert forall|k: int| 0 <= k < prev.push(p).len() implies {
                let c = #[trigger] prev.push(p)[k];
                slash_free(c) && is_named_piece(c) && c != seq!['.', '.']
            } by {
                if k < prev.len() {
                    assert(prev.push(p)[k] == prev[k]);
                }
            }
        } else if is_named_piece(p) && prev.len() > 0 {
            assert forall|k: int| 0 <= k < prev.drop_last().len() implies {
                let c = #[trigger] prev.drop_last()[k];
                slash_free(c) && is_named_piece(c) && c != seq!['.', '.']
            } by {
                assert(prev.drop_last()[k] == prev[k]);
            }
        }
    }
}

/// Appending text without `/` extends the last piece.
proof fn lemma_pieces_append(x: Seq<char>, y: Seq<char>)
    requires
        slash_free(y),
    ensures
        slash_pieces(x + y) == slash_pieces(x).update(
            slash_pieces(x).len() - 1,
            slash_pieces(x).last() + y,
        ),
    decreases y.len(),
{
    lemma_pieces_slash_free(x);
    let sx = slash_pieces(x);
    if y.len() == 0 {
        assert(x + y =~= x);
        assert(sx.last() + y =~= sx.last());
        assert(sx.update(sx.len() - 1, sx.last()) =~= sx);
    } else {
        let y0 = y.drop_last();
        assert(slash_free(y0)) by {
            assert forall|i: int| 0 <= i < y0.len() implies y0[i] != '/' by {
                assert(y0[i] == y[i]);
            }
        }
        lemma_pieces_append(x, y0);
        assert((x + y).drop_last() =~= x + y0);
        assert((x + y).last() == y.last());
        assert(y.last() == y[y.len() - 1]);
        let prev = sx.update(sx.len() - 1, sx.last() + y0);
        assert(prev.last() == sx.last() + y0);
        assert((sx.last() + y0).push(y.last()) =~= sx.last() + y);
        assert(prev.update(prev.len() - 1, prev.last().push(y.last()))
            =~= sx.update(sx.len() - 1, sx.last() + y));
    }
}

/// Appending `/` starts a new, empty piece.
proof fn lemma_pieces_slash(x: Seq<char>)
    ensures
        slash_pieces(x + seq!['/']) == slash_pieces(x).push(Seq::<char>::empty()),
{
    assert((x + seq!['/']).drop_last() =~= x);
    assert((x + seq!['/']).last() == '/');
}

/// Appending components joined with `/` extends the last piece with the first
/// component and adds the others as pieces.
proof fn lemma_pieces_join(x: Seq<char>, pc: Seq<Seq<char>>)
    requires
        pc.len() >= 1,
        forall|k: int| 0 <= k < pc.len() ==> slash_free(#[trigger] pc[k]),
    ensures
        slash_pieces(x + join_spec(pc, "/"@)) == slash_pieces(x).update(
            slash_pieces(x).len() - 1,
            slash_pieces(x).last() + pc[0],
        ) + pc.skip(1),
    decreases pc.len(),
{
    reveal_strlit("/");
    lemma_pieces_slash_free(x);
    let sx = slash_pieces(x);
    if pc.len() == 1 {
        lemma_pieces_append(x, pc[0]);
        assert(pc.skip(1) =~= Seq::<Seq<char>>::empty());
        assert(sx.update(sx.len() - 1, sx.last() + pc[0]) + pc.skip(1)
            =~= sx.update(sx.len() - 1, sx.last() + pc[0]));
    } else {
        let dl = pc.drop_last();
        assert forall|k: int| 0 <= k < dl.len() implies slash_free(#[trigger] dl[k]) by {
            assert(dl[k] == pc[k]);
        }
        lemma_pieces_join(x, dl);
        let jd = join_spec(dl, "/"@);
        let last = pc.last();
        assert(slash_free(last)) by {
            assert(last == pc[pc.len() - 1]);
        }
        assert(join_spec(pc, "/"@) == jd + "/"@ + last);
        assert(x + join_spec(pc, "/"@) =~= ((x + jd) + seq!['/']) + last);
        lemma_pieces_append((x + jd) + seq!['/'], last);
        lemma_pieces_slash(x + jd);
        lemma_pieces_slash_free(x + jd);
        let before = slash_pieces(x + jd);
        assert(before == sx.update(sx.len() - 1, sx.last() + dl[0]) + dl.skip(1));
        let pushed = before.push(Seq::<char>::empty());
        assert(pushed.last() + last =~= last);
        assert(pushed.update(pushed.len() - 1, last) =~= before.push(last));
        assert(dl[0] == pc[0]);
        assert(dl.skip(1).push(last) =~= pc.skip(1));
        assert(before.push(last) =~= sx.update(sx.len() - 1, sx.last() + pc[0]) + pc.skip(1));
    }
}

/// Resolving components that need no resolution after pieces that resolve to
/// `base` gives `base` followed by those components.
proof fn lemma_resolved_append(q: Seq<Seq<char>>, pc: Seq<Seq<char>>)
    requires
        forall|k: int| 0 <= k < pc.len() ==> is_named_piece(#[trigger] pc[k]) && pc[k] != seq!['.', '.'],
    ensures
        resolved_components(q + pc) == resolved_components(q) + pc,
    decreases pc.len(),
{
    if pc.len() == 0 {
        assert(q + pc =~= q);
        assert(resolved_components(q) + pc =~= resolved_components(q));
    } else {
        let dl = pc.drop_last();
        assert forall|k: int| 0 <= k < dl.len() implies is_named_piece(#[trigger] dl[k]) && dl[k] != seq!['.', '.'] by {
            assert(dl[k] == pc[k]);
        }
        lemma_resolved_append(q, dl);
        assert((q + pc).drop_last() =~= q + dl);
        assert((q + pc).last() == pc.last());
        assert(pc.last() == pc[pc.len() - 1]);
        assert((resolved_components(q) + dl).push(pc.last()) =~= resolved_components(q) + pc);
    }
}

/// Resolving the text of resolved components gives them back.
proof fn lemma_normal_text_components(absolute: bool, comps: Seq<Seq<char>>)
    requires
        forall|k: int| 0 <= k < comps.len() ==> {
            let c = #[trigger] comps[k];
            slash_free(c) && is_named_piece(c) && c != seq!['.', '.']
        },
    ensures
        normal_components(normal_text(absolute, comps)) == comps,
{
    reveal_strlit("/");
    let e = Seq::<char>::empty();
    assert(!is_named_piece(e));
    assert(resolved_components(Seq::<Seq<char>>::empty()) =~= Seq::<Seq<char>>::empty());
    assert(seq![e].drop_last() =~= Seq::<Seq<char>>::empty());
    assert(seq![e].last() == e);
    assert(resolved_components(seq![e]) =~= Seq::<Seq<char>>::empty());
    assert(seq![e, e].drop_last() =~= seq![e]);
    assert(seq![e, e].last() == e);
    assert(resolved_components(seq![e, e]) =~= Seq::<Seq<char>>::empty());
    let prefix: Seq<char> = if absolute { "/"@ } else { Seq::empty() };
    let t = normal_text(absolute, comps);
    assert(t == prefix + join_spec(comps, "/"@));
    let sp = slash_pieces(prefix);
    if absolute {
        assert(prefix =~= Seq::<char>::empty() + seq!['/']);
        lemma_pieces_slash(Seq::<char>::empty());
        assert(slash_pieces(Seq::<char>::empty()) == seq![Seq::<char>::empty()]);
        assert(sp =~= seq![Seq::<char>::empty(), Seq::<char>::empty()]);
    } else {
        assert(sp =~= seq![Seq::<char>::empty()]);
    }
    if comps.len() == 0 {
        assert(join_spec(comps, "/"@) =~= Seq::<char>::empty());
        assert(t =~= prefix);
    } else {
        assert forall|k: int| 0 <= k < comps.len() implies slash_free(#[trigger] comps[k]) by {}
        lemma_pieces_join(prefix, comps);
        let q = sp.drop_last();
        assert(sp.last() + comps[0] =~= comps[0]);
        assert(slash_pieces(t) =~= q + comps) by {
            assert(sp.update(sp.len() - 1, comps[0]) =~= q.push(comps[0]));
            assert(q.push(comps[0]) + comps.skip(1) =~= q + comps);
        }
        lemma_resolved_append(q, comps);
        assert(resolved_components(q) =~= Seq::<Seq<char>>::empty()) by {
            if absolute {
                assert(q =~= seq![Seq::<char>::empty()]);
                assert(q.drop_last() =~= Seq::<Seq<char>>::empty());
            } else {
                assert(q =~= Seq::<Seq<char>>::empty());
            }
        }
        assert(Seq::<Seq<char>>::empty() + comps =~= comps);
    }
}

/// A path that is accepted lies inside the root: resolving the path that
/// `validate_within_root` returns gives components that start with those of
/// the root.
pub proof fn law_accepted_path_inside_root(root: Seq<char>, path: Seq<char>)
    requires
        within_root_spec(root, path),
    ensures
        ({
            let rc = normal_components(root);
            let out = normal_components(resolved_path_spec(root, path));
            rc.len() <= out.len() && out.take(rc.len() as int) == rc
        }),
{
    let full = path_join_spec(root, path);
    lemma_pieces_slash_free(full);
    lemma_resolved_clean(slash_pieces(full));
    lemma_normal_text_components(is_absolute_spec(full), normal_components(full));
}

/// Splitting at `/` loses nothing: there is at least one piece, no piece holds
/// a `/`, and the pieces joined with `/` give the text back.
pub proof fn law_split_joins_back(s: Seq<char>)
    ensures
        slash_pieces(s).len() >= 1,
        forall|k: int| 0 <= k < slash_pieces(s).len() ==> slash_free(#[trigger] slash_pieces(s)[k]),
        join_spec(slash_pieces(s), "/"@) == s,
    decreases s.len(),
{
    lemma_pieces_slash_free(s);
    if s.len() == 0 {
        assert(join_spec(seq![Seq::<char>::empty()], "/"@) == Seq::<char>::empty());
    } else {
        let dl = s.drop_last();
        law_split_joins_back(dl);
        let prev = slash_pieces(dl);
        assert(dl.push(s.last()) =~= s);
        if s.last() == '/' {
            let q = prev.push(Seq::<char>::empty());
            assert(q.drop_last() =~= prev);
            reveal_strlit("/");
            assert(join_spec(q, "/"@) =~= dl + "/"@ + Seq::<char>::empty());
            assert(dl + "/"@ + Seq::<char>::empty() =~= s);
        } else {
            let n = prev.len() - 1;
            let q = prev.update(n, prev.last().push(s.last()));
            if prev.len() == 1 {
                assert(join_spec(q, "/"@) == q[0]);
                assert(join_spec(prev, "/"@) == prev[0]);
                assert(q[0] =~= dl.push(s.last()));
            } else {
                assert(q.drop_last() =~= prev.drop_last());
                assert(q.last() == prev.last().push(s.last()));
                assert(join_spec(q, "/"@) =~= (join_spec(prev.drop_last(), "/"@) + "/"@ + prev.last()).push(s.last()));
            }
        }
    }
}

/// Resolving `.` and `..` works piece by piece: resolving `a` followed by `b`
/// is resolving the already resolved `a` followed by `b`, and resolving twice
/// gives what resolving once gives.
pub proof fn law_resolution_compositional(a: Seq<Seq<char>>, b: Seq<Seq<char>>)
    ensures
        resolved_components(a + b) == resolved_components(resolved_components(a) + b),
        resolved_components(resolved_components(a)) == resolved_components(a),
    decreases b.len(),
{
    lemma_resolved_named(a);
    lemma_resolved_append(Seq::<Seq<char>>::empty(), resolved_components(a));
    assert(Seq::<Seq<char>>::empty() + resolved_components(a) =~= resolved_components(a));
    assert(resolved_components(Seq::<Seq<char>>::empty()) =~= Seq::<Seq<char>>::empty());
    if b.len() == 0 {
        assert(a + b =~= a);
        assert(resolved_components(a) + b =~= resolved_components(a));
    } else {
        let bl = b.drop_last();
        law_resolution_compositional(a, bl);
        assert((a + b).drop_last() =~= a + bl);
        assert((a + b).last() == b.last());
        assert((resolved_components(a) + b).drop_last() =~= resolved_components(a) + bl);
        assert((resolved_components(a) + b).last() == b.last());
    }
}

/// Resolved components are named pieces other than `..`.
proof fn lemma_resolved_named(pieces: Seq<Seq<char>>)
    ensures
        forall|k: int| 0 <= k < resolved_components(pieces).len() ==> is_named_piece(
            #[trigger] resolved_components(pieces)[k],
        ) && resolved_components(pieces)[k] != seq!['.', '.'],
    decreases pieces.len(),
{
    if pieces.len() > 0 {
        let prev = resolved_components(pieces.drop_last());
        lemma_resolved_named(pieces.drop_last());
        let r = resolved_components(pieces);
        let p = pieces.last();
        if is_named_piece(p) && p == seq!['.', '.'] && prev.len() > 0 {
            assert forall|k: int| 0 <= k < r.len() implies is_named_piece(#[trigger] r[k]) && r[k] != seq!['.', '.'] by {
                assert(r[k] == prev[k]);
            }
        } else if is_named_piece(p) && p != seq!['.', '.'] {
            assert forall|k: int| 0 <= k < r.len() implies is_named_piece(#[trigger] r[k]) && r[k] != seq!['.', '.'] by {
                if k < prev.len() {
                    assert(r[k] == prev[k]);
                }
            }
        }
    }
}

} // verus!
