//! Path parsing: a path is split on `/`; empty and `.` segments vanish, `..`
//! segments are kept as segments but are not names a lookup follows.

use vstd::prelude::*;

use crate::text::{chars_of, string_from_chars};

verus! {

/// Raw pieces of `p` between slashes (always at least one, possibly empty).
pub open spec fn split_on_slash(p: Seq<char>) -> Seq<Seq<char>>
    decreases p.len(),
{
    if p.len() == 0 {
        seq![Seq::<char>::empty()]
    } else {
        let r = split_on_slash(p.drop_last());
        if p.last() == '/' {
            r.push(Seq::<char>::empty())
        } else {
            r.update(r.len() - 1, r.last().push(p.last()))
        }
    }
}

pub proof fn lemma_split_nonempty(p: Seq<char>)
    ensures
        split_on_slash(p).len() >= 1,
    decreases p.len(),
{
    if p.len() > 0 {
        lemma_split_nonempty(p.drop_last());
    }
}

pub open spec fn is_dot(s: Seq<char>) -> bool {
    s.len() == 1 && s[0] == '.'
}

pub open spec fn is_dot_dot(s: Seq<char>) -> bool {
    s.len() == 2 && s[0] == '.' && s[1] == '.'
}

/// Pieces that are neither empty nor `.`.
pub open spec fn keep_segments(s: Seq<Seq<char>>) -> Seq<Seq<char>>
    decreases s.len(),
{
    if s.len() == 0 {
        Seq::empty()
    } else {
        let r = keep_segments(s.drop_last());
        if s.last().len() == 0 || is_dot(s.last()) {
            r
        } else {
            r.push(s.last())
        }
    }
}

/// Segments of a path: the pieces between slashes, without empty and `.` pieces.
pub open spec fn path_segments(p: Seq<char>) -> Seq<Seq<char>> {
    keep_segments(split_on_slash(p))
}

/// Segments other than `..`: the names a lookup follows.
pub open spec fn names_of(s: Seq<Seq<char>>) -> Seq<Seq<char>>
    decreases s.len(),
{
    if s.len() == 0 {
        Seq::empty()
    } else {
        let r = names_of(s.drop_last());
        if is_dot_dot(s.last()) {
            r
        } else {
            r.push(s.last())
        }
    }
}

/// Names a lookup of `p` follows.
pub open spec fn path_names(p: Seq<char>) -> Seq<Seq<char>> {
    names_of(path_segments(p))
}

/// Names a lookup of the parent of `p` follows; `None` when `p` has no segment.
pub open spec fn parent_names(p: Seq<char>) -> Option<Seq<Seq<char>>> {
    let s = path_segments(p);
    if s.len() == 0 {
        None
    } else {
        Some(names_of(s.drop_last()))
    }
}

/// Last segment of `p`, unless there is none or it is `..`.
pub open spec fn file_name(p: Seq<char>) -> Option<Seq<char>> {
    let s = path_segments(p);
    if s.len() == 0 || is_dot_dot(s.last()) {
        None
    } else {
        Some(s.last())
    }
}

fn is_dot_exec(v: &Vec<char>, from: usize, to: usize) -> (r: bool)
    requires
        from <= to <= v@.len(),
    ensures
        r == is_dot(v@.subrange(from as int, to as int)),
{
    to - from == 1 && v[from] == '.'
}

fn is_dot_dot_string(s: &String) -> (r: bool)
    ensures
        r == is_dot_dot(s@),
{
    let cs = chars_of(s.as_str());
    cs.len() == 2 && cs[0] == '.' && cs[1] == '.'
}

/// The segments of `path`.
pub fn split_path(path: &str) -> (r: Vec<String>)
    ensures
        r@.len() == path_segments(path@).len(),
        forall|i: int| 0 <= i < r@.len() ==> #[trigger] r@[i]@ == path_segments(path@)[i],
{
    let cs = chars_of(path);
    let n = cs.len();
    let mut out: Vec<String> = Vec::new();
    let mut start: usize = 0;
    let mut i: usize = 0;
    proof {
        lemma_split_nonempty(Seq::<char>::empty());
        assert(cs@.subrange(0, 0) =~= Seq::<char>::empty());
    }
    while i < n
        invariant
            start <= i <= n,
            n == cs@.len(),
            cs@ == path@,
            split_on_slash(cs@.subrange(0, i as int)).last() == cs@.subrange(start as int, i as int),
            split_on_slash(cs@.subrange(0, i as int)).len() >= 1,
            out@.len() == keep_segments(split_on_slash(cs@.subrange(0, i as int)).drop_last()).len(),
            forall|k: int| 0 <= k < out@.len() ==> #[trigger] out@[k]@ == keep_segments(
                split_on_slash(cs@.subrange(0, i as int)).drop_last(),
            )[k],
        decreases n - i,
    {
        let ghost pre = cs@.subrange(0, i as int);
        let ghost post = cs@.subrange(0, i + 1);
        proof {
            assert(post.drop_last() =~= pre);
            lemma_split_nonempty(post);
        }
        if cs[i] == '/' {
            let ghost last = split_on_slash(pre).last();
            assert(split_on_slash(post) == split_on_slash(pre).push(Seq::<char>::empty()));
            assert(split_on_slash(post).drop_last() =~= split_on_slash(pre));
            assert(split_on_slash(pre) =~= split_on_slash(pre).drop_last().push(last));
            if !(start == i || is_dot_exec(&cs, start, i)) {
                let seg = string_from_chars(&cs, start, i);
                out.push(seg);
            }
            start = i + 1;
            assert(cs@.subrange(start as int, i + 1) =~= Seq::<char>::empty());
        } else {
            assert(split_on_slash(post).drop_last() =~= split_on_slash(pre).drop_last());
            assert(cs@.subrange(start as int, i + 1) =~= cs@.subrange(start as int, i as int).push(cs@[i as int]));
        }
        i = i + 1;
    }
    let ghost full = cs@.subrange(0, n as int);
    proof {
        assert(full =~= path@);
        assert(split_on_slash(full) =~= split_on_slash(full).drop_last().push(split_on_slash(full).last()));
    }
    if !(start == n || is_dot_exec(&cs, start, n)) {
        let seg = string_from_chars(&cs, start, n);
        out.push(seg);
    }
    out
}

/// The names of `segments` (those that are not `..`).
pub fn names_in(segments: &Vec<String>) -> (r: Vec<String>)
    ensures
        r@.len() == names_of(segments@.map_values(|s: String| s@)).len(),
        forall|i: int| 0 <= i < r@.len() ==> #[trigger] r@[i]@ == names_of(segments@.map_values(|s: String| s@))[i],
{
    let ghost sv = segments@.map_values(|s: String| s@);
    let mut out: Vec<String> = Vec::new();
    let mut i: usize = 0;
    while i < segments.len()
        invariant
            i <= segments@.len(),
            sv == segments@.map_values(|s: String| s@),
            out@.len() == names_of(sv.subrange(0, i as int)).len(),
            forall|k: int| 0 <= k < out@.len() ==> #[trigger] out@[k]@ == names_of(sv.subrange(0, i as int))[k],
        decreases segments@.len() - i,
    {
        assert(sv.subrange(0, i + 1).drop_last() =~= sv.subrange(0, i as int));
        if !is_dot_dot_string(&segments[i]) {
            out.push(segments[i].clone());
        }
        i = i + 1;
    }
    assert(sv.subrange(0, segments@.len() as int) =~= sv);
    out
}

} // verus!

verus! {

/// A path taken apart: the names a lookup follows, those of its parent (when
/// it has a segment) and its last segment when that is a proper name.
pub struct PathParts {
    pub names: Vec<String>,
    pub parent: Option<Vec<String>>,
    pub file_name: Option<String>,
}

pub open spec fn strings_view(v: Seq<String>) -> Seq<Seq<char>> {
    v.map_values(|s: String| s@)
}

impl PathParts {
    pub open spec fn matches_path(self, p: Seq<char>) -> bool {
        &&& strings_view(self.names@) == path_names(p)
        &&& match (self.parent, parent_names(p)) {
            (Some(v), Some(w)) => strings_view(v@) == w,
            (None, None) => true,
            _ => false,
        }
        &&& match (self.file_name, file_name(p)) {
            (Some(s), Some(t)) => s@ == t,
            (None, None) => true,
            _ => false,
        }
    }
}

/// Takes `path` apart.
pub fn path_parts(path: &str) -> (r: PathParts)
    ensures
        r.matches_path(path@),
{
    let segs = split_path(path);
    let ghost sv = path_segments(path@);
    assert(strings_view(segs@) =~= sv);
    let names = names_in(&segs);
    assert(strings_view(names@) =~= path_names(path@));
    if segs.len() == 0 {
        return PathParts { names, parent: None, file_name: None };
    }
    let n = segs.len() - 1;
    let mut prefix: Vec<String> = Vec::new();
    let mut i: usize = 0;
    while i < n
        invariant
            i <= n,
            n + 1 == segs@.len(),
            prefix@.len() == i,
            strings_view(prefix@) == strings_view(segs@).subrange(0, i as int),
        decreases n - i,
    {
        let ghost before = prefix@;
        let c = segs[i].clone();
        prefix.push(c);
        assert forall|k: int| 0 <= k < i + 1 implies #[trigger] strings_view(prefix@)[k] == strings_view(segs@).subrange(0, i + 1)[k] by {
            if k < i {
                assert(strings_view(before)[k] == strings_view(segs@).subrange(0, i as int)[k]);
            }
        }
        assert(strings_view(prefix@) =~= strings_view(segs@).subrange(0, i + 1));
        i = i + 1;
    }
    assert(strings_view(prefix@) =~= sv.drop_last());
    let parent = names_in(&prefix);
    assert(strings_view(parent@) =~= names_of(sv.drop_last()));
    let last_is_dotdot = is_dot_dot_string(&segs[n]);
    let file_name = if last_is_dotdot {
        None
    } else {
        Some(segs[n].clone())
    };
    PathParts { names, parent: Some(parent), file_name }
}

} // verus!
