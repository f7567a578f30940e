//! Directory listings, sorted by name.

use vstd::prelude::*;

use vstd::seq_lib::to_multiset_insert;

use crate::error::{FsError, FsResult};
use crate::path::{path_names, path_parts};
use crate::seqs::{first_match, lemma_first_match, lemma_first_match_at, lemma_first_match_none};
use crate::text::{chars_le, chars_le_exec, chars_of, lemma_chars_le_total, lemma_chars_le_trans};
use crate::types::{Attributes, DirEntry, PID};
use super::resolve::names_view;
use super::{attributes_of, xattr_index, DirChild, FsCore, KindV, NodeKind, NodeV, Xattr};

verus! {

/// An entry named after `name`.
pub open spec fn after_name(name: Seq<char>) -> spec_fn((Seq<char>, u64)) -> bool {
    |e: (Seq<char>, u64)| !chars_le(e.0, name)
}

/// Where an entry named `name` goes in the name-sorted `s`: before the first
/// entry named after it, else at the end.
pub open spec fn insert_pos(s: Seq<(Seq<char>, u64)>, name: Seq<char>) -> int {
    match first_match(s, after_name(name)) {
        Some(i) => i,
        None => s.len() as int,
    }
}

/// `s` sorted by name, by insertion; entries with equal names keep their order.
pub open spec fn sort_by_name(s: Seq<(Seq<char>, u64)>) -> Seq<(Seq<char>, u64)>
    decreases s.len(),
{
    if s.len() == 0 {
        s
    } else {
        let t = sort_by_name(s.drop_last());
        t.insert(insert_pos(t, s.last().0), s.last())
    }
}

/// Names of `s` are in non-decreasing order.
pub open spec fn names_sorted(s: Seq<(Seq<char>, u64)>) -> bool {
    forall|i: int, j: int| 0 <= i < j < s.len() ==> chars_le(#[trigger] s[i].0, #[trigger] s[j].0)
}

/// Sorting by name yields the same entries, in order of their names.
pub proof fn lemma_sort_by_name(s: Seq<(Seq<char>, u64)>)
    ensures
        names_sorted(sort_by_name(s)),
        sort_by_name(s).to_multiset() == s.to_multiset(),
    decreases s.len(),
{
    if s.len() > 0 {
        let t = sort_by_name(s.drop_last());
        let x = s.last();
        lemma_sort_by_name(s.drop_last());
        let p = insert_pos(t, x.0);
        lemma_first_match(t, after_name(x.0));
        let u = t.insert(p, x);
        assert(0 <= p <= t.len());
        assert forall|q: int| 0 <= q < t.len() implies (q < p ==> chars_le(#[trigger] t[q].0, x.0)) && (q >= p
            ==> chars_le(x.0, t[q].0)) by {
            if q < p {
                assert(!after_name(x.0)(t[q]));
            } else {
                assert(!after_name(x.0)(t[p]) == false);
                lemma_chars_le_total(t[p].0, x.0);
                if q > p {
                    lemma_chars_le_trans(x.0, t[p].0, t[q].0);
                }
            }
        }
        assert forall|i: int, j: int| 0 <= i < j < u.len() implies chars_le(#[trigger] u[i].0, #[trigger] u[j].0) by {
            if i < p && j < p {
                assert(u[i] == t[i] && u[j] == t[j]);
            } else if i < p && j == p {
                assert(u[i] == t[i]);
            } else if i < p {
                assert(u[i] == t[i] && u[j] == t[j - 1]);
            } else if i == p {
                assert(u[j] == t[j - 1]);
            } else {
                assert(u[i] == t[i - 1] && u[j] == t[j - 1]);
            }
        }
        to_multiset_insert(t, p, x);
        assert(s.drop_last().push(x) =~= s);
        vstd::seq_lib::to_multiset_build(s.drop_last(), x);
    }
}

/// Every entry of the sorted sequence is an entry of `s`.
pub proof fn lemma_sort_by_name_member(s: Seq<(Seq<char>, u64)>, k: int)
    requires
        0 <= k < sort_by_name(s).len(),
    ensures
        exists|i: int| 0 <= i < s.len() && s[i] == sort_by_name(s)[k],
{
    let t = sort_by_name(s);
    lemma_sort_by_name(s);
    assert(t.contains(t[k]));
    vstd::seq_lib::to_multiset_contains(t, t[k]);
    vstd::seq_lib::to_multiset_contains(s, t[k]);
}

/// Name of the extended attribute holding the raw bytes a name was created from.
pub open spec fn rawname_attr() -> Seq<char> {
    "user.agentfs.rawname"@
}

/// Raw bytes reported for entry `name` of node `n`: those recorded when it was
/// created from raw bytes, else the UTF-8 encoding of the name.
pub open spec fn raw_name(n: NodeV, name: Seq<char>) -> Seq<u8> {
    match xattr_index(n.xattrs, rawname_attr()) {
        Some(i) => n.xattrs[i].1,
        None => vstd::utf8::encode_utf8(name),
    }
}

impl FsCore {
    /// A listing only names stored nodes.
    pub proof fn lemma_listing_present(self, pid: u32, p: Seq<char>)
        ensures
            self.listing(pid, p) matches Ok(s) ==> forall|j: int| 0 <= j < s.len() ==> self.node(#[trigger] s[j].1) is Some,
    {
        if let Ok(s) = self.listing(pid, p) {
            let id = self.resolve(pid, path_names(p))->Ok_0.0;
            let children = self.node(id).unwrap().kind->Dir_children;
            assert(s == sort_by_name(children));
            assert forall|j: int| 0 <= j < s.len() implies self.node(#[trigger] s[j].1) is Some by {
                lemma_sort_by_name_member(children, j);
                let i = choose|i: int| 0 <= i < children.len() && children[i] == s[j];
                assert(self.node(children[i].1) is Some);
            }
        }
    }

    /// Entries of the directory at `p` in name order, with their node ids.
    /// The user needs read and search permission on it, and every entry must
    /// lead to a stored node.
    pub open spec fn listing(self, pid: u32, p: Seq<char>) -> Result<Seq<(Seq<char>, u64)>, FsError> {
        match self.resolve(pid, path_names(p)) {
            Err(e) => Err(e),
            Ok((id, _)) => match self.node(id) {
                None => Err(FsError::NotFound),
                Some(n) => match n.kind {
                    KindV::Dir { children } => {
                        if !self.access_ok(self.user_of(pid), n, true, false, true) {
                            Err(FsError::AccessDenied)
                        } else if exists|i: int| 0 <= i < children.len() && self.node(#[trigger] children[i].1) is None {
                            Err(FsError::NotFound)
                        } else {
                            Ok(sort_by_name(children))
                        }
                    },
                    _ => Err(FsError::NotADirectory),
                },
            },
        }
    }

    /// Computes [`listing`](Self::listing).
    fn listing_exec(&self, pid: u32, path: &str) -> (r: Result<Vec<(String, u64)>, FsError>)
        ensures
            match (r, self.listing(pid, path@)) {
                (Ok(v), Ok(s)) => v@.map_values(|e: (String, u64)| (e.0@, e.1)) == s,
                (Err(e), Err(e2)) => e == e2,
                _ => false,
            },
    {
        let parts = path_parts(path);
        assert(names_view(parts.names@) == path_names(path@));
        let (id, _) = match self.resolve_path(pid, &parts.names) {
            Ok(x) => x,
            Err(e) => return Err(e),
        };
        let n = match self.get_node(id) {
            Some(n) => n,
            None => return Err(FsError::NotFound),
        };
        let children = match &n.kind {
            NodeKind::Directory { children } => children,
            _ => return Err(FsError::NotADirectory),
        };
        let user = self.user_for(pid);
        if !self.check_access(user, n, true, false, true) {
            return Err(FsError::AccessDenied);
        }
        let ghost cv = children@.map_values(|c: DirChild| c@);
        assert(n@.kind == (KindV::Dir { children: cv }));
        let mut k: usize = 0;
        while k < children.len()
            invariant
                k <= children@.len(),
                cv == children@.map_values(|c: DirChild| c@),
                self.node(id) == Some(n@),
                n@.kind == (KindV::Dir { children: cv }),
                self.resolve(pid, path_names(path@)) matches Ok((rid, _)) && rid == id,
                self.access_ok(self.user_of(pid), n@, true, false, true),
                forall|i: int| 0 <= i < k ==> self.node(#[trigger] cv[i].1) is Some,
            decreases children@.len() - k,
        {
            if self.get_node(children[k].id).is_none() {
                assert(self.node(cv[k as int].1) is None);
                return Err(FsError::NotFound);
            }
            k = k + 1;
        }
        let sorted = sort_children(children);
        Ok(sorted)
    }

    /// Entries of the directory at `path` sorted by name, each with the
    /// attributes of its node.
    pub fn readdir_plus(&self, pid: &PID, path: &str) -> (r: FsResult<Vec<(DirEntry, Attributes)>>)
        ensures
            match (r, self.listing(pid.0, path@)) {
                (Ok(v), Ok(s)) => {
                    &&& v@.len() == s.len()
                    &&& forall|i: int| 0 <= i < s.len() ==> {
                        let e = #[trigger] v@[i];
                        &&& e.0.name@ == s[i].0
                        &&& e.1 == attributes_of(self.node(s[i].1).unwrap())
                        &&& e.0.is_dir == e.1.is_dir
                        &&& e.0.is_symlink == e.1.is_symlink
                        &&& e.0.len == e.1.len
                    }
                },
                (Err(e), Err(e2)) => e == e2,
                _ => false,
            },
    {
        let sorted = match self.listing_exec(pid.0, path) {
            Ok(s) => s,
            Err(e) => return Err(e),
        };
        let ghost s = sorted@.map_values(|e: (String, u64)| (e.0@, e.1));
        let ghost listing = self.listing(pid.0, path@)->Ok_0;
        proof {
            self.lemma_listing_present(pid.0, path@);
        }
        let mut out: Vec<(DirEntry, Attributes)> = Vec::new();
        let mut i: usize = 0;
        while i < sorted.len()
            invariant
                i <= sorted@.len(),
                s == sorted@.map_values(|e: (String, u64)| (e.0@, e.1)),
                s == listing,
                self.listing(pid.0, path@) == Ok::<Seq<(Seq<char>, u64)>, FsError>(listing),
                forall|j: int| 0 <= j < s.len() ==> self.node(#[trigger] s[j].1) is Some,
                out@.len() == i,
                forall|j: int| 0 <= j < i ==> {
                    let e = #[trigger] out@[j];
                    &&& e.0.name@ == s[j].0
                    &&& e.1 == attributes_of(self.node(s[j].1).unwrap())
                    &&& e.0.is_dir == e.1.is_dir
                    &&& e.0.is_symlink == e.1.is_symlink
                    &&& e.0.len == e.1.len
                },
            decreases sorted@.len() - i,
        {
            let child = sorted[i].1;
            assert(s[i as int].1 == child);
            let attrs = match self.get_node_attributes(child) {
                Ok(a) => a,
                Err(e) => return Err(e),
            };
            let entry = DirEntry {
                name: sorted[i].0.clone(),
                is_dir: attrs.is_dir,
                is_symlink: attrs.is_symlink,
                len: attrs.len,
            };
            out.push((entry, attrs));
            i = i + 1;
        }
        Ok(out)
    }

    /// Like [`readdir_plus`](Self::readdir_plus), with each name given as raw
    /// bytes: those it was created from, else its UTF-8 encoding.
    pub fn readdir_plus_raw(&self, pid: &PID, path: &str) -> (r: FsResult<Vec<(Vec<u8>, Attributes)>>)
        ensures
            match (r, self.listing(pid.0, path@)) {
                (Ok(v), Ok(s)) => {
                    &&& v@.len() == s.len()
                    &&& forall|i: int| 0 <= i < s.len() ==> {
                        let e = #[trigger] v@[i];
                        &&& e.0@ == raw_name(self.node(s[i].1).unwrap(), s[i].0)
                        &&& e.1 == attributes_of(self.node(s[i].1).unwrap())
                    }
                },
                (Err(e), Err(e2)) => e == e2,
                _ => false,
            },
    {
        let sorted = match self.listing_exec(pid.0, path) {
            Ok(s) => s,
            Err(e) => return Err(e),
        };
        let ghost s = sorted@.map_values(|e: (String, u64)| (e.0@, e.1));
        let ghost listing = self.listing(pid.0, path@)->Ok_0;
        proof {
            self.lemma_listing_present(pid.0, path@);
        }
        let key = crate::text::owned("user.agentfs.rawname");
        proof {
            reveal_strlit("user.agentfs.rawname");
        }
        let mut out: Vec<(Vec<u8>, Attributes)> = Vec::new();
        let mut i: usize = 0;
        while i < sorted.len()
            invariant
                i <= sorted@.len(),
                key@ == rawname_attr(),
                s == sorted@.map_values(|e: (String, u64)| (e.0@, e.1)),
                s == listing,
                self.listing(pid.0, path@) == Ok::<Seq<(Seq<char>, u64)>, FsError>(listing),
                forall|j: int| 0 <= j < s.len() ==> self.node(#[trigger] s[j].1) is Some,
                out@.len() == i,
                forall|j: int| 0 <= j < i ==> {
                    let e = #[trigger] out@[j];
                    &&& e.0@ == raw_name(self.node(s[j].1).unwrap(), s[j].0)
                    &&& e.1 == attributes_of(self.node(s[j].1).unwrap())
                },
            decreases sorted@.len() - i,
        {
            let child = sorted[i].1;
            assert(s[i as int].1 == child);
            let n = match self.get_node(child) {
                Some(n) => n,
                None => return Err(FsError::NotFound),
            };
            let attrs = self.node_attributes(n);
            let raw = match find_xattr_index(&n.xattrs, &key) {
                Some(x) => {
                    proof {
                        assert(n@.xattrs[x as int] == n.xattrs@[x as int]@);
                    }
                    n.xattrs[x].value.clone()
                },
                None => vstd::slice::slice_to_vec(sorted[i].0.as_str().as_bytes()),
            };
            out.push((raw, attrs));
            i = i + 1;
        }
        Ok(out)
    }
}

/// Position of the extended attribute named `name`.
pub fn find_xattr_index(xs: &Vec<Xattr>, name: &String) -> (r: Option<usize>)
    ensures
        match r {
            Some(i) => xattr_index(xs@.map_values(|x: Xattr| x@), name@) == Some(i as int) && i < xs@.len(),
            None => xattr_index(xs@.map_values(|x: Xattr| x@), name@) is None,
        },
{
    let ghost xv = xs@.map_values(|x: Xattr| x@);
    let mut i: usize = 0;
    while i < xs.len()
        invariant
            i <= xs@.len(),
            xv == xs@.map_values(|x: Xattr| x@),
            forall|j: int| 0 <= j < i ==> !super::xattr_named(name@)(#[trigger] xv[j]),
        decreases xs@.len() - i,
    {
        if xs[i].name == *name {
            proof {
                lemma_first_match_at(xv, super::xattr_named(name@), i as int);
            }
            return Some(i);
        }
        i = i + 1;
    }
    proof {
        lemma_first_match_none(xv, super::xattr_named(name@));
    }
    None
}

/// The entries of `children` sorted by name (see [`sort_by_name`]).
fn sort_children(children: &Vec<DirChild>) -> (r: Vec<(String, u64)>)
    ensures
        r@.map_values(|e: (String, u64)| (e.0@, e.1)) == sort_by_name(children@.map_values(|c: DirChild| c@)),
{
    let ghost cv = children@.map_values(|c: DirChild| c@);
    let mut out: Vec<(String, u64)> = Vec::new();
    let mut keys: Vec<Vec<char>> = Vec::new();
    let mut k: usize = 0;
    assert(cv.subrange(0, 0) =~= Seq::<(Seq<char>, u64)>::empty());
    while k < children.len()
        invariant
            k <= children@.len(),
            cv == children@.map_values(|c: DirChild| c@),
            keys@.len() == out@.len(),
            forall|j: int| 0 <= j < out@.len() ==> #[trigger] keys@[j]@ == out@[j].0@,
            out@.map_values(|e: (String, u64)| (e.0@, e.1)) == sort_by_name(cv.subrange(0, k as int)),
        decreases children@.len() - k,
    {
        let ghost t = out@.map_values(|e: (String, u64)| (e.0@, e.1));
        let name = &children[k].name;
        let key = chars_of(name.as_str());
        let mut p: usize = 0;
        while p < out.len()
            invariant
                p <= out@.len(),
                keys@.len() == out@.len(),
                t == out@.map_values(|e: (String, u64)| (e.0@, e.1)),
                forall|j: int| 0 <= j < out@.len() ==> #[trigger] keys@[j]@ == out@[j].0@,
                forall|j: int| 0 <= j < p ==> !after_name(key@)(#[trigger] t[j]),
            ensures
                p <= out@.len(),
                forall|j: int| 0 <= j < p ==> !after_name(key@)(#[trigger] t[j]),
                p < out@.len() ==> after_name(key@)(t[p as int]),
            decreases out@.len() - p,
        {
            if !chars_le_exec(&keys[p], &key) {
                assert(after_name(key@)(t[p as int]));
                break;
            }
            p = p + 1;
        }
        proof {
            if p == out@.len() {
                lemma_first_match_none(t, after_name(key@));
            } else {
                lemma_first_match_at(t, after_name(key@), p as int);
            }
            assert(insert_pos(t, key@) == p);
            assert(cv.subrange(0, k + 1).drop_last() =~= cv.subrange(0, k as int));
            assert(cv.subrange(0, k + 1).last() == cv[k as int]);
            assert(cv[k as int] == (name@, children@[k as int].id));
        }
        out.insert(p, (name.clone(), children[k].id));
        keys.insert(p, key);
        proof {
            assert(out@.map_values(|e: (String, u64)| (e.0@, e.1)) =~= t.insert(p as int, cv[k as int]));
            assert forall|j: int| 0 <= j < out@.len() implies #[trigger] keys@[j]@ == out@[j].0@ by {
                if j < p {
                } else if j == p {
                } else {
                }
            }
        }
        k = k + 1;
    }
    assert(cv.subrange(0, children@.len() as int) =~= cv);
    out
}

} // verus!
