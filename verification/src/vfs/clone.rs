//! Deep copy-on-write clone of a tree: every node gets a fresh id and every
//! stream fresh content, so the copy and the original never share state.

use vstd::prelude::*;

use crate::error::{FsError, FsResult};
use crate::storage::StorageBackend;

use super::{streams_of, DirChild, FsCore, KindV, Node, NodeKind, Stream, Xattr};

verus! {

/// Node `dst` of `s` is a deep copy of node `src` of `o`, at most `fuel` levels
/// deep. `src` predates the copy (its id is below `lo`); every copied node has
/// an id of at least `lo` and every copied stream content an id of at least
/// `clo`, holding the bytes the original stream held in `o`. Names, sizes,
/// times, mode, owner and extended attributes are kept.
pub open spec fn clone_of(s: FsCore, o: FsCore, src: u64, dst: u64, lo: int, clo: int, fuel: nat) -> bool
    decreases fuel,
{
    if fuel == 0 {
        false
    } else {
        match (o.node(src), s.node(dst)) {
            (Some(a), Some(b)) => {
                &&& src < lo <= dst
                &&& b.times == a.times
                &&& b.mode == a.mode
                &&& b.uid == a.uid
                &&& b.gid == a.gid
                &&& b.xattrs == a.xattrs
                &&& match a.kind {
                    KindV::File { streams: ss } => b.kind matches KindV::File { streams: ds } && ds.len() == ss.len()
                        && forall|i: int|
                        0 <= i < ss.len() ==> {
                            &&& (#[trigger] ds[i]).name == ss[i].name
                            &&& ds[i].size == ss[i].size
                            &&& clo <= ds[i].content
                            &&& s.content(ds[i].content) == o.content(ss[i].content)
                        },
                    KindV::Dir { children: sc } => b.kind matches KindV::Dir { children: dc } && dc.len() == sc.len()
                        && forall|i: int|
                        0 <= i < sc.len() ==> (#[trigger] dc[i]).0 == sc[i].0 && clone_of(
                            s,
                            o,
                            sc[i].1,
                            dc[i].1,
                            lo,
                            clo,
                            (fuel - 1) as nat,
                        ),
                    KindV::Symlink { target } => b.kind == (KindV::Symlink { target }),
                }
            },
            _ => false,
        }
    }
}

/// A copy stays a copy while the existing nodes from `lo` on, and all
/// existing contents, are left alone.
pub proof fn lemma_clone_frame(s1: FsCore, s2: FsCore, o: FsCore, src: u64, dst: u64, lo: int, clo: int, fuel: nat)
    requires
        clone_of(s1, o, src, dst, lo, clo, fuel),
        o.wf(),
        forall|k: u64| lo <= k && s1.node(k) is Some ==> #[trigger] s2.node(k) == s1.node(k),
        forall|c: u64| s1.content(c) is Some ==> #[trigger] s2.content(c) == s1.content(c),
    ensures
        clone_of(s2, o, src, dst, lo, clo, fuel),
    decreases fuel,
{
    let a = o.node(src).unwrap();
    let b = s1.node(dst).unwrap();
    assert(s2.node(dst) == s1.node(dst));
    match a.kind {
        KindV::File { streams: ss } => {
            let ds = b.kind->File_streams;
            assert forall|i: int| 0 <= i < ss.len() implies s2.content((#[trigger] ds[i]).content) == o.content(
                ss[i].content,
            ) by {
                assert(streams_of(super::node_in(o.nodes@, src).unwrap())[i] == ss[i]);
                assert(o.content(ss[i].content) is Some);
            }
        },
        KindV::Dir { children: sc } => {
            let dc = b.kind->Dir_children;
            assert forall|i: int| 0 <= i < sc.len() implies (#[trigger] dc[i]).0 == sc[i].0 && clone_of(
                s2,
                o,
                sc[i].1,
                dc[i].1,
                lo,
                clo,
                (fuel - 1) as nat,
            ) by {
                lemma_clone_frame(s1, s2, o, sc[i].1, dc[i].1, lo, clo, (fuel - 1) as nat);
            }
        },
        KindV::Symlink { .. } => {},
    }
}

/// The kind-specific part of a node being copied.
enum Shape {
    F(Vec<Stream>),
    D(Vec<DirChild>),
    S(String),
}

/// Copy of a list of extended attributes.
fn copy_xattrs(xs: &Vec<Xattr>) -> (r: Vec<Xattr>)
    ensures
        r@.map_values(|x: Xattr| x@) == xs@.map_values(|x: Xattr| x@),
{
    let mut out: Vec<Xattr> = Vec::new();
    let mut i: usize = 0;
    while i < xs.len()
        invariant
            i <= xs@.len(),
            out@.len() == i,
            forall|k: int| 0 <= k < i ==> (#[trigger] out@[k])@ == xs@[k]@,
        decreases xs@.len() - i,
    {
        out.push(Xattr { name: xs[i].name.clone(), value: xs[i].value.clone() });
        i = i + 1;
    }
    assert(out@.map_values(|x: Xattr| x@) =~= xs@.map_values(|x: Xattr| x@));
    out
}

/// Copy of a list of directory entries.
fn copy_children(cs: &Vec<DirChild>) -> (r: Vec<DirChild>)
    ensures
        r@.map_values(|c: DirChild| c@) == cs@.map_values(|c: DirChild| c@),
{
    let mut out: Vec<DirChild> = Vec::new();
    let mut i: usize = 0;
    while i < cs.len()
        invariant
            i <= cs@.len(),
            out@.len() == i,
            forall|k: int| 0 <= k < i ==> (#[trigger] out@[k])@ == cs@[k]@,
        decreases cs@.len() - i,
    {
        out.push(DirChild { name: cs[i].name.clone(), id: cs[i].id });
        i = i + 1;
    }
    assert(out@.map_values(|c: DirChild| c@) =~= cs@.map_values(|c: DirChild| c@));
    out
}

/// Copy of a list of streams (sharing their content ids).
fn copy_streams(ss: &Vec<Stream>) -> (r: Vec<Stream>)
    ensures
        r@.map_values(|s: Stream| s@) == ss@.map_values(|s: Stream| s@),
{
    let mut out: Vec<Stream> = Vec::new();
    let mut i: usize = 0;
    while i < ss.len()
        invariant
            i <= ss@.len(),
            out@.len() == i,
            forall|k: int| 0 <= k < i ==> (#[trigger] out@[k])@ == ss@[k]@,
        decreases ss@.len() - i,
    {
        out.push(Stream { name: ss[i].name.clone(), content: ss[i].content, size: ss[i].size });
        i = i + 1;
    }
    assert(out@.map_values(|s: Stream| s@) =~= ss@.map_values(|s: Stream| s@));
    out
}

impl FsCore {
    /// Nodes below `bound` are unchanged, and so is every stored content.
    pub open spec fn keeps(self, old: FsCore, bound: int) -> bool {
        &&& forall|k: u64| (k as int) < bound ==> #[trigger] self.node(k) == old.node(k)
        &&& forall|c: u64| old.content(c) is Some ==> #[trigger] self.content(c) == old.content(c)
        &&& self.storage.next_id >= old.storage.next_id
        &&& self.nodes@.len() >= old.nodes@.len()
    }

    /// Leaving alone what `mid` left alone of `self`, and what `end` left alone of `mid`.
    pub proof fn lemma_keeps_trans(self, mid: FsCore, end: FsCore, b1: int, b2: int)
        requires
            mid.keeps(self, b1),
            end.keeps(mid, b2),
            b1 <= b2,
        ensures
            end.keeps(self, b1),
    {
        assert forall|k: u64| (k as int) < b1 implies #[trigger] end.node(k) == self.node(k) by {
            assert(end.node(k) == mid.node(k));
            assert(mid.node(k) == self.node(k));
        }
        assert forall|c: u64| self.content(c) is Some implies #[trigger] end.content(c) == self.content(c) by {
            assert(mid.content(c) == self.content(c));
            assert(end.content(c) == mid.content(c));
        }
    }

    /// What `mid` left alone, a state with the same arena and storage leaves alone too.
    pub proof fn lemma_keeps_same_arena(self, mid: FsCore, old: FsCore, bound: int)
        requires
            mid.keeps(old, bound),
            self.nodes == mid.nodes,
            self.storage == mid.storage,
        ensures
            self.keeps(old, bound),
    {
        assert forall|k: u64| (k as int) < bound implies #[trigger] self.node(k) == old.node(k) by {
            assert(mid.node(k) == old.node(k));
        }
        assert forall|c: u64| old.content(c) is Some implies #[trigger] self.content(c) == old.content(c) by {
            assert(mid.content(c) == old.content(c));
        }
    }

    /// Deep-copies node `src` (which must predate the copy: its id is below
    /// `lo`) and everything below it, at most `fuel` levels deep. On success
    /// the copy's root id is returned. On failure some fresh nodes or contents
    /// may be left behind unreferenced; nothing that existed changes.
    pub fn clone_node_cow_recursive(&mut self, src: u64, lo: u64, fuel: u64, Ghost(orig): Ghost<FsCore>) -> (r: FsResult<u64>)
        requires
            old(self).wf(),
            orig.wf(),
            lo == orig.next_node_id(),
            old(self).keeps(orig, lo as int),
        ensures
            final(self).wf(),
            final(self).same_bookkeeping(*old(self)),
            final(self).keeps(*old(self), old(self).next_node_id()),
            match r {
                Ok(dst) => clone_of(*final(self), orig, src, dst, lo as int, orig.storage.next_id as int, fuel as nat),
                Err(e) => e == FsError::NotFound || e == FsError::NoSpace || e == FsError::InvalidArgument,
            },
        decreases fuel,
    {
        if fuel == 0 {
            return Err(FsError::InvalidArgument);
        }
        if src >= lo {
            return Err(FsError::NotFound);
        }
        assert(old(self).node(src) == orig.node(src));
        let (times, mode, uid, gid, xattrs) = match self.get_node(src) {
            Some(n) => (n.times, n.mode, n.uid, n.gid, copy_xattrs(&n.xattrs)),
            None => return Err(FsError::NotFound),
        };
        let a = Ghost(orig.node(src).unwrap());
        let shape = match &self.get_node(src).unwrap().kind {
            NodeKind::File { streams } => Shape::F(copy_streams(streams)),
            NodeKind::Directory { children } => Shape::D(copy_children(children)),
            NodeKind::Symlink { target } => Shape::S(target.clone()),
        };
        let dst = match self.reserve_node_id() {
            Some(id) => id,
            None => return Err(FsError::NoSpace),
        };
        let ghost s1 = *self;
        proof {
            assert(s1.keeps(*old(self), old(self).next_node_id())) by {
                assert forall|k: u64| (k as int) < old(self).next_node_id() implies #[trigger] s1.node(k) == old(self).node(
                    k,
                ) by {}
            }
            orig.lemma_keeps_trans(*old(self), s1, lo as int, old(self).next_node_id());
        }
        let clo = Ghost(orig.storage.next_id as int);
        let kind = match shape {
            Shape::F(ss) => {
                let ghost sv = ss@.map_values(|s: Stream| s@);
                let mut ds: Vec<Stream> = Vec::new();
                let mut i: usize = 0;
                while i < ss.len()
                    invariant
                        i <= ss@.len(),
                        self.wf(),
                        orig.wf(),
                        sv == ss@.map_values(|s: Stream| s@),
                        a@.kind == (KindV::File { streams: sv }),
                        orig.node(src) == Some(a@),
                        self.keeps(s1, s1.next_node_id()),
                        self.nodes == s1.nodes,
                        self.same_bookkeeping(s1),
                        s1.keeps(orig, lo as int),
                        s1.keeps(*old(self), old(self).next_node_id()),
                        s1.same_bookkeeping(*old(self)),
                        old(self).next_node_id() <= s1.next_node_id(),
                        clo@ == orig.storage.next_id as int,
                        ds@.len() == i,
                        forall|k: int| 0 <= k < i ==> {
                            &&& (#[trigger] ds@[k])@.name == sv[k].name
                            &&& ds@[k]@.size == sv[k].size
                            &&& clo@ <= ds@[k]@.content
                            &&& self.content(ds@[k]@.content) == orig.content(sv[k].content)
                        },
                    decreases ss@.len() - i,
                {
                    proof {
                        assert(sv[i as int] == ss@[i as int]@);
                        assert(streams_of(super::node_in(orig.nodes@, src).unwrap())[i as int] == sv[i as int]);
                        assert(orig.content(sv[i as int].content) is Some);
                    }
                    let ghost before = *self;
                    let c = match self.storage.clone_cow(ss[i].content) {
                        Ok(c) => c,
                        Err(e) => {
                            proof {
                                old(self).lemma_keeps_trans(s1, *self, old(self).next_node_id(), s1.next_node_id());
                            }
                            return Err(e);
                        },
                    };
                    proof {
                        assert forall|x: u64| before.storage.content_map().contains_key(x) implies #[trigger] self.storage.content_map().contains_key(x) by {}
                        (*self).lemma_storage_grew(before);
                        assert forall|x: u64| before.content(x) is Some implies #[trigger] self.content(x) == before.content(x) by {
                            assert(self.storage.content_map()[x] == before.storage.content_map()[x]);
                        }
                        assert forall|k: int| 0 <= k < i implies self.content((#[trigger] ds@[k])@.content) == orig.content(sv[k].content) by {
                            assert(orig.content(sv[k].content) is Some);
                        }
                    }
                    proof {
                        let base = sv[i as int].content;
                        assert(s1.content(base) == orig.content(base));
                        assert(before.content(base) == s1.content(base));
                        assert(self.storage.content_map().contains_key(c.0));
                        assert(self.storage.content_map()[c.0] == before.storage.content_map()[base]);
                        assert(self.content(c.0) == before.content(base));
                        assert(c.0 >= s1.storage.next_id);
                    }
                    ds.push(Stream { name: ss[i].name.clone(), content: c, size: ss[i].size });
                    assert(ds@[i as int]@.content == c.0);
                    i = i + 1;
                }
                NodeKind::File { streams: ds }
            },
            Shape::D(sc) => {
                let ghost cv = sc@.map_values(|c: DirChild| c@);
                let mut dc: Vec<DirChild> = Vec::new();
                let mut i: usize = 0;
                while i < sc.len()
                    invariant
                        i <= sc@.len(),
                        fuel > 0,
                        self.wf(),
                        orig.wf(),
                        lo == orig.next_node_id(),
                        cv == sc@.map_values(|c: DirChild| c@),
                        a@.kind == (KindV::Dir { children: cv }),
                        self.keeps(s1, s1.next_node_id()),
                        self.same_bookkeeping(s1),
                        s1.keeps(orig, lo as int),
                        s1.keeps(*old(self), old(self).next_node_id()),
                        s1.same_bookkeeping(*old(self)),
                        old(self).next_node_id() <= s1.next_node_id(),
                        clo@ == orig.storage.next_id as int,
                        s1.node(dst) is None,
                        dst == s1.nodes@.len(),
                        dc@.len() == i,
                        forall|k: int| 0 <= k < i ==> (#[trigger] dc@[k])@.0 == cv[k].0 && clone_of(
                            *self,
                            orig,
                            cv[k].1,
                            dc@[k]@.1,
                            lo as int,
                            clo@,
                            (fuel - 1) as nat,
                        ),
                    decreases sc@.len() - i,
                {
                    let ghost before = *self;
                    proof {
                        assert(cv[i as int] == sc@[i as int]@);
                        assert(self.keeps(orig, lo as int)) by {
                            assert forall|k: u64| (k as int) < lo implies #[trigger] self.node(k) == orig.node(k) by {
                                assert(self.node(k) == s1.node(k));
                                assert(s1.node(k) == orig.node(k));
                            }
                            assert forall|c: u64| orig.content(c) is Some implies #[trigger] self.content(c) == orig.content(c) by {
                                assert(s1.content(c) == orig.content(c));
                            }
                        }
                    }
                    let child = match self.clone_node_cow_recursive(sc[i].id, lo, fuel - 1, Ghost(orig)) {
                        Ok(c) => c,
                        Err(e) => {
                            proof {
                                s1.lemma_keeps_trans(before, *self, s1.next_node_id(), before.next_node_id());
                                old(self).lemma_keeps_trans(s1, *self, old(self).next_node_id(), s1.next_node_id());
                            }
                            return Err(e);
                        },
                    };
                    proof {
                        s1.lemma_keeps_trans(before, *self, s1.next_node_id(), before.next_node_id());
                    }
                    proof {
                        assert forall|k: u64| before.node(k) is Some implies #[trigger] self.node(k) == before.node(k) by {
                            assert((k as int) < before.next_node_id());
                        }
                        assert forall|k: int| 0 <= k < i implies (#[trigger] dc@[k])@.0 == cv[k].0 && clone_of(
                            *self,
                            orig,
                            cv[k].1,
                            dc@[k]@.1,
                            lo as int,
                            clo@,
                            (fuel - 1) as nat,
                        ) by {
                            lemma_clone_frame(before, *self, orig, cv[k].1, dc@[k]@.1, lo as int, clo@, (fuel - 1) as nat);
                        }
                    }
                    assert(clone_of(*self, orig, sc@[i as int].id, child, lo as int, orig.storage.next_id as int, (fuel - 1) as nat));
                    assert(clone_of(*self, orig, cv[i as int].1, child, lo as int, clo@, (fuel - 1) as nat));
                    dc.push(DirChild { name: sc[i].name.clone(), id: child });
                    assert(dc@[i as int]@.0 == cv[i as int].0);
                    assert(dc@[i as int]@.1 == child);
                    i = i + 1;
                }
                NodeKind::Directory { children: dc }
            },
            Shape::S(t) => NodeKind::Symlink { target: t },
        };
        let ghost s2 = *self;
        proof {
            assert(self.keeps(s1, s1.next_node_id()));
            old(self).lemma_keeps_trans(s1, *self, old(self).next_node_id(), s1.next_node_id());
        }
        let m = Node { id: dst, kind, times, mode, uid, gid, xattrs };
        proof {
            assert(m@.xattrs == a@.xattrs);
            assert forall|k: int| 0 <= k < streams_of(m@).len() implies self.content(#[trigger] streams_of(m@)[k].content)
                is Some by {
                let sv = a@.kind->File_streams;
                assert(streams_of(super::node_in(orig.nodes@, src).unwrap())[k] == sv[k]);
                assert(orig.content(sv[k].content) is Some);
            }
        }
        self.put_node(m);
        proof {
            assert forall|k: u64| s2.node(k) is Some implies #[trigger] self.node(k) == s2.node(k) by {
                if k == dst {
                    assert(s2.node(dst) == s1.node(dst));
                }
            }
            match a@.kind {
                KindV::Dir { children: cv } => {
                    let dcv = m@.kind->Dir_children;
                    assert forall|k: int| 0 <= k < cv.len() implies (#[trigger] dcv[k]).0 == cv[k].0 && clone_of(
                        *self,
                        orig,
                        cv[k].1,
                        dcv[k].1,
                        lo as int,
                        clo@,
                        (fuel - 1) as nat,
                    ) by {
                        lemma_clone_frame(s2, *self, orig, cv[k].1, dcv[k].1, lo as int, clo@, (fuel - 1) as nat);
                    }
                },
                _ => {},
            }
            assert(orig.node(src) == Some(a@));
            assert(self.storage == s2.storage);
            assert forall|c: u64| old(self).content(c) is Some implies #[trigger] self.content(c) == old(self).content(c) by {
                assert(s2.content(c) == old(self).content(c));
            }
        }
        Ok(dst)
    }
}

} // verus!
