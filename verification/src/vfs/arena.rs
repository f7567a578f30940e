//! Node arena primitives: reserving ids, storing, taking and editing nodes.

use vstd::prelude::*;

use crate::seqs::lemma_first_match;

use super::{child_index, child_named, streams_of, DirChild, FsCore, KindV, Node, NodeKind, NodeV};

verus! {

/// Every stream of `n` refers to stored content of `core`.
pub open spec fn contents_present(core: FsCore, n: NodeV) -> bool {
    forall|k: int| 0 <= k < streams_of(n).len() ==> core.content(#[trigger] streams_of(n)[k].content) is Some
}

impl FsCore {
    /// Whether another node id can be handed out.
    pub open spec fn can_allocate_node(self) -> bool {
        self.nodes@.len() + 1 < u64::MAX
    }

    /// After the storage only gained content, the core is still well formed.
    pub proof fn lemma_storage_grew(self, before: FsCore)
        requires
            before.wf(),
            self.storage.wf(),
            self.nodes == before.nodes,
            self.same_bookkeeping(before),
            forall|x: u64| before.storage.content_map().contains_key(x) ==> #[trigger] self.storage.content_map().contains_key(x),
        ensures
            self.wf(),
            forall|x: u64| before.content(x) is Some ==> #[trigger] self.content(x) is Some,
    {
        let b = before;
        assert forall|x: u64| b.content(x) is Some implies #[trigger] self.content(x) is Some by {
            assert(b.storage.content_map().contains_key(x));
            assert(self.storage.content_map().contains_key(x));
        }
        assert forall|id: u64, k: int|
            #![trigger streams_of(super::node_in(self.nodes@, id).unwrap())[k]]
            super::node_in(self.nodes@, id) is Some && 0 <= k < streams_of(super::node_in(self.nodes@, id).unwrap()).len()
                implies self.content(streams_of(super::node_in(self.nodes@, id).unwrap())[k].content) is Some by {
            assert(self.node(id) == b.node(id));
            assert(b.content(streams_of(super::node_in(b.nodes@, id).unwrap())[k].content) is Some);
        }
    }

    /// Hands out the next node id, leaving its slot empty.
    pub fn reserve_node_id(&mut self) -> (r: Option<u64>)
        requires
            old(self).wf(),
        ensures
            final(self).wf(),
            final(self).same_bookkeeping(*old(self)),
            final(self).storage == old(self).storage,
            match r {
                Some(id) => {
                    &&& old(self).can_allocate_node()
                    &&& id == old(self).next_node_id()
                    &&& final(self).nodes@ == old(self).nodes@.push(None)
                },
                None => !old(self).can_allocate_node() && final(self).nodes@ == old(self).nodes@,
            },
    {
        let len = self.nodes.len();
        if len as u64 >= u64::MAX - 1 {
            return None;
        }
        self.nodes.push(None);
        proof {
            assert forall|id: u64| #![auto] self.node(id) == old(self).node(id) by {}
            assert forall|id: u64| #[trigger] super::node_in(self.nodes@, id) is Some implies super::node_names_ok(
                super::node_in(self.nodes@, id).unwrap(),
            ) by {
                assert(self.node(id) == old(self).node(id));
            }
            assert forall|id: u64, k: int|
                #![trigger streams_of(super::node_in(self.nodes@, id).unwrap())[k]]
                super::node_in(self.nodes@, id) is Some && 0 <= k < streams_of(super::node_in(self.nodes@, id).unwrap()).len()
                    implies self.content(streams_of(super::node_in(self.nodes@, id).unwrap())[k].content) is Some by {
                assert(self.node(id) == old(self).node(id));
            }
        }
        Some(len as u64 + 1)
    }

    /// Stores `n` in its slot.
    pub fn put_node(&mut self, n: Node)
        requires
            old(self).wf(),
            1 <= n.id <= old(self).nodes@.len(),
            contents_present(*old(self), n@),
            super::node_names_ok(n@),
        ensures
            final(self).wf(),
            final(self).same_bookkeeping(*old(self)),
            final(self).storage == old(self).storage,
            final(self).nodes@ == old(self).nodes@.update(n.id - 1, Some(n)),
            final(self).node(n.id) == Some(n@),
            forall|k: u64| k != n.id ==> final(self).node(k) == old(self).node(k),
    {
        let ghost nv = n@;
        let ghost id = n.id;
        let len = self.nodes.len();
        let i = (n.id - 1) as usize;
        assert(i == id - 1);
        self.nodes.set(i, Some(n));
        proof {
            assert forall|k: u64, j: int|
                #![trigger streams_of(super::node_in(self.nodes@, k).unwrap())[j]]
                super::node_in(self.nodes@, k) is Some && 0 <= j < streams_of(super::node_in(self.nodes@, k).unwrap()).len()
                    implies self.content(streams_of(super::node_in(self.nodes@, k).unwrap())[j].content) is Some by {
                if k == id {
                    assert(self.node(k) == Some(nv));
                } else {
                    assert(self.node(k) == old(self).node(k));
                }
            }
            assert forall|k: u64| #[trigger] super::node_in(self.nodes@, k) is Some implies super::node_names_ok(
                super::node_in(self.nodes@, k).unwrap(),
            ) by {
                if k != id {
                    assert(self.node(k) == old(self).node(k));
                }
            }
        }
    }

    /// Moves node `id` out of its slot (the slot becomes empty).
    pub fn take_node(&mut self, id: u64) -> (r: Option<Node>)
        requires
            old(self).wf(),
        ensures
            final(self).wf(),
            final(self).same_bookkeeping(*old(self)),
            final(self).storage == old(self).storage,
            match r {
                Some(n) => {
                    &&& old(self).node(id) == Some(n@)
                    &&& n.id == id
                    &&& final(self).nodes@ == old(self).nodes@.update(id - 1, None)
                    &&& final(self).node(id) is None
                    &&& contents_present(*old(self), n@)
                    &&& super::node_names_ok(n@)
                },
                None => old(self).node(id) is None && final(self).nodes@ == old(self).nodes@,
            },
            forall|k: u64| k != id ==> final(self).node(k) == old(self).node(k),
    {
        if id == 0 || id - 1 >= self.nodes.len() as u64 {
            return None;
        }
        let i = (id - 1) as usize;
        assert(i == id - 1);
        let r = self.nodes[i].take();
        proof {
            if let Some(n) = &r {
                assert(old(self).nodes@[i as int] == Some(*n));
                assert(old(self).node(id) == Some(n@));
                assert(n.id == id);
                assert(self.nodes@ == old(self).nodes@.update(id - 1, None));
                assert(self.node(id) is None);
                assert forall|k: int| 0 <= k < streams_of(n@).len() implies old(self).content(
                    #[trigger] streams_of(n@)[k].content,
                ) is Some by {
                    assert(streams_of(old(self).node(id).unwrap())[k] == streams_of(n@)[k]);
                }
                assert(contents_present(*old(self), n@));
                assert(super::node_in(old(self).nodes@, id) is Some);
            } else {
                assert(self.nodes@ =~= old(self).nodes@);
            }
            assert forall|k: u64, j: int|
                #![trigger streams_of(super::node_in(self.nodes@, k).unwrap())[j]]
                super::node_in(self.nodes@, k) is Some && 0 <= j < streams_of(super::node_in(self.nodes@, k).unwrap()).len()
                    implies self.content(streams_of(super::node_in(self.nodes@, k).unwrap())[j].content) is Some by {
                assert(self.node(k) == old(self).node(k));
            }
            assert forall|k: u64| #[trigger] super::node_in(self.nodes@, k) is Some implies super::node_names_ok(
                super::node_in(self.nodes@, k).unwrap(),
            ) by {
                assert(self.node(k) == old(self).node(k));
            }
        }
        r
    }

    /// Empties the slot of node `id` (no-op when it has none).
    pub fn remove_node(&mut self, id: u64)
        requires
            old(self).wf(),
        ensures
            final(self).wf(),
            final(self).same_bookkeeping(*old(self)),
            final(self).storage == old(self).storage,
            final(self).node(id) is None,
            final(self).nodes@.len() == old(self).nodes@.len(),
            forall|k: u64| k != id ==> final(self).node(k) == old(self).node(k),
    {
        let _ = self.take_node(id);
    }

    /// Appends `name -> child` to directory `dir` (no-op if `dir` is not a
    /// directory), which must not have an entry named `name` yet.
    pub fn dir_add_child(&mut self, dir: u64, name: String, child: u64)
        requires
            old(self).wf(),
            old(self).node(dir) matches Some(d) && d.kind matches KindV::Dir { children } ==> super::find_child(
                children,
                name@,
            ) is None,
        ensures
            final(self).wf(),
            final(self).same_bookkeeping(*old(self)),
            final(self).storage == old(self).storage,
            final(self).nodes@.len() == old(self).nodes@.len(),
            forall|k: u64| k != dir ==> final(self).node(k) == old(self).node(k),
            match old(self).node(dir) {
                Some(n) => match n.kind {
                    KindV::Dir { children } => final(self).node(dir) == Some(NodeV {
                        kind: KindV::Dir { children: children.push((name@, child)) },
                        ..n
                    }),
                    _ => final(self).node(dir) == old(self).node(dir),
                },
                None => final(self).node(dir) is None,
            },
    {
        let ghost name_v = name@;
        match self.take_node(dir) {
            None => {},
            Some(n) => {
                let Node { id, kind, times, mode, uid, gid, xattrs } = n;
                let kind = match kind {
                    NodeKind::Directory { mut children } => {
                        let ghost old_ch = children@;
                        let ghost cv = old_ch.map_values(|c: DirChild| c@);
                        proof {
                            lemma_first_match(cv, child_named(name_v));
                        }
                        children.push(DirChild { name, id: child });
                        assert(children@.map_values(|c: DirChild| c@) =~= cv.push((name_v, child)));
                        assert forall|i: int, j: int| 0 <= i < j < cv.len() + 1 implies (#[trigger] cv.push(
                            (name_v, child),
                        )[i]).0 != (#[trigger] cv.push((name_v, child))[j]).0 by {
                            if j == cv.len() {
                                assert(!child_named(name_v)(cv[i]));
                            }
                        }
                        NodeKind::Directory { children }
                    },
                    k => k,
                };
                self.put_node(Node { id, kind, times, mode, uid, gid, xattrs });
            },
        }
    }

    /// Removes the first entry named `name` from directory `dir`, if any.
    pub fn dir_remove_child(&mut self, dir: u64, name: &String)
        requires
            old(self).wf(),
        ensures
            final(self).wf(),
            final(self).same_bookkeeping(*old(self)),
            final(self).storage == old(self).storage,
            final(self).nodes@.len() == old(self).nodes@.len(),
            forall|k: u64| k != dir ==> final(self).node(k) == old(self).node(k),
            match old(self).node(dir) {
                Some(n) => match n.kind {
                    KindV::Dir { children } => final(self).node(dir) == Some(NodeV {
                        kind: KindV::Dir {
                            children: match child_index(children, name@) {
                                Some(i) => children.remove(i),
                                None => children,
                            },
                        },
                        ..n
                    }),
                    _ => final(self).node(dir) == old(self).node(dir),
                },
                None => final(self).node(dir) is None,
            },
    {
        match self.take_node(dir) {
            None => {},
            Some(n) => {
                let Node { id, kind, times, mode, uid, gid, xattrs } = n;
                let kind = match kind {
                    NodeKind::Directory { mut children } => {
                        let ghost old_ch = children@;
                        let ghost cv = old_ch.map_values(|c: DirChild| c@);
                        match super::resolve::find_child_index(&children, name) {
                            Some(i) => {
                                let _ = children.remove(i);
                                assert(children@.map_values(|c: DirChild| c@) =~= cv.remove(i as int));
                            },
                            None => {},
                        }
                        NodeKind::Directory { children }
                    },
                    k => k,
                };
                self.put_node(Node { id, kind, times, mode, uid, gid, xattrs });
            },
        }
    }
}

} // verus!
