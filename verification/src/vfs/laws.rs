//! Properties that hold across operations of the core.

use vstd::prelude::*;

use crate::error::FsError;
use crate::path::{parent_names, path_names};
use crate::seqs::{first_match, lemma_first_match, lemma_first_match_at, lemma_first_match_none};
use crate::storage::{law_read_back_write, write_bytes};
use crate::types::{seq_id_bytes, BranchId, HandleId, LockKind, OpenOptionsView, FileMode, LockRange, SubscriptionId, User};
use super::clone::{clone_of, lemma_clone_frame};
use super::io::{stream_name_of, streams_after_write};
use super::locks::{kept_after_unlock, lock_blocks, overlap};
use super::procs::{not_of, rebound};
use super::remove::removed_child;
use super::listing::{raw_name, rawname_attr};
use crate::text::internal_name;
use super::{binding_of, branch_with, child_index, child_named, handle_with, names_distinct, node_names_ok, default_branch_bytes, find_child, record_of, snapshot_with, EventV, Branch, NodeV, attributes_of, mode_triple, stream_index, stream_named, xattr_index, xattr_named, ActiveLock, FsCore, KindV, ProcessRecord, StreamV};

verus! {

/// After a write, the written stream is found under its name and refers to `c`.
pub proof fn lemma_stream_after_write(ss: Seq<StreamV>, name: Seq<char>, c: u64, off: u64, len: nat)
    ensures
        ({
            let t = streams_after_write(ss, name, c, off, len);
            stream_index(t, name) matches Some(j) && 0 <= j < t.len() && t[j].content == c && t[j].name == name
        }),
{
    let p = stream_named(name);
    lemma_first_match(ss, p);
    let t = streams_after_write(ss, name, c, off, len);
    match stream_index(ss, name) {
        Some(i) => {
            assert forall|j: int| 0 <= j < i implies !p(#[trigger] t[j]) by {
                assert(t[j] == ss[j]);
            }
            lemma_first_match_at(t, p, i);
        },
        None => {
            assert forall|j: int| 0 <= j < ss.len() implies !p(#[trigger] t[j]) by {
                assert(t[j] == ss[j]);
            }
            lemma_first_match_at(t, p, ss.len() as int);
        },
    }
}

/// What a read gives back of a write: after writing `d` at `off` through a
/// handle that is also open for reading, a read through it finds content
/// whose bytes from `off` on are `d`.
pub proof fn law_read_after_write(old: FsCore, new: FsCore, pid: u32, h: HandleId, off: u64, d: Seq<u8>)
    requires
        new.write_done(old, pid, h, off, d),
        old.handles@[old.handle_index(h).unwrap()].options.read,
    ensures
        new.read_source(h) matches Ok(c) && new.content(c) matches Some(bytes) && bytes.subrange(
            off as int,
            off + d.len(),
        ) == d,
{
    let (node, ss, name) = old.write_target(pid, h)->Ok_0;
    let i = old.handle_index(h).unwrap();
    let hd = old.handles@[i];
    assert(new.handles == old.handles);
    assert(new.handle_index(h) == Some(i));
    assert(hd.node_id == node);
    assert(name == stream_name_of(hd.options@));
    let c = old.written_content(ss, name);
    lemma_stream_after_write(ss, name, c, off, d.len());
    let t = streams_after_write(ss, name, c, off, d.len());
    assert(new.node(node).unwrap().kind == (KindV::File { streams: t }));
    assert(new.read_source(h) == Ok::<u64, crate::error::FsError>(c));
    let map = old.storage_after_write(ss, name, off, d);
    assert(new.storage.content_map() == map);
    assert(map.contains_key(c));
    let src = match stream_index(ss, name) {
        Some(k) => old.content(ss[k].content).unwrap(),
        None => Seq::empty(),
    };
    assert(map[c] == write_bytes(src, off as int, d));
    assert(new.storage.content_map().contains_key(c));
    assert(new.content(c) == Some(map[c]));
    law_read_back_write(src, off as int, d);
}

/// A write changes no content that existed before it.
pub proof fn law_write_keeps_existing_content(old: FsCore, new: FsCore, pid: u32, h: HandleId, off: u64, d: Seq<u8>)
    requires
        old.wf(),
        new.write_done(old, pid, h, off, d),
    ensures
        forall|x: u64| old.content(x) is Some ==> #[trigger] new.content(x) == old.content(x),
{
    let (node, ss, name) = old.write_target(pid, h)->Ok_0;
    let c0 = old.storage.next_id;
    assert forall|x: u64| old.content(x) is Some implies #[trigger] new.content(x) == old.content(x) by {
        assert(x < c0);
        assert(old.storage.content_map().contains_key(x));
        let m = old.storage_after_write(ss, name, off, d);
        assert(new.storage.content_map() == m);
        assert(x >= 1 && x != c0);
        match stream_index(ss, name) {
            Some(i) => {
                assert(m[x] == old.storage.content_map()[x]);
            },
            None => {
                assert(x != (c0 + 1) as u64);
                assert(m[x] == old.storage.content_map()[x]);
            },
        }
        assert(new.storage.content_map().contains_key(x));
    }
}

/// Branch isolation, one way: a write to a node of the original tree (an id
/// below `lo`) leaves a deep copy made of it unchanged.
pub proof fn law_copy_unaffected_by_source_write(
    s1: FsCore,
    s2: FsCore,
    o: FsCore,
    src: u64,
    dst: u64,
    lo: int,
    clo: int,
    fuel: nat,
    pid: u32,
    h: HandleId,
    off: u64,
    d: Seq<u8>,
)
    requires
        clone_of(s1, o, src, dst, lo, clo, fuel),
        o.wf(),
        s1.wf(),
        s2.write_done(s1, pid, h, off, d),
        s1.write_target(pid, h)->Ok_0.0 < lo,
    ensures
        clone_of(s2, o, src, dst, lo, clo, fuel),
{
    law_write_keeps_existing_content(s1, s2, pid, h, off, d);
    lemma_clone_frame(s1, s2, o, src, dst, lo, clo, fuel);
}

/// Branch isolation, other way: a write to a node of a copy (an id from `lo`
/// on) leaves every node of the original tree, and every existing content,
/// unchanged.
pub proof fn law_source_unaffected_by_copy_write(s1: FsCore, s2: FsCore, lo: int, pid: u32, h: HandleId, off: u64, d: Seq<u8>)
    requires
        s1.wf(),
        s2.write_done(s1, pid, h, off, d),
        s1.write_target(pid, h)->Ok_0.0 >= lo,
    ensures
        forall|k: u64| (k as int) < lo ==> #[trigger] s2.node(k) == s1.node(k),
        forall|x: u64| s1.content(x) is Some ==> #[trigger] s2.content(x) == s1.content(x),
{
    law_write_keeps_existing_content(s1, s2, pid, h, off, d);
}

/// A copy's root is a new node, distinct from the root it copies.
pub proof fn law_copy_root_is_new(s: FsCore, o: FsCore, src: u64, dst: u64, lo: int, clo: int, fuel: nat)
    requires
        clone_of(s, o, src, dst, lo, clo, fuel),
    ensures
        src < lo <= dst,
        src != dst,
        o.node(src) is Some,
        s.node(dst) is Some,
{
}

/// Keeping every element keeps the sequence.
proof fn lemma_filter_all<T>(s: Seq<T>, p: spec_fn(T) -> bool)
    requires
        forall|i: int| 0 <= i < s.len() ==> p(#[trigger] s[i]),
    ensures
        s.filter(p) == s,
    decreases s.len(),
{
    reveal(Seq::filter);
    if s.len() > 0 {
        lemma_filter_all(s.drop_last(), p);
        assert(s.drop_last().push(s.last()) =~= s);
    }
}

/// What unlocking undoes: when no lock equal to it was held, taking a lock and
/// then releasing the same range through the same handle gives back the
/// locks held before.
pub proof fn law_unlock_undoes_lock(ls: Seq<ActiveLock>, node: u64, h: HandleId, r: LockRange)
    requires
        forall|i: int| 0 <= i < ls.len() ==> kept_after_unlock(node, h, r)(#[trigger] ls[i]),
    ensures
        ls.push(ActiveLock { node_id: node, handle_id: h, range: r }).filter(kept_after_unlock(node, h, r)) == ls,
{
    let l = ActiveLock { node_id: node, handle_id: h, range: r };
    ls.lemma_filter_push(l, kept_after_unlock(node, h, r));
    lemma_filter_all(ls, kept_after_unlock(node, h, r));
}

/// A held lock refuses every overlapping lock on its node when either is exclusive.
pub proof fn law_lock_blocks_overlap(old: FsCore, new: FsCore, node: u64, h: HandleId, r: LockRange, r2: LockRange)
    requires
        new.locks@ == old.locks@.push(ActiveLock { node_id: node, handle_id: h, range: r }),
        overlap(r, r2),
        r.kind == LockKind::Exclusive || r2.kind == LockKind::Exclusive,
    ensures
        new.lock_conflict(node, r2),
{
    let i = old.locks@.len() as int;
    assert(lock_blocks(new.locks@[i], node, r2));
}

/// Binding process `pid` to branch `b` makes it work in `b`, and leaves the
/// branch of every other process as it was.
pub proof fn law_bind_sets_branch(old: FsCore, new: FsCore, pid: u32, b: BranchId)
    requires
        new.process_branches@ == rebound(old.process_branches@, pid, b),
    ensures
        new.branch_of(pid) == b.0@,
        forall|q: u32| q != pid ==> #[trigger] new.branch_of(q) == old.branch_of(q),
{
    let bs = old.process_branches@;
    let nb = new.process_branches@;
    lemma_first_match(bs, binding_of(pid));
    match first_match(bs, binding_of(pid)) {
        Some(i) => {
            assert forall|j: int| 0 <= j < i implies !binding_of(pid)(#[trigger] nb[j]) by {
                assert(nb[j] == bs[j]);
            }
            lemma_first_match_at(nb, binding_of(pid), i);
        },
        None => {
            assert forall|j: int| 0 <= j < bs.len() implies !binding_of(pid)(#[trigger] nb[j]) by {
                assert(nb[j] == bs[j]);
            }
            lemma_first_match_at(nb, binding_of(pid), bs.len() as int);
        },
    }
    assert forall|q: u32| q != pid implies #[trigger] new.branch_of(q) == old.branch_of(q) by {
        lemma_first_match(bs, binding_of(q));
        lemma_first_match(nb, binding_of(q));
        assert forall|j: int| 0 <= j < bs.len() implies #[trigger] binding_of(q)(nb[j]) == binding_of(q)(bs[j]) by {
            if first_match(bs, binding_of(pid)) == Some(j) {
                assert(bs[j].pid == pid);
            }
        }
        match first_match(bs, binding_of(q)) {
            Some(k) => {
                assert(binding_of(q)(nb[k]));
                assert forall|j: int| 0 <= j < k implies !binding_of(q)(#[trigger] nb[j]) by {
                    assert(!binding_of(q)(bs[j]));
                }
                lemma_first_match_at(nb, binding_of(q), k);
                if first_match(bs, binding_of(pid)) == Some(k) {
                    assert(bs[k].pid == pid);
                }
                assert(nb[k] == bs[k]);
            },
            None => {
                assert forall|j: int| 0 <= j < nb.len() implies !binding_of(q)(#[trigger] nb[j]) by {
                    if j < bs.len() {
                        assert(!binding_of(q)(bs[j]));
                    }
                }
                lemma_first_match_none(nb, binding_of(q));
            },
        }
    }
}

/// Unbinding process `pid` returns it to the default branch.
pub proof fn law_unbind_restores_default(old: FsCore, new: FsCore, pid: u32)
    requires
        new.process_branches@ == old.process_branches@.filter(not_of(pid)),
    ensures
        new.branch_of(pid) == default_branch_bytes(),
{
    let nb = new.process_branches@;
    assert forall|j: int| 0 <= j < nb.len() implies !binding_of(pid)(#[trigger] nb[j]) by {
        old.process_branches@.lemma_filter_pred(not_of(pid), j);
    }
    lemma_first_match_none(nb, binding_of(pid));
}

/// A process acts with the identity it first registered with: registering a
/// new process gives it `uid`:`gid`, registering again changes nothing.
pub proof fn law_registered_identity(old: FsCore, new: FsCore, pid: u32, ppid: u32, uid: u32, gid: u32)
    requires
        new.config == old.config,
        new.processes@ == if old.process_index(pid) is Some {
            old.processes@
        } else {
            old.processes@.push(ProcessRecord { pid, ppid, uid, gid })
        },
    ensures
        new.user_of(pid) == if old.process_index(pid) is Some {
            old.user_of(pid)
        } else {
            User { uid, gid }
        },
{
    let ps = old.processes@;
    if old.process_index(pid) is None {
        lemma_first_match(ps, record_of(pid));
        let np = new.processes@;
        assert forall|j: int| 0 <= j < ps.len() implies !record_of(pid)(#[trigger] np[j]) by {
            assert(np[j] == ps[j]);
        }
        lemma_first_match_at(np, record_of(pid), ps.len() as int);
    }
}

/// A new branch is found by its id: its id was never used before.
pub proof fn law_new_branch_found(old: FsCore, new: FsCore)
    requires
        old.wf(),
        new.branches@.len() == old.branches@.len() + 1,
        new.branches@.drop_last() == old.branches@,
        new.branches@.last().id.0@ == seq_id_bytes(old.next_branch_seq),
    ensures
        new.branch_index(new.branches@.last().id.0@) == Some(old.branches@.len() as int),
{
    let b = new.branches@.last().id.0@;
    let n = old.branches@.len() as int;
    assert forall|j: int| 0 <= j < n implies !branch_with(b)(#[trigger] new.branches@[j]) by {
        assert(new.branches@[j] == old.branches@[j]);
        assert(old.branches@[j].id.0@ != seq_id_bytes(old.next_branch_seq));
    }
    lemma_first_match_at(new.branches@, branch_with(b), n);
}

/// A new snapshot is found by its id: its id was never used before.
pub proof fn law_new_snapshot_found(old: FsCore, new: FsCore)
    requires
        old.wf(),
        new.snapshots@.len() == old.snapshots@.len() + 1,
        new.snapshots@.drop_last() == old.snapshots@,
        new.snapshots@.last().id.0@ == seq_id_bytes(old.next_snapshot_seq),
    ensures
        new.snapshot_index(new.snapshots@.last().id) == Some(old.snapshots@.len() as int),
{
    let s = new.snapshots@.last().id.0@;
    let n = old.snapshots@.len() as int;
    assert forall|j: int| 0 <= j < n implies !snapshot_with(s)(#[trigger] new.snapshots@[j]) by {
        assert(new.snapshots@[j] == old.snapshots@[j]);
        assert(old.snapshots@[j].id.0@ != seq_id_bytes(old.next_snapshot_seq));
    }
    lemma_first_match_at(new.snapshots@, snapshot_with(s), n);
}

/// A process bound to a newly created branch works in that branch's tree.
pub proof fn law_bound_process_sees_new_branch(old: FsCore, mid: FsCore, new: FsCore, pid: u32)
    requires
        old.wf(),
        mid.branches@.len() == old.branches@.len() + 1,
        mid.branches@.drop_last() == old.branches@,
        mid.branches@.last().id.0@ == seq_id_bytes(old.next_branch_seq),
        new.branches == mid.branches,
        new.process_branches@ == rebound(mid.process_branches@, pid, mid.branches@.last().id),
    ensures
        new.root_of(pid) == Some(mid.branches@.last().root_id),
{
    law_new_branch_found(old, mid);
    law_bind_sets_branch(mid, new, pid, mid.branches@.last().id);
}

/// `new` is `old` with the entry `name -> id` appended to directory `d` and
/// node `id`, absent before, added; the registry is unchanged.
pub open spec fn entry_added(new: FsCore, old: FsCore, d: u64, name: Seq<char>, id: u64) -> bool {
    &&& old.node(id) is None
    &&& new.node(id) is Some
    &&& old.node(d) matches Some(dn) && dn.kind matches KindV::Dir { children } && new.node(d) == Some(
        NodeV { kind: KindV::Dir { children: children.push((name, id)) }, ..dn },
    )
    &&& forall|k: u64| k != d && k != id ==> #[trigger] new.node(k) == old.node(k)
    &&& new.config == old.config
    &&& new.branches == old.branches
    &&& new.processes == old.processes
    &&& new.process_branches == old.process_branches
}

/// Appending an element keeps an existing first match.
proof fn lemma_first_match_push_kept<T>(s: Seq<T>, x: T, p: spec_fn(T) -> bool)
    requires
        first_match(s, p) is Some,
    ensures
        first_match(s.push(x), p) == first_match(s, p),
{
    lemma_first_match(s, p);
    let i = first_match(s, p).unwrap();
    assert forall|j: int| 0 <= j < i implies !p(#[trigger] s.push(x)[j]) by {
        assert(s.push(x)[j] == s[j]);
    }
    assert(s.push(x)[i] == s[i]);
    lemma_first_match_at(s.push(x), p, i);
}

/// A lookup that succeeded before an entry was added still gives the same result.
proof fn lemma_walk_entry_added(
    old: FsCore,
    new: FsCore,
    user: User,
    cur: u64,
    names: Seq<Seq<char>>,
    i: nat,
    d: u64,
    name: Seq<char>,
    id: u64,
)
    requires
        entry_added(new, old, d, name, id),
        old.walk(user, cur, names, i) is Ok,
    ensures
        new.walk(user, cur, names, i) == old.walk(user, cur, names, i),
    decreases names.len() - i,
{
    if i < names.len() {
        let n1 = old.node(cur).unwrap();
        assert(cur != id);
        match n1.kind {
            KindV::Dir { children } => {
                let c = find_child(children, names[i as int]).unwrap();
                if cur == d {
                    lemma_first_match_push_kept(children, (name, id), child_named(names[i as int]));
                    lemma_first_match(children, child_named(names[i as int]));
                    let k = crate::vfs::child_index(children, names[i as int]).unwrap();
                    assert(children.push((name, id))[k] == children[k]);
                    assert(find_child(children.push((name, id)), names[i as int]) == Some(c));
                }
                if i + 1 < names.len() {
                    lemma_walk_entry_added(old, new, user, c, names, i + 1, d, name, id);
                }
            },
            _ => {},
        }
    }
}

/// Looking up one more name after a lookup that ends at a directory: the
/// extended lookup takes one step from that directory.
proof fn lemma_walk_extend(s: FsCore, user: User, cur: u64, names: Seq<Seq<char>>, n: Seq<char>, i: nat)
    requires
        i <= names.len(),
        s.walk(user, cur, names, i) matches Ok((d, _)) && s.node(d) matches Some(dn) && dn.kind is Dir,
    ensures
        s.walk(user, cur, names.push(n), i) == s.walk(user, s.walk(user, cur, names, i)->Ok_0.0, seq![n], 0),
    decreases names.len() - i,
{
    let full = names.push(n);
    if i < names.len() {
        assert(full[i as int] == names[i as int]);
        let n1 = s.node(cur).unwrap();
        match n1.kind {
            KindV::Dir { children } => {
                let c = find_child(children, names[i as int]).unwrap();
                lemma_walk_extend(s, user, c, names, n, i + 1);
            },
            _ => {},
        }
    } else {
        assert(full[i as int] == n);
        assert(seq![n][0] == n);
        let dn = s.node(cur).unwrap();
        match dn.kind {
            KindV::Dir { children } => {
                assert(s.walk(user, cur, full, i) == s.walk(user, cur, seq![n], 0));
            },
            _ => {},
        }
    }
}

/// What a lookup gives back of a creation: after `mkdir`, `create` or
/// `symlink` adds the entry for path `p`, looking `p` up finds the new node,
/// in the directory and under the name it was added with.
pub proof fn law_new_entry_resolves(old: FsCore, new: FsCore, pid: u32, p: Seq<char>, err: FsError)
    requires
        new.entry_made(old, pid, p, err),
    ensures
        new.resolve(pid, path_names(p)) == Ok::<(u64, Option<(u64, Seq<char>)>), FsError>(
            (
                old.next_node_id() as u64,
                Some((old.entry_target(pid, p, err)->Ok_0.0, old.entry_target(pid, p, err)->Ok_0.1)),
            ),
        ),
{
    let id = old.next_node_id() as u64;
    let (dir, name) = old.entry_target(pid, p, err)->Ok_0;
    assert(old.node(id) is None);
    assert(entry_added(new, old, dir, name, id));
    let pn = parent_names(p).unwrap();
    assert(path_names(p) == pn.push(name));
    let user = old.user_of(pid);
    assert(new.user_of(pid) == user);
    assert(new.root_of(pid) == old.root_of(pid));
    let root = old.root_of(pid).unwrap();
    lemma_walk_entry_added(old, new, user, root, pn, 0, dir, name, id);
    let dn = old.node(dir).unwrap();
    let children = dn.kind->Dir_children;
    lemma_walk_extend(new, user, root, pn, name, 0);
    let nd = new.node(dir).unwrap();
    assert(new.access_ok(user, nd, false, false, true));
    lemma_first_match(children, child_named(name));
    assert forall|j: int| 0 <= j < children.len() implies !child_named(name)(#[trigger] children.push((name, id))[j]) by {
        assert(children.push((name, id))[j] == children[j]);
    }
    lemma_first_match_at(children.push((name, id)), child_named(name), children.len() as int);
    assert(seq![name][0] == name);
}

/// A closed handle is gone: no open handle has its id any more, so every
/// operation through it is refused as an invalid argument.
pub proof fn law_closed_handle_is_gone(old: FsCore, new: FsCore, h: HandleId)
    requires
        old.wf(),
        old.handle_index(h) is Some,
        new.handles@ == old.handles@.remove(old.handle_index(h).unwrap()),
    ensures
        new.handle_index(h) is None,
{
    let i = old.handle_index(h).unwrap();
    lemma_first_match(old.handles@, handle_with(h));
    assert forall|j: int| 0 <= j < new.handles@.len() implies !handle_with(h)(#[trigger] new.handles@[j]) by {
        if j < i {
            assert(new.handles@[j] == old.handles@[j]);
            assert(old.handles@[j].id != old.handles@[i].id);
        } else {
            assert(new.handles@[j] == old.handles@[j + 1]);
            assert(old.handles@[i].id != old.handles@[j + 1].id);
        }
    }
    lemma_first_match_none(new.handles@, handle_with(h));
}

/// A newly opened handle is found by its id: ids are never reused.
pub proof fn law_new_handle_found(old: FsCore, new: FsCore, h: HandleId)
    requires
        old.wf(),
        h.0 == old.next_handle_id,
        new.handles@.len() == old.handles@.len() + 1,
        new.handles@.drop_last() == old.handles@,
        new.handles@.last().id == h,
    ensures
        new.handle_index(h) == Some(old.handles@.len() as int),
{
    let n = old.handles@.len() as int;
    assert forall|j: int| 0 <= j < n implies !handle_with(h)(#[trigger] new.handles@[j]) by {
        assert(new.handles@[j] == old.handles@[j]);
    }
    lemma_first_match_at(new.handles@, handle_with(h), n);
}

/// No entry of `cs` is named `name` after removing the entry of that name:
/// names in a directory are distinct.
proof fn lemma_remove_named(cs: Seq<(Seq<char>, u64)>, name: Seq<char>)
    requires
        names_distinct(cs),
    ensures
        find_child(
            match child_index(cs, name) {
                Some(i) => cs.remove(i),
                None => cs,
            },
            name,
        ) is None,
{
    lemma_first_match(cs, child_named(name));
    match child_index(cs, name) {
        Some(i) => {
            let rc = cs.remove(i);
            assert forall|j: int| 0 <= j < rc.len() implies !child_named(name)(#[trigger] rc[j]) by {
                if j < i {
                    assert(rc[j] == cs[j]);
                    assert(cs[j].0 != cs[i].0);
                } else {
                    assert(rc[j] == cs[j + 1]);
                    assert(cs[i].0 != cs[j + 1].0);
                }
            }
            lemma_first_match_none(rc, child_named(name));
        },
        None => {},
    }
}

/// The directory a lookup reports as the parent holds the found node under
/// the reported name; a non-directory is reported as its own parent.
proof fn lemma_walk_parent(s: FsCore, user: User, cur: u64, names: Seq<Seq<char>>, i: nat)
    requires
        s.walk(user, cur, names, i) matches Ok((_, Some(_))),
    ensures
        ({
            let (id, parent) = s.walk(user, cur, names, i)->Ok_0;
            let (p, n) = parent.unwrap();
            &&& s.node(p) is Some
            &&& match s.node(p).unwrap().kind {
                KindV::Dir { children } => find_child(children, n) == Some(id),
                _ => p == id,
            }
        }),
    decreases names.len() - i,
{
    if i < names.len() {
        match s.node(cur).unwrap().kind {
            KindV::Dir { children } => {
                let c = find_child(children, names[i as int]).unwrap();
                if i + 1 < names.len() {
                    lemma_walk_parent(s, user, c, names, i + 1);
                }
            },
            _ => {},
        }
    }
}

/// What `unlink` and `rmdir` leave behind: the directory no longer has an
/// entry of the removed name.
pub proof fn law_removed_name_gone(old: FsCore, d: u64, name: Seq<char>)
    requires
        old.wf(),
        old.node(d) matches Some(n) && n.kind is Dir,
    ensures
        removed_child(old.node(d), name) matches Some(m) && m.kind matches KindV::Dir { children } && find_child(
            children,
            name,
        ) is None,
{
    let cs = old.node(d).unwrap().kind->Dir_children;
    assert(node_names_ok(super::node_in(old.nodes@, d).unwrap()));
    lemma_remove_named(cs, name);
}

/// What `rename` leaves behind: the destination directory's entry of the new
/// name is the moved node, and the source directory has no entry of the old
/// name any more.
pub proof fn law_rename_moves_entry(old: FsCore, pid: u32, old_p: Seq<char>, new_p: Seq<char>, t: i64)
    requires
        old.wf(),
        old.rename_target(pid, old_p, new_p) is Ok,
    ensures
        ({
            let (id, op, oname, np, nname) = old.rename_target(pid, old_p, new_p)->Ok_0;
            &&& old.after_rename(np, id, op, oname, np, nname, t) matches Some(m) && m.kind matches KindV::Dir {
                children,
            } && find_child(children, nname) == Some(id)
            &&& match old.after_rename(op, id, op, oname, np, nname, t) {
                Some(m2) => match m2.kind {
                    KindV::Dir { children } => find_child(children, oname) is None,
                    _ => true,
                },
                None => true,
            }
        }),
{
    let (id, op, oname, np, nname) = old.rename_target(pid, old_p, new_p)->Ok_0;
    let c = old.node(np).unwrap().kind->Dir_children;
    assert(node_names_ok(super::node_in(old.nodes@, np).unwrap()));
    lemma_first_match(c, child_named(nname));
    lemma_first_match(c, child_named(oname));
    // The destination's entries before the new one.
    let a = if np == op {
        match child_index(c, oname) {
            Some(i) => c.remove(i),
            None => c,
        }
    } else {
        c
    };
    assert forall|j: int| 0 <= j < a.len() implies !child_named(nname)(#[trigger] a[j]) by {
        if np == op {
            if let Some(i) = child_index(c, oname) {
                if j < i {
                    assert(a[j] == c[j]);
                } else {
                    assert(a[j] == c[j + 1]);
                }
            }
        }
    }
    lemma_first_match_at(a.push((nname, id)), child_named(nname), a.len() as int);
    assert(a.push((nname, id))[a.len() as int] == (nname, id));
    if np == op {
        lemma_remove_named(c, oname);
        lemma_first_match(a, child_named(oname));
        let (_, parent) = old.resolve(pid, path_names(old_p))->Ok_0;
        let user = old.user_of(pid);
        lemma_walk_parent(old, user, old.root_of(pid).unwrap(), path_names(old_p), 0);
        assert(find_child(c, oname) == Some(id));
        assert(oname != nname);
        assert forall|j: int| 0 <= j < a.push((nname, id)).len() implies !child_named(oname)(
            #[trigger] a.push((nname, id))[j],
        ) by {
            if j < a.len() {
                assert(a.push((nname, id))[j] == a[j]);
            }
        }
        lemma_first_match_none(a.push((nname, id)), child_named(oname));
    } else if old.node(op) is Some && old.node(op).unwrap().kind is Dir {
        assert(node_names_ok(super::node_in(old.nodes@, op).unwrap()));
        lemma_remove_named(old.node(op).unwrap().kind->Dir_children, oname);
    }
}

/// Generated snapshot and branch ids never equal the default branch's id.
pub proof fn law_generated_id_not_default(seq: u64)
    ensures
        seq_id_bytes(seq) != default_branch_bytes(),
{
    assert(seq_id_bytes(seq)[15] == 1u8);
    assert(default_branch_bytes()[15] == 0u8);
}

/// When events are tracked, an event is delivered exactly once to every
/// current subscription, in subscription order.
pub proof fn law_event_reaches_each_subscriber_once(core: FsCore, e: EventV)
    requires
        core.config.track_events,
    ensures
        core.notices(e).len() == core.subscription_ids@.len(),
        forall|i: int| 0 <= i < core.subscription_ids@.len() ==> #[trigger] core.notices(e)[i] == (core.subscription_ids@[i], e),
{
}

/// A subscription that is no longer (or never was) registered receives
/// nothing; with tracking off nobody does.
pub proof fn law_no_event_without_subscription(core: FsCore, e: EventV, id: SubscriptionId)
    requires
        !core.subscription_ids@.contains(id) || !core.config.track_events,
    ensures
        forall|i: int| 0 <= i < core.notices(e).len() ==> (#[trigger] core.notices(e)[i]).0 != id,
{
    if core.config.track_events {
        assert forall|i: int| 0 <= i < core.notices(e).len() implies (#[trigger] core.notices(e)[i]).0 != id by {
            assert(core.notices(e)[i].0 == core.subscription_ids@[i]);
        }
    }
}

/// After unsubscribing, a subscription is not registered any more, so it
/// receives nothing from later operations.
pub proof fn law_unsubscribed_receives_nothing(before: FsCore, after: FsCore, id: SubscriptionId, e: EventV)
    requires
        before.wf(),
        crate::seqs::first_match(before.subscription_ids@, |s: SubscriptionId| s == id) matches Some(i)
            && after.subscription_ids@ == before.subscription_ids@.remove(i),
    ensures
        forall|i: int| 0 <= i < after.notices(e).len() ==> (#[trigger] after.notices(e)[i]).0 != id,
{
    let i = crate::seqs::first_match(before.subscription_ids@, |s: SubscriptionId| s == id).unwrap();
    crate::seqs::lemma_first_match(before.subscription_ids@, |s: SubscriptionId| s == id);
    assert(!after.subscription_ids@.contains(id)) by {
        if after.subscription_ids@.contains(id) {
            let k = choose|k: int| 0 <= k < after.subscription_ids@.len() && after.subscription_ids@[k] == id;
            if k < i {
                assert(after.subscription_ids@[k] == before.subscription_ids@[k]);
            } else {
                assert(after.subscription_ids@[k] == before.subscription_ids@[k + 1]);
            }
        }
    }
    law_no_event_without_subscription(after, e, id);
}

/// Two states whose nodes differ at most in their extended attributes walk
/// every path alike.
proof fn lemma_walk_same_tree(a: FsCore, b: FsCore, user: User, cur: u64, names: Seq<Seq<char>>, i: nat)
    requires
        a.config == b.config,
        forall|k: u64| #[trigger] b.node(k) == (match a.node(k) {
            Some(n) => Some(NodeV { xattrs: b.node(k).unwrap().xattrs, ..n }),
            None => None,
        }),
    ensures
        a.walk(user, cur, names, i) == b.walk(user, cur, names, i),
    decreases names.len() - i,
{
    if i < names.len() {
        match a.node(cur) {
            Some(n) => {
                assert(b.node(cur) == Some(NodeV { xattrs: b.node(cur).unwrap().xattrs, ..n }));
                match n.kind {
                    KindV::Dir { children } => {
                        match find_child(children, names[i as int]) {
                            Some(c) => {
                                lemma_walk_same_tree(a, b, user, c, names, i + 1);
                            },
                            None => {},
                        }
                    },
                    _ => {},
                }
            },
            None => {},
        }
    }
}

/// What an extended attribute read gives back of a write: after `xattr_set`
/// of `name` to `value` on the node at `p`, `p` still names that node and
/// reading `name` from it gives `value`.
pub proof fn law_xattr_read_back(old: FsCore, new: FsCore, pid: u32, p: Seq<char>, name: Seq<char>, value: Seq<u8>)
    requires
        old.lookup(pid, p) matches Ok(id) && new.node(id) == Some(
            NodeV { xattrs: super::xattrs::xattrs_after_set(old.node(id).unwrap().xattrs, name, value), ..old.node(id).unwrap() },
        ),
        old.lookup(pid, p) matches Ok(id) && forall|k: u64| k != id ==> new.node(k) == old.node(k),
        new.same_bookkeeping(old),
    ensures
        new.lookup(pid, p) == old.lookup(pid, p),
        old.lookup(pid, p) matches Ok(id) && (super::xattr_index(new.node(id).unwrap().xattrs, name) matches Some(i)
            && new.node(id).unwrap().xattrs[i].1 == value),
{
    let id = old.lookup(pid, p)->Ok_0;
    assert forall|k: u64| #[trigger] new.node(k) == (match old.node(k) {
        Some(n) => Some(NodeV { xattrs: new.node(k).unwrap().xattrs, ..n }),
        None => None,
    }) by {
        if k != id {
            match old.node(k) {
                Some(n) => {
                    assert(n == NodeV { xattrs: n.xattrs, ..n });
                },
                None => {},
            }
        }
    }
    match old.root_of(pid) {
        Some(root) => {
            lemma_walk_same_tree(old, new, old.user_of(pid), root, path_names(p), 0);
        },
        None => {},
    }
    assert(new.root_of(pid) == old.root_of(pid));
    assert(new.user_of(pid) == old.user_of(pid));
    let xs = old.node(id).unwrap().xattrs;
    lemma_first_match(xs, super::xattr_named(name));
    let ys = super::xattrs::xattrs_after_set(xs, name, value);
    match super::xattr_index(xs, name) {
        Some(i) => {
            assert forall|j: int| 0 <= j < i implies !(super::xattr_named(name))(#[trigger] ys[j]) by {
                assert(ys[j] == xs[j]);
            }
            lemma_first_match_at(ys, super::xattr_named(name), i);
        },
        None => {
            assert forall|j: int| 0 <= j < xs.len() implies !(super::xattr_named(name))(#[trigger] ys[j]) by {
                assert(ys[j] == xs[j]);
            }
            lemma_first_match_at(ys, super::xattr_named(name), xs.len() as int);
        },
    }
}


/// What a lookup by name gives back of a creation by parent id and raw name:
/// the new node is the entry of its parent for those raw bytes, and a raw
/// listing reports its name as exactly those bytes.
pub proof fn law_child_created_by_id_found(
    old: FsCore,
    new: FsCore,
    parent: u64,
    bytes: Seq<u8>,
    item_type: u32,
    mode: u32,
    id: u64,
)
    requires
        old.wf(),
        new.child_created(old, parent, bytes, item_type, mode, id),
    ensures
        new.child_of(parent, bytes) == Ok::<u64, FsError>(id),
        new.node(id) matches Some(n) && raw_name(n, internal_name(bytes)) == bytes,
{
    let name = internal_name(bytes);
    let d = old.node(parent).unwrap();
    let children = d.kind->children;
    lemma_first_match(children, child_named(name));
    assert forall|j: int| 0 <= j < children.len() implies !child_named(name)(#[trigger] children.push((name, id))[j]) by {
        assert(children.push((name, id))[j] == children[j]);
    }
    lemma_first_match_at(children.push((name, id)), child_named(name), children.len() as int);
    let xs = seq![(rawname_attr(), bytes)];
    lemma_first_match_at(xs, xattr_named(rawname_attr()), 0);
}

/// The raw listing and the UTF-8 listing of a directory agree entry by entry:
/// both follow the same sorted entries, and an entry not created from raw
/// bytes is reported under the UTF-8 encoding of its name.
pub proof fn law_raw_listing_agrees(core: FsCore, pid: u32, p: Seq<char>)
    ensures
        core.listing(pid, p) matches Ok(s) ==> forall|i: int|
            0 <= i < s.len() && (#[trigger] core.node(s[i].1)) is Some && xattr_index(
                core.node(s[i].1).unwrap().xattrs,
                rawname_attr(),
            ) is None ==> raw_name(core.node(s[i].1).unwrap(), s[i].0) == vstd::utf8::encode_utf8(s[i].0),
{
}

/// The open-handle count that `stats` reports follows opens and closes: a
/// newly opened handle adds one, closing an open handle removes one.
pub proof fn law_open_handles_counted(old: FsCore, opened: FsCore, closed: FsCore, h: HandleId)
    requires
        old.wf(),
        h.0 == old.next_handle_id,
        opened.handles@.len() == old.handles@.len() + 1,
        opened.handles@.drop_last() == old.handles@,
        opened.handles@.last().id == h,
        closed.handles@ == opened.handles@.remove(opened.handle_index(h).unwrap()),
    ensures
        opened.handle_index(h) is Some,
        closed.handles@.len() == old.handles@.len(),
        closed.handle_index(h) is None ==> closed.handles@ == old.handles@,
{
    law_new_handle_found(old, opened, h);
    assert(closed.handles@ =~= old.handles@);
}


/// Reads through a handle opened by node id are reads through a handle opened
/// by path: opening the node that a path names, with the same options, gives
/// a handle that reads the same content.
pub proof fn law_open_by_id_reads_as_open(
    old: FsCore,
    by_path: FsCore,
    by_id: FsCore,
    pid: u32,
    p: Seq<char>,
    o: OpenOptionsView,
    h: HandleId,
    h2: HandleId,
)
    requires
        old.wf(),
        by_path.opened(old, pid, p, o, Ok(h)),
        by_id.handle_added(old, h2, old.open_target(pid, p, o)->Ok_0, o),
    ensures
        h == h2,
        by_path.read_source(h) == by_id.read_source(h2),
        by_path.read_source(h) matches Ok(c) ==> by_path.content(c) == by_id.content(c),
{
    law_new_handle_found(old, by_path, h);
    law_new_handle_found(old, by_id, h2);
    let i = old.handles@.len() as int;
    assert(by_path.handles@[i] == by_path.handles@.last());
    assert(by_id.handles@[i] == by_id.handles@.last());
}


/// Looking a child up by its directory's id and its raw name finds what a
/// lookup of its path finds, when the path is that directory's path followed
/// by the name and the directory grants search permission: so
/// `getattr_child_by_id_name` and `getattr` report the same attributes, or
/// the same error.
pub proof fn law_child_by_name_is_path_lookup(core: FsCore, pid: u32, p: Seq<char>, d: u64, bytes: Seq<u8>)
    requires
        parent_names(p) is Some,
        path_names(p) == parent_names(p).unwrap().push(internal_name(bytes)),
        core.resolve(pid, parent_names(p).unwrap()) matches Ok((d2, _)) && d2 == d,
        core.node(d) matches Some(dn) && dn.kind is Dir && core.access_ok(core.user_of(pid), dn, false, false, true),
    ensures
        match core.child_of(d, bytes) {
            Ok(c) => core.lookup(pid, p) == (if core.node(c) is Some {
                Ok::<u64, FsError>(c)
            } else {
                Err(FsError::NotFound)
            }),
            Err(e) => core.lookup(pid, p) == Err::<u64, FsError>(e),
        },
{
    let pn = parent_names(p).unwrap();
    let n = internal_name(bytes);
    let user = core.user_of(pid);
    let root = core.root_of(pid).unwrap();
    lemma_walk_extend(core, user, root, pn, n, 0);
    assert(seq![n][0] == n);
}


/// Whether the branches `bs` have pairwise distinct ids.
pub open spec fn branch_ids_distinct(bs: Seq<Branch>) -> bool {
    forall|i: int, j: int| 0 <= i < j < bs.len() ==> (#[trigger] bs[i]).id != (#[trigger] bs[j]).id
}

/// Branch ids stay distinct: a branch creation appends one branch whose id
/// differs from every existing one. A fresh core has the default branch
/// alone, so after k creations the branch list holds 1 + k branches with
/// distinct ids.
pub proof fn law_branch_ids_stay_distinct(old: FsCore, new: FsCore)
    requires
        old.wf(),
        branch_ids_distinct(old.branches@),
        new.branches@.len() == old.branches@.len() + 1,
        new.branches@.drop_last() == old.branches@,
        new.branches@.last().id.0@ == seq_id_bytes(old.next_branch_seq),
    ensures
        branch_ids_distinct(new.branches@),
        new.branches@.len() == old.branches@.len() + 1,
{
    let n = old.branches@.len() as int;
    assert forall|i: int, j: int| 0 <= i < j < new.branches@.len() implies (#[trigger] new.branches@[i]).id
        != (#[trigger] new.branches@[j]).id by {
        assert(new.branches@[i] == old.branches@[i]);
        if j == n {
            assert(old.branches@[i].id.0@ != seq_id_bytes(old.next_branch_seq));
        } else {
            assert(new.branches@[j] == old.branches@[j]);
        }
    }
}


/// The three bits of `mode` selected by `r`, `w` and `x` as a permission triple.
pub open spec fn mode_bits(mode: u32, r: u32, w: u32, x: u32) -> FileMode {
    FileMode { read: mode & r != 0, write: mode & w != 0, execute: mode & x != 0 }
}

/// The three permission classes of a mode, read bit by bit.
proof fn lemma_mode_classes(m: u32)
    ensures
        mode_triple((m / 64) % 8) == mode_bits(m, 0o400, 0o200, 0o100),
        mode_triple((m / 8) % 8) == mode_bits(m, 0o040, 0o020, 0o010),
        mode_triple(m % 8) == mode_bits(m, 0o004, 0o002, 0o001),
{
    assert(((((m / 64) % 8) / 4) % 2 == 1) == (m & 0o400 != 0)) by (bit_vector);
    assert(((((m / 64) % 8) / 2) % 2 == 1) == (m & 0o200 != 0)) by (bit_vector);
    assert((((m / 64) % 8) % 2 == 1) == (m & 0o100 != 0)) by (bit_vector);
    assert(((((m / 8) % 8) / 4) % 2 == 1) == (m & 0o040 != 0)) by (bit_vector);
    assert(((((m / 8) % 8) / 2) % 2 == 1) == (m & 0o020 != 0)) by (bit_vector);
    assert((((m / 8) % 8) % 2 == 1) == (m & 0o010 != 0)) by (bit_vector);
    assert((((m % 8) / 4) % 2 == 1) == (m & 0o004 != 0)) by (bit_vector);
    assert((((m % 8) / 2) % 2 == 1) == (m & 0o002 != 0)) by (bit_vector);
    assert(((m % 8) % 2 == 1) == (m & 0o001 != 0)) by (bit_vector);
}

/// The permission triples that `getattr` and the directory listings report
/// are the mode's classes: the owner triple is bits 0o700, the group triple
/// bits 0o070, the others triple bits 0o007.
pub proof fn law_attributes_report_mode_classes(n: NodeV)
    ensures
        attributes_of(n).mode_user == mode_bits(n.mode, 0o400, 0o200, 0o100),
        attributes_of(n).mode_group == mode_bits(n.mode, 0o040, 0o020, 0o010),
        attributes_of(n).mode_other == mode_bits(n.mode, 0o004, 0o002, 0o001),
{
    lemma_mode_classes(n.mode);
}

/// The reported triples are the ones permission checks use: when permissions
/// are enforced and no root bypass applies, the owner is granted exactly what
/// the owner triple shows, a member of the node's group who is not its owner
/// what the group triple shows, and anybody else what the others triple shows.
pub proof fn law_reported_triples_are_checked(core: FsCore, user: User, n: NodeV)
    requires
        core.config.security.enforce_posix_permissions,
        !(core.config.security.root_bypass_permissions && user.uid == 0),
    ensures
        ({
            let a = attributes_of(n);
            let t = if user.uid == n.uid {
                a.mode_user
            } else if user.gid == n.gid {
                a.mode_group
            } else {
                a.mode_other
            };
            &&& core.access_ok(user, n, true, false, false) == t.read
            &&& core.access_ok(user, n, false, true, false) == t.write
            &&& core.access_ok(user, n, false, false, true) == t.execute
        }),
{
}


/// The attributes reported of a node are its own: its owner, group and
/// times; whether it is a directory or a symlink; and its length: the size
/// of a file's unnamed stream (0 without one), 0 for a directory, and the
/// UTF-8 length of a symlink's target.
pub proof fn law_attributes_report_node(n: NodeV)
    ensures
        attributes_of(n).uid == n.uid,
        attributes_of(n).gid == n.gid,
        attributes_of(n).times == n.times,
        attributes_of(n).is_dir <==> n.kind is Dir,
        attributes_of(n).is_symlink <==> n.kind is Symlink,
        n.kind is Dir ==> attributes_of(n).len == 0,
        n.kind matches KindV::Symlink { target } ==> (vstd::utf8::encode_utf8(target).len() <= usize::MAX
            ==> attributes_of(n).len == vstd::utf8::encode_utf8(target).len()),
        n.kind matches KindV::File { streams } ==> (attributes_of(n).len == match stream_index(
            streams,
            Seq::empty(),
        ) {
            Some(i) => streams[i].size,
            None => 0,
        }),
{
}

} // verus!
