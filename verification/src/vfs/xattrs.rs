//! Extended attributes and alternate data streams.

use vstd::prelude::*;

use crate::error::{FsError, FsResult};
use crate::types::{PID, StreamSpec};
use super::arena::contents_present;
use super::listing::find_xattr_index;
use super::{xattr_index, FsCore, KindV, Node, NodeKind, NodeV, Stream, StreamV, Xattr};

verus! {

/// Extended attributes after setting `name` to `value`: replaced in place, or appended.
pub open spec fn xattrs_after_set(xs: Seq<(Seq<char>, Seq<u8>)>, name: Seq<char>, value: Seq<u8>) -> Seq<(Seq<char>, Seq<u8>)> {
    match xattr_index(xs, name) {
        Some(i) => xs.update(i, (name, value)),
        None => xs.push((name, value)),
    }
}

/// A named (alternate) stream, as opposed to the unnamed default stream.
pub open spec fn is_named_stream() -> spec_fn(StreamV) -> bool {
    |s: StreamV| s.name.len() > 0
}

impl FsCore {
    /// Value of extended attribute `name` of the node at `path`.
    pub fn xattr_get(&self, pid: &PID, path: &str, name: &str) -> (r: FsResult<Vec<u8>>)
        ensures
            match self.lookup(pid.0, path@) {
                Ok(id) => match xattr_index(self.node(id).unwrap().xattrs, name@) {
                    Some(i) => r matches Ok(v) && v@ == self.node(id).unwrap().xattrs[i].1,
                    None => r == Err::<Vec<u8>, FsError>(FsError::NotFound),
                },
                Err(e) => r == Err::<Vec<u8>, FsError>(e),
            },
    {
        let id = match self.lookup_exec(pid.0, path) {
            Ok(id) => id,
            Err(e) => return Err(e),
        };
        let n = match self.get_node(id) {
            Some(n) => n,
            None => return Err(FsError::NotFound),
        };
        let key = crate::text::owned(name);
        match find_xattr_index(&n.xattrs, &key) {
            Some(i) => {
                proof {
                    assert(n@.xattrs[i as int] == n.xattrs@[i as int]@);
                }
                Ok(n.xattrs[i].value.clone())
            },
            None => Err(FsError::NotFound),
        }
    }

    /// Sets extended attribute `name` of the node at `path` to `value`.
    pub fn xattr_set(&mut self, pid: &PID, path: &str, name: &str, value: &[u8]) -> (r: FsResult<()>)
        requires
            old(self).wf(),
        ensures
            final(self).delivered == old(self).delivered,
            final(self).wf(),
            match old(self).lookup(pid.0, path@) {
                Ok(id) => {
                    let n = old(self).node(id).unwrap();
                    &&& r is Ok
                    &&& final(self).node(id) == Some(NodeV { xattrs: xattrs_after_set(n.xattrs, name@, value@), ..n })
                    &&& forall|k: u64| k != id ==> final(self).node(k) == old(self).node(k)
                    &&& final(self).nodes@.len() == old(self).nodes@.len()
                    &&& final(self).same_bookkeeping(*old(self))
                    &&& final(self).storage == old(self).storage
                },
                Err(e) => r == Err::<(), FsError>(e) && *final(self) == *old(self),
            },
    {
        let id = match self.lookup_exec(pid.0, path) {
            Ok(id) => id,
            Err(e) => return Err(e),
        };
        let n = match self.take_node(id) {
            Some(n) => n,
            None => return Err(FsError::NotFound),
        };
        let Node { id: nid, kind, times, mode, uid, gid, mut xattrs } = n;
        let ghost before = xattrs@.map_values(|x: Xattr| x@);
        let key = crate::text::owned(name);
        let v = vstd::slice::slice_to_vec(value);
        match find_xattr_index(&xattrs, &key) {
            Some(i) => {
                xattrs.set(i, Xattr { name: key, value: v });
            },
            None => {
                xattrs.push(Xattr { name: key, value: v });
            },
        }
        assert(xattrs@.map_values(|x: Xattr| x@) =~= xattrs_after_set(before, name@, value@));
        let m = Node { id: nid, kind, times, mode, uid, gid, xattrs };
        assert(contents_present(*self, m@)) by {
            assert(super::streams_of(m@) == super::streams_of(n@));
        }
        self.put_node(m);
        Ok(())
    }

    /// Names of the extended attributes of the node at `path`.
    pub fn xattr_list(&self, pid: &PID, path: &str) -> (r: FsResult<Vec<String>>)
        ensures
            match self.lookup(pid.0, path@) {
                Ok(id) => r matches Ok(v) && v@.map_values(|s: String| s@) == self.node(id).unwrap().xattrs.map_values(
                    |x: (Seq<char>, Seq<u8>)| x.0,
                ),
                Err(e) => r == Err::<Vec<String>, FsError>(e),
            },
    {
        let id = match self.lookup_exec(pid.0, path) {
            Ok(id) => id,
            Err(e) => return Err(e),
        };
        let n = match self.get_node(id) {
            Some(n) => n,
            None => return Err(FsError::NotFound),
        };
        let ghost xv = n@.xattrs;
        let mut out: Vec<String> = Vec::new();
        let mut i: usize = 0;
        while i < n.xattrs.len()
            invariant
                i <= n.xattrs@.len(),
                xv == n.xattrs@.map_values(|x: Xattr| x@),
                out@.len() == i,
                forall|k: int| 0 <= k < i ==> (#[trigger] out@[k])@ == xv[k].0,
            decreases n.xattrs@.len() - i,
        {
            out.push(n.xattrs[i].name.clone());
            assert(xv[i as int] == n.xattrs@[i as int]@);
            i = i + 1;
        }
        assert(out@.map_values(|s: String| s@) =~= xv.map_values(|x: (Seq<char>, Seq<u8>)| x.0));
        Ok(out)
    }

    /// Names of the named (alternate) streams of the file at `path`, in order.
    pub fn streams_list(&self, pid: &PID, path: &str) -> (r: FsResult<Vec<StreamSpec>>)
        ensures
            match self.lookup(pid.0, path@) {
                Ok(id) => match self.node(id).unwrap().kind {
                    KindV::File { streams } => r matches Ok(v) && v@.map_values(|s: StreamSpec| s.name@)
                        == streams.filter(is_named_stream()).map_values(|s: StreamV| s.name),
                    KindV::Dir { .. } => r == Err::<Vec<StreamSpec>, FsError>(FsError::IsADirectory),
                    KindV::Symlink { .. } => r == Err::<Vec<StreamSpec>, FsError>(FsError::InvalidArgument),
                },
                Err(e) => r == Err::<Vec<StreamSpec>, FsError>(e),
            },
    {
        let id = match self.lookup_exec(pid.0, path) {
            Ok(id) => id,
            Err(e) => return Err(e),
        };
        let n = match self.get_node(id) {
            Some(n) => n,
            None => return Err(FsError::NotFound),
        };
        let streams = match &n.kind {
            NodeKind::File { streams } => streams,
            NodeKind::Directory { .. } => return Err(FsError::IsADirectory),
            NodeKind::Symlink { .. } => return Err(FsError::InvalidArgument),
        };
        let ghost sv = streams@.map_values(|s: Stream| s@);
        let mut out: Vec<StreamSpec> = Vec::new();
        let mut i: usize = 0;
        proof {
            reveal(Seq::filter);
            assert(sv.subrange(0, 0) =~= Seq::<StreamV>::empty());
        }
        while i < streams.len()
            invariant
                i <= streams@.len(),
                sv == streams@.map_values(|s: Stream| s@),
                out@.len() == sv.subrange(0, i as int).filter(is_named_stream()).len(),
                forall|k: int| 0 <= k < out@.len() ==> (#[trigger] out@[k]).name@ == sv.subrange(0, i as int).filter(
                    is_named_stream(),
                )[k].name,
            decreases streams@.len() - i,
        {
            let ghost x = sv[i as int];
            let ghost f = sv.subrange(0, i as int).filter(is_named_stream());
            proof {
                assert(x == streams@[i as int]@);
                assert(sv.subrange(0, i + 1) =~= sv.subrange(0, i as int).push(x));
                sv.subrange(0, i as int).lemma_filter_push(x, is_named_stream());
            }
            if streams[i].name.as_str().unicode_len() > 0 {
                out.push(StreamSpec { name: streams[i].name.clone() });
                assert(sv.subrange(0, i + 1).filter(is_named_stream()) == f.push(x));
            } else {
                assert(sv.subrange(0, i + 1).filter(is_named_stream()) == f);
            }
            i = i + 1;
        }
        assert(sv.subrange(0, sv.len() as int) =~= sv);
        assert(out@.map_values(|s: StreamSpec| s.name@) =~= sv.filter(is_named_stream()).map_values(|s: StreamV| s.name));
        Ok(out)
    }
}

} // verus!
