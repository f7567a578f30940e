//! Operations addressed by parent node id and raw name bytes, for adapters
//! that work with inode numbers and names that need not be UTF-8.

use vstd::prelude::*;

use crate::error::{FsError, FsResult};
use crate::storage::StorageBackend;
use crate::text::{internal_name, internal_name_of, owned};
use crate::types::Attributes;
use super::arena::contents_present;
use super::listing::rawname_attr;
use super::nodes::{fresh_times, new_dir_node, new_file_node};
use super::resolve::find_child_index;
use super::{attributes_of, find_child, FsCore, KindV, Node, NodeKind, NodeV, Xattr};

verus! {

impl FsCore {
    /// Node id of the entry of directory `parent` for the raw name `bytes`.
    pub open spec fn child_of(self, parent: u64, bytes: Seq<u8>) -> Result<u64, FsError> {
        match self.node(parent) {
            None => Err(FsError::NotFound),
            Some(p) => match p.kind {
                KindV::Dir { children } => match find_child(children, internal_name(bytes)) {
                    Some(c) => Ok(c),
                    None => Err(FsError::NotFound),
                },
                _ => Err(FsError::NotADirectory),
            },
        }
    }

    /// Name under which an entry for the raw name `bytes` can be added to `parent`.
    pub open spec fn child_slot(self, parent: u64, bytes: Seq<u8>) -> Result<Seq<char>, FsError> {
        match self.node(parent) {
            None => Err(FsError::NotFound),
            Some(p) => match p.kind {
                KindV::Dir { children } => if find_child(children, internal_name(bytes)) is Some {
                    Err(FsError::AlreadyExists)
                } else {
                    Ok(internal_name(bytes))
                },
                _ => Err(FsError::NotADirectory),
            },
        }
    }

    /// Computes [`child_of`](Self::child_of).
    pub fn resolve_child_id_by_id_name(&self, parent_id: u64, name_bytes: &[u8]) -> (r: FsResult<u64>)
        ensures
            r == self.child_of(parent_id, name_bytes@),
    {
        let name = internal_name_of(name_bytes);
        let p = match self.get_node(parent_id) {
            Some(p) => p,
            None => return Err(FsError::NotFound),
        };
        match &p.kind {
            NodeKind::Directory { children } => match find_child_index(children, &name) {
                Some(i) => Ok(children[i].id),
                None => Err(FsError::NotFound),
            },
            _ => Err(FsError::NotADirectory),
        }
    }

    /// Attributes of the entry of directory `parent_id` for the raw name `name_bytes`.
    pub fn getattr_child_by_id_name(&self, parent_id: u64, name_bytes: &[u8]) -> (r: FsResult<Attributes>)
        ensures
            match self.child_of(parent_id, name_bytes@) {
                Ok(c) => match self.node(c) {
                    Some(n) => r == Ok::<Attributes, FsError>(attributes_of(n)),
                    None => r == Err::<Attributes, FsError>(FsError::NotFound),
                },
                Err(e) => r == Err::<Attributes, FsError>(e),
            },
    {
        let c = match self.resolve_child_id_by_id_name(parent_id, name_bytes) {
            Ok(c) => c,
            Err(e) => return Err(e),
        };
        self.get_node_attributes(c)
    }

    /// Whether `self` is `old` after `create_child_by_id` made node `id`, of
    /// type `item_type` and mode `mode`, the entry of `parent` for the raw
    /// name `bytes`.
    pub open spec fn child_created(self, old: FsCore, parent: u64, bytes: Seq<u8>, item_type: u32, mode: u32, id: u64) -> bool {
        let uid = old.config.security.default_uid;
        let gid = old.config.security.default_gid;
        let c = old.storage.next_id;
        &&& old.child_slot(parent, bytes) matches Ok(name)
        &&& id == old.next_node_id()
        &&& self.nodes@.len() == old.nodes@.len() + 1
        &&& item_type == 0 || item_type == 1
        &&& self.node(id) matches Some(n) && fresh_times(n.times) && n == NodeV {
            mode,
            xattrs: seq![(rawname_attr(), bytes)],
            ..(if item_type == 0 {
                new_file_node(id, n.times, c, uid, gid)
            } else {
                new_dir_node(id, n.times, mode, uid, gid)
            })
        }
        &&& item_type == 0 ==> self.storage.content_map() == old.storage.content_map().insert(
            c,
            Seq::empty(),
        ) && old.content(c) is None
        &&& item_type == 1 ==> self.storage == old.storage
        &&& old.node(parent) matches Some(d) && d.kind matches KindV::Dir { children }
            && self.node(parent) == Some(NodeV {
            kind: KindV::Dir { children: children.push((name, id)) },
            ..d
        })
        &&& forall|k: u64| k != id && k != parent ==> self.node(k) == old.node(k)
        &&& self.same_bookkeeping(old)
    }

    /// Gives the new node `id` the mode `mode` and records the raw name `bytes`.
    fn stamp_raw_name(&mut self, id: u64, mode: u32, bytes: &[u8])
        requires
            old(self).wf(),
            old(self).node(id) is Some,
        ensures
            final(self).wf(),
            final(self).same_bookkeeping(*old(self)),
            final(self).storage == old(self).storage,
            final(self).nodes@.len() == old(self).nodes@.len(),
            final(self).node(id) == Some(NodeV {
                mode,
                xattrs: old(self).node(id).unwrap().xattrs.push((rawname_attr(), bytes@)),
                ..old(self).node(id).unwrap()
            }),
            forall|k: u64| k != id ==> final(self).node(k) == old(self).node(k),
    {
        let n = match self.take_node(id) {
            Some(n) => n,
            None => return,
        };
        let Node { id: nid, kind, times, uid, gid, mut xattrs, .. } = n;
        let ghost before = xattrs@;
        let key = owned("user.agentfs.rawname");
        proof {
            reveal_strlit("user.agentfs.rawname");
        }
        xattrs.push(Xattr { name: key, value: vstd::slice::slice_to_vec(bytes) });
        assert(xattrs@.map_values(|x: Xattr| x@) =~= before.map_values(|x: Xattr| x@).push((rawname_attr(), bytes@)));
        let m = Node { id: nid, kind, times, mode, uid, gid, xattrs };
        assert(contents_present(*self, m@)) by {
            assert(super::streams_of(m@) == super::streams_of(n@));
        }
        self.put_node(m);
    }

    /// Creates a file (`item_type` 0, with an empty unnamed stream) or a
    /// directory (`item_type` 1) with mode `mode`, owned by the configured
    /// default identity, as the entry of `parent_id` for the raw name
    /// `name_bytes`; the raw bytes are kept in an extended attribute. Returns
    /// the new node's id.
    pub fn create_child_by_id(&mut self, parent_id: u64, name_bytes: &[u8], item_type: u32, mode: u32) -> (r: FsResult<u64>)
        requires
            old(self).wf(),
        ensures
            final(self).delivered == old(self).delivered,
            final(self).wf(),
            match r {
                Ok(id) => final(self).child_created(*old(self), parent_id, name_bytes@, item_type, mode, id),
                Err(e) => {
                    &&& match old(self).child_slot(parent_id, name_bytes@) {
                        Err(e2) => e == e2,
                        Ok(_) => if item_type != 0 && item_type != 1 {
                            e == FsError::InvalidArgument
                        } else {
                            e == FsError::NoSpace && !(old(self).can_allocate_node() && old(self).storage.next_id < u64::MAX)
                        },
                    }
                    &&& *final(self) == *old(self)
                },
            },
    {
        let name = internal_name_of(name_bytes);
        match self.get_node(parent_id) {
            None => return Err(FsError::NotFound),
            Some(p) => match &p.kind {
                NodeKind::Directory { children } => {
                    if find_child_index(children, &name).is_some() {
                        return Err(FsError::AlreadyExists);
                    }
                },
                _ => return Err(FsError::NotADirectory),
            },
        }
        if item_type != 0 && item_type != 1 {
            return Err(FsError::InvalidArgument);
        }
        if self.nodes.len() as u64 >= u64::MAX - 1 || self.storage.next_id == u64::MAX {
            return Err(FsError::NoSpace);
        }
        let uid = self.config.security.default_uid;
        let gid = self.config.security.default_gid;
        let ghost s0 = *self;
        let id = if item_type == 0 {
            let empty: Vec<u8> = Vec::new();
            let content = match self.storage.allocate(empty.as_slice()) {
                Ok(c) => c,
                Err(e) => return Err(e),
            };
            assert(empty@ =~= Seq::<u8>::empty());
            proof {
                (*self).lemma_storage_grew(*old(self));
            }
            assert(self.storage.content_map().contains_key(content.0));
            match self.create_file_node(content, uid, gid) {
                Ok(id) => id,
                Err(e) => return Err(e),
            }
        } else {
            match self.create_directory_node(mode, uid, gid) {
                Ok(id) => id,
                Err(e) => return Err(e),
            }
        };
        let ghost s1 = *self;
        self.stamp_raw_name(id, mode, name_bytes);
        let ghost s2 = *self;
        self.dir_add_child(parent_id, name, id);
        proof {
            assert forall|k: u64| k != id && k != parent_id implies self.node(k) == old(self).node(k) by {
                assert(self.node(k) == s2.node(k));
                assert(s2.node(k) == s1.node(k));
            }
            assert(s1.node(id).unwrap().xattrs =~= Seq::<(Seq<char>, Seq<u8>)>::empty());
            assert(s1.node(id).unwrap().xattrs.push((rawname_attr(), name_bytes@)) =~= seq![(rawname_attr(), name_bytes@)]);
        }
        Ok(id)
    }
}

} // verus!
