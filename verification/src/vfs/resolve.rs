//! Process identity, branch selection and path resolution.

use vstd::prelude::*;

use crate::error::FsError;
use crate::seqs::{lemma_first_match_at, lemma_first_match_none};
use crate::types::{BranchId, User};
use super::{binding_of, branch_with, child_index, child_named, record_of, find_child, Branch, DirChild, FsCore, KindV, Node, NodeKind};

verus! {

/// Views of a list of names.
pub open spec fn names_view(v: Seq<String>) -> Seq<Seq<char>> {
    v.map_values(|s: String| s@)
}

/// Outcome of a resolution: the node, and the directory and name it was found under.
pub type Resolved = Result<(u64, Option<(u64, Seq<char>)>), FsError>;

/// View of an executable resolution outcome.
pub open spec fn resolved_view(r: Result<(u64, Option<(u64, String)>), FsError>) -> Resolved {
    match r {
        Ok((id, None)) => Ok((id, None)),
        Ok((id, Some((p, n)))) => Ok((id, Some((p, n@)))),
        Err(e) => Err(e),
    }
}

impl FsCore {
    /// Walks `names[i..]` from node `cur`. Every directory looked into must
    /// grant `user` search (execute) permission. A file or symlink met at the
    /// last name is returned as its own parent.
    pub open spec fn walk(self, user: User, cur: u64, names: Seq<Seq<char>>, i: nat) -> Resolved
        decreases names.len() - i,
    {
        if i >= names.len() {
            Ok((cur, None))
        } else {
            match self.node(cur) {
                None => Err(FsError::NotFound),
                Some(n) => match n.kind {
                    KindV::Dir { children } => {
                        if !self.access_ok(user, n, false, false, true) {
                            Err(FsError::AccessDenied)
                        } else {
                            match find_child(children, names[i as int]) {
                                None => Err(FsError::NotFound),
                                Some(c) => {
                                    if i + 1 == names.len() {
                                        Ok((c, Some((cur, names[i as int]))))
                                    } else {
                                        self.walk(user, c, names, i + 1)
                                    }
                                },
                            }
                        }
                    },
                    _ => {
                        if i + 1 == names.len() {
                            Ok((cur, Some((cur, names[i as int]))))
                        } else {
                            Err(FsError::NotADirectory)
                        }
                    },
                },
            }
        }
    }

    /// Resolution of `names` in the tree process `pid` works in.
    pub open spec fn resolve(self, pid: u32, names: Seq<Seq<char>>) -> Resolved {
        match self.root_of(pid) {
            None => Err(FsError::NotFound),
            Some(root) => self.walk(self.user_of(pid), root, names, 0),
        }
    }

    /// Identity process `pid` acts with.
    pub fn user_for(&self, pid: u32) -> (u: User)
        ensures
            u == self.user_of(pid),
    {
        let mut i: usize = 0;
        while i < self.processes.len()
            invariant
                i <= self.processes@.len(),
                forall|j: int| 0 <= j < i ==> !record_of(pid)(#[trigger] self.processes@[j]),
            decreases self.processes@.len() - i,
        {
            if self.processes[i].pid == pid {
                proof {
                    lemma_first_match_at(self.processes@, record_of(pid), i as int);
                }
                return User { uid: self.processes[i].uid, gid: self.processes[i].gid };
            }
            i = i + 1;
        }
        proof {
            lemma_first_match_none(self.processes@, record_of(pid));
        }
        User { uid: self.config.security.default_uid, gid: self.config.security.default_gid }
    }

    /// Branch process `pid` works in.
    pub fn current_branch_for_process(&self, pid: u32) -> (b: BranchId)
        ensures
            b.0@ == self.branch_of(pid),
    {
        let mut i: usize = 0;
        while i < self.process_branches.len()
            invariant
                i <= self.process_branches@.len(),
                forall|j: int| 0 <= j < i ==> !binding_of(pid)(#[trigger] self.process_branches@[j]),
            decreases self.process_branches@.len() - i,
        {
            if self.process_branches[i].pid == pid {
                proof {
                    lemma_first_match_at(self.process_branches@, binding_of(pid), i as int);
                }
                return self.process_branches[i].branch;
            }
            i = i + 1;
        }
        proof {
            lemma_first_match_none(self.process_branches@, binding_of(pid));
        }
        BranchId::default_branch()
    }

    /// Position of the branch `b`.
    pub fn find_branch(&self, b: &BranchId) -> (r: Option<usize>)
        ensures
            match r {
                Some(i) => self.branch_index(b.0@) == Some(i as int) && i < self.branches@.len(),
                None => self.branch_index(b.0@) is None,
            },
    {
        let mut i: usize = 0;
        while i < self.branches.len()
            invariant
                i <= self.branches@.len(),
                forall|j: int| 0 <= j < i ==> !branch_with(b.0@)(#[trigger] self.branches@[j]),
            decreases self.branches@.len() - i,
        {
            if self.branches[i].id == *b {
                proof {
                    lemma_first_match_at(self.branches@, branch_with(b.0@), i as int);
                }
                return Some(i);
            }
            i = i + 1;
        }
        proof {
            lemma_first_match_none(self.branches@, branch_with(b.0@));
        }
        None
    }

    /// Root of the tree process `pid` works in.
    pub fn root_for(&self, pid: u32) -> (r: Option<u64>)
        ensures
            r == self.root_of(pid),
    {
        let b = self.current_branch_for_process(pid);
        match self.find_branch(&b) {
            Some(i) => Some(self.branches[i].root_id),
            None => None,
        }
    }

    /// The stored node `id`, if any.
    pub fn get_node(&self, id: u64) -> (r: Option<&Node>)
        ensures
            match r {
                Some(n) => self.node(id) == Some(n@),
                None => self.node(id) is None,
            },
    {
        if id == 0 || id - 1 >= self.nodes.len() as u64 {
            return None;
        }
        match &self.nodes[(id - 1) as usize] {
            Some(n) => Some(n),
            None => None,
        }
    }

    /// Resolves `names` for process `pid`.
    pub fn resolve_path(&self, pid: u32, names: &Vec<String>) -> (r: Result<(u64, Option<(u64, String)>), FsError>)
        ensures
            resolved_view(r) == self.resolve(pid, names_view(names@)),
    {
        let ghost nv = names_view(names@);
        let root = match self.root_for(pid) {
            Some(root) => root,
            None => return Err(FsError::NotFound),
        };
        let user = self.user_for(pid);
        if names.len() == 0 {
            return Ok((root, None));
        }
        let mut cur = root;
        let mut i: usize = 0;
        while i < names.len()
            invariant
                0 < names@.len(),
                i < names@.len(),
                nv == names_view(names@),
                self.walk(user, cur, nv, i as nat) == self.resolve(pid, nv),
            decreases names@.len() - i,
        {
            let node = match self.get_node(cur) {
                Some(n) => n,
                None => return Err(FsError::NotFound),
            };
            let last = i + 1 == names.len();
            match &node.kind {
                NodeKind::Directory { children } => {
                    if !self.check_access(user, node, false, false, true) {
                        return Err(FsError::AccessDenied);
                    }
                    let k = match find_child_index(children, &names[i]) {
                        Some(k) => k,
                        None => return Err(FsError::NotFound),
                    };
                    let child = children[k].id;
                    if last {
                        return Ok((child, Some((cur, names[i].clone()))));
                    }
                    cur = child;
                },
                _ => {
                    if last {
                        return Ok((cur, Some((cur, names[i].clone()))));
                    }
                    return Err(FsError::NotADirectory);
                },
            }
            i = i + 1;
        }
        Err(FsError::NotFound)
    }
}

/// Position of the child named `name`.
pub fn find_child_index(children: &Vec<DirChild>, name: &String) -> (r: Option<usize>)
    ensures
        match r {
            Some(i) => {
                &&& child_index(children@.map_values(|c: DirChild| c@), name@) == Some(i as int)
                &&& find_child(children@.map_values(|c: DirChild| c@), name@) == Some(children@[i as int].id)
                &&& i < children@.len()
            },
            None => find_child(children@.map_values(|c: DirChild| c@), name@) is None
                && child_index(children@.map_values(|c: DirChild| c@), name@) is None,
        },
{
    let ghost cv = children@.map_values(|c: DirChild| c@);
    let mut i: usize = 0;
    while i < children.len()
        invariant
            i <= children@.len(),
            cv == children@.map_values(|c: DirChild| c@),
            forall|j: int| 0 <= j < i ==> !child_named(name@)(#[trigger] cv[j]),
        decreases children@.len() - i,
    {
        if children[i].name == *name {
            proof {
                lemma_first_match_at(cv, child_named(name@), i as int);
            }
            return Some(i);
        }
        i = i + 1;
    }
    proof {
        lemma_first_match_none(cv, child_named(name@));
    }
    None
}

} // verus!
