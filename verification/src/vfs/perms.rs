//! POSIX permission rules.

use vstd::prelude::*;

use crate::types::User;
use super::{FsCore, Node, NodeV};

verus! {

/// The three permission bits of the class `user` falls in for a node owned by `owner`:`group`.
pub open spec fn class_bits(mode: u32, owner: u32, group: u32, user: User) -> u32 {
    if user.uid == owner {
        (mode / 64) % 8
    } else if user.gid == group {
        (mode / 8) % 8
    } else {
        mode % 8
    }
}

/// Whether the bits grant every requested access.
pub open spec fn bits_allow(bits: u32, r: bool, w: bool, x: bool) -> bool {
    (!r || (bits / 4) % 2 == 1) && (!w || (bits / 2) % 2 == 1) && (!x || bits % 2 == 1)
}

impl FsCore {
    /// Whether `user` is granted read/write/execute access (as requested) to node `n`.
    pub open spec fn access_ok(self, user: User, n: NodeV, r: bool, w: bool, x: bool) -> bool {
        ||| !self.config.security.enforce_posix_permissions
        ||| (self.config.security.root_bypass_permissions && user.uid == 0)
        ||| bits_allow(class_bits(n.mode, n.uid, n.gid, user), r, w, x)
    }

    /// Whether `user` may change the mode of `n`: its owner or uid 0.
    pub open spec fn chmod_ok(self, user: User, n: NodeV) -> bool {
        !self.config.security.enforce_posix_permissions || user.uid == 0 || user.uid == n.uid
    }

    /// Whether `user` may give `n` the owner `uid`:`gid`: uid 0 always; the
    /// owner only when keeping the owner and choosing its own group.
    pub open spec fn chown_ok(self, user: User, n: NodeV, uid: u32, gid: u32) -> bool {
        ||| !self.config.security.enforce_posix_permissions
        ||| user.uid == 0
        ||| (user.uid == n.uid && uid == n.uid && gid == user.gid)
    }

    /// Whether the sticky bit of `parent` lets `user` remove `child` from it.
    pub open spec fn sticky_ok(self, user: User, parent: NodeV, child: NodeV) -> bool {
        ||| !self.config.security.enforce_posix_permissions
        ||| (self.config.security.root_bypass_permissions && user.uid == 0)
        ||| (parent.mode / 512) % 2 == 0
        ||| user.uid == child.uid
        ||| user.uid == parent.uid
    }

    /// Computes [`access_ok`](Self::access_ok) for a stored node.
    pub fn check_access(&self, user: User, n: &Node, r: bool, w: bool, x: bool) -> (ok: bool)
        ensures
            ok == self.access_ok(user, n@, r, w, x),
    {
        let sec = &self.config.security;
        if !sec.enforce_posix_permissions {
            return true;
        }
        if sec.root_bypass_permissions && user.uid == 0 {
            return true;
        }
        let bits = if user.uid == n.uid {
            (n.mode / 64) % 8
        } else if user.gid == n.gid {
            (n.mode / 8) % 8
        } else {
            n.mode % 8
        };
        (!r || (bits / 4) % 2 == 1) && (!w || (bits / 2) % 2 == 1) && (!x || bits % 2 == 1)
    }

    /// Computes [`chmod_ok`](Self::chmod_ok).
    pub fn check_chmod(&self, user: User, n: &Node) -> (ok: bool)
        ensures
            ok == self.chmod_ok(user, n@),
    {
        !self.config.security.enforce_posix_permissions || user.uid == 0 || user.uid == n.uid
    }

    /// Computes [`chown_ok`](Self::chown_ok).
    pub fn check_chown(&self, user: User, n: &Node, uid: u32, gid: u32) -> (ok: bool)
        ensures
            ok == self.chown_ok(user, n@, uid, gid),
    {
        !self.config.security.enforce_posix_permissions || user.uid == 0 || (user.uid == n.uid
            && uid == n.uid && gid == user.gid)
    }

    /// Computes [`sticky_ok`](Self::sticky_ok).
    pub fn check_sticky(&self, user: User, parent: &Node, child: &Node) -> (ok: bool)
        ensures
            ok == self.sticky_ok(user, parent@, child@),
    {
        let sec = &self.config.security;
        !sec.enforce_posix_permissions || (sec.root_bypass_permissions && user.uid == 0) || (
        parent.mode / 512) % 2 == 0 || user.uid == child.uid || user.uid == parent.uid
    }
}

} // verus!
