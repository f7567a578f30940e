//! Content storage for file data: an in-memory, copy-on-write capable store
//! of byte vectors addressed by [`ContentId`].

use vstd::prelude::*;
use vstd::slice::*;

use crate::error::{FsError, FsResult};
use crate::types::ContentId;

verus! {

/// Bytes of `c` after writing `d` at offset `off`, zero-filling any gap.
pub open spec fn write_bytes(c: Seq<u8>, off: int, d: Seq<u8>) -> Seq<u8> {
    let ext = if off + d.len() > c.len() {
        c + Seq::new((off + d.len() - c.len()) as nat, |i: int| 0u8)
    } else {
        c
    };
    ext.subrange(0, off) + d + ext.subrange(off + d.len(), ext.len() as int)
}

/// Bytes of `c` resized to `n`: cut off, or extended with zeros.
pub open spec fn resize_bytes(c: Seq<u8>, n: int) -> Seq<u8> {
    if n <= c.len() {
        c.subrange(0, n)
    } else {
        c + Seq::new((n - c.len()) as nat, |i: int| 0u8)
    }
}

/// Number of bytes a read of `want` bytes at `off` returns from `c`.
pub open spec fn read_count(c: Seq<u8>, off: int, want: int) -> int {
    if off >= c.len() {
        0
    } else if want < c.len() - off {
        want
    } else {
        c.len() - off
    }
}

/// What a read gives back of a write: writing `d` at `off` leaves the bytes
/// before `off` and after the written range as they were, the written range
/// holds `d`, the length covers the write, and reading `d.len()` bytes at
/// `off` returns all of them.
pub proof fn law_read_back_write(c: Seq<u8>, off: int, d: Seq<u8>)
    requires
        0 <= off,
    ensures
        write_bytes(c, off, d).len() == if off + d.len() > c.len() {
            off + d.len()
        } else {
            c.len() as int
        },
        write_bytes(c, off, d).subrange(off, off + d.len()) == d,
        forall|k: int| 0 <= k < off && k < c.len() ==> #[trigger] write_bytes(c, off, d)[k] == c[k],
        forall|k: int| off + d.len() <= k < c.len() ==> #[trigger] write_bytes(c, off, d)[k] == c[k],
        read_count(write_bytes(c, off, d), off, d.len() as int) == d.len(),
{
    let w = write_bytes(c, off, d);
    assert(w.subrange(off, off + d.len()) =~= d);
}

/// Copy-on-write: after `clone_cow` copies `base` to the fresh id `id` and a
/// write changes `id`, `base` still holds its original bytes and `id` holds
/// them as written.
pub proof fn law_clone_then_write_keeps_original(s0: Map<u64, Seq<u8>>, base: u64, id: u64, off: int, d: Seq<u8>)
    requires
        s0.contains_key(base),
        !s0.contains_key(id),
    ensures
        ({
            let s1 = s0.insert(id, s0[base]);
            let s2 = s1.insert(id, write_bytes(s1[id], off, d));
            &&& s2[base] == s0[base]
            &&& s2[id] == write_bytes(s0[base], off, d)
        }),
{
}

/// Storage backend for content-addressable storage with copy-on-write.
pub trait StorageBackend {
    /// Content currently stored under each live id.
    spec fn contents(&self) -> Map<u64, Seq<u8>>;

    /// Internal well-formedness.
    spec fn inv(&self) -> bool;

    /// Copies bytes of `id` starting at `offset` into `buf`; returns how many.
    fn read(&self, id: ContentId, offset: u64, buf: &mut [u8]) -> (r: FsResult<usize>)
        requires
            self.inv(),
        ensures
            match r {
                Ok(n) => {
                    &&& self.contents().contains_key(id.0)
                    &&& n == read_count(self.contents()[id.0], offset as int, old(buf)@.len() as int)
                    &&& final(buf)@.len() == old(buf)@.len()
                    &&& forall|k: int| 0 <= k < n ==> #[trigger] final(buf)@[k] == self.contents()[id.0][offset + k]
                    &&& forall|k: int| n <= k < old(buf)@.len() ==> #[trigger] final(buf)@[k] == old(buf)@[k]
                },
                Err(e) => e == FsError::NotFound && !self.contents().contains_key(id.0)
                    && final(buf)@ == old(buf)@,
            },
    ;

    /// Writes `data` at `offset` into `id`, growing it with zeros as needed.
    fn write(&mut self, id: ContentId, offset: u64, data: &[u8]) -> (r: FsResult<usize>)
        requires
            old(self).inv(),
            offset + data@.len() <= usize::MAX,
        ensures
            final(self).inv(),
            match r {
                Ok(n) => {
                    &&& n == data@.len()
                    &&& old(self).contents().contains_key(id.0)
                    &&& final(self).contents() == old(self).contents().insert(
                        id.0,
                        write_bytes(old(self).contents()[id.0], offset as int, data@),
                    )
                },
                Err(e) => e == FsError::NotFound && !old(self).contents().contains_key(id.0)
                    && final(self).contents() == old(self).contents(),
            },
    ;

    /// Resizes `id` to `new_len` bytes.
    fn truncate(&mut self, id: ContentId, new_len: u64) -> (r: FsResult<()>)
        requires
            old(self).inv(),
            new_len <= usize::MAX,
        ensures
            final(self).inv(),
            match r {
                Ok(_) => {
                    &&& old(self).contents().contains_key(id.0)
                    &&& final(self).contents() == old(self).contents().insert(
                        id.0,
                        resize_bytes(old(self).contents()[id.0], new_len as int),
                    )
                },
                Err(e) => e == FsError::NotFound && !old(self).contents().contains_key(id.0)
                    && final(self).contents() == old(self).contents(),
            },
    ;

    /// Stores a copy of `initial` under a fresh id.
    fn allocate(&mut self, initial: &[u8]) -> (r: FsResult<ContentId>)
        requires
            old(self).inv(),
        ensures
            final(self).inv(),
            match r {
                Ok(id) => {
                    &&& !old(self).contents().contains_key(id.0)
                    &&& final(self).contents() == old(self).contents().insert(id.0, initial@)
                },
                Err(e) => e == FsError::NoSpace && final(self).contents() == old(self).contents(),
            },
    ;

    /// Stores a copy of the content of `base` under a fresh id.
    fn clone_cow(&mut self, base: ContentId) -> (r: FsResult<ContentId>)
        requires
            old(self).inv(),
        ensures
            final(self).inv(),
            match r {
                Ok(id) => {
                    &&& old(self).contents().contains_key(base.0)
                    &&& !old(self).contents().contains_key(id.0)
                    &&& final(self).contents() == old(self).contents().insert(
                        id.0,
                        old(self).contents()[base.0],
                    )
                },
                Err(e) => {
                    &&& (e == FsError::NotFound <==> !old(self).contents().contains_key(base.0))
                    &&& (e == FsError::NotFound || e == FsError::NoSpace)
                    &&& final(self).contents() == old(self).contents()
                },
            },
    ;

    /// Marks `id` immutable (for snapshots).
    fn seal(&mut self, id: ContentId) -> (r: FsResult<()>)
        requires
            old(self).inv(),
        ensures
            final(self).inv(),
            final(self).contents() == old(self).contents(),
            r is Ok <==> old(self).contents().contains_key(id.0),
            r matches Err(e) ==> e == FsError::NotFound,
    ;
}

/// In-memory storage backend. Ids are handed out in increasing order from 1;
/// the slot of id `i` is at index `i - 1` of the parallel vectors.
pub struct InMemoryBackend {
    pub next_id: u64,
    pub data: Vec<Option<Vec<u8>>>,
    pub refcounts: Vec<usize>,
    pub sealed: Vec<bool>,
}

impl InMemoryBackend {
    /// Content of the slot of `id`, if it is live.
    pub open spec fn content_of(self, id: u64) -> Option<Seq<u8>> {
        if 1 <= id && id <= self.data@.len() {
            match self.data@[id - 1] {
                Some(v) => Some(v@),
                None => None,
            }
        } else {
            None
        }
    }

    /// Whether `id` has been marked immutable.
    pub open spec fn is_sealed(self, id: u64) -> bool {
        1 <= id && id <= self.sealed@.len() && self.sealed@[id - 1]
    }

    /// Reference count recorded for `id` (0 when absent).
    pub open spec fn refcount_of(self, id: u64) -> nat {
        if 1 <= id && id <= self.refcounts@.len() {
            self.refcounts@[id - 1] as nat
        } else {
            0
        }
    }

    pub open spec fn wf(self) -> bool {
        &&& self.data@.len() == self.refcounts@.len()
        &&& self.data@.len() == self.sealed@.len()
        &&& self.next_id == self.data@.len() + 1
    }

    pub open spec fn content_map(self) -> Map<u64, Seq<u8>> {
        Map::new(|id: u64| self.content_of(id) is Some, |id: u64| self.content_of(id).unwrap())
    }

    /// An empty store whose first id will be 1.
    pub fn new() -> (r: Self)
        ensures
            r.wf(),
            r.content_map() == Map::<u64, Seq<u8>>::empty(),
            r.next_id == 1,
    {
        let r = InMemoryBackend { next_id: 1, data: Vec::new(), refcounts: Vec::new(), sealed: Vec::new() };
        assert(r.content_map() =~= Map::<u64, Seq<u8>>::empty());
        r
    }

    /// Hands out the next id, opening an empty slot for it.
    fn get_next_id(&mut self) -> (r: Option<(ContentId, usize)>)
        requires
            old(self).wf(),
        ensures
            final(self).wf(),
            match r {
                Some((id, i)) => {
                    &&& id.0 == old(self).next_id
                    &&& i == old(self).data@.len()
                    &&& id.0 == i + 1
                    &&& final(self).data@ == old(self).data@.push(None)
                    &&& final(self).refcounts@ == old(self).refcounts@.push(0)
                    &&& final(self).sealed@ == old(self).sealed@.push(false)
                },
                None => *final(self) == *old(self) && old(self).next_id == u64::MAX,
            },
    {
        if self.next_id == u64::MAX {
            return None;
        }
        let i = self.data.len();
        let id = ContentId::new(self.next_id);
        self.next_id = self.next_id + 1;
        self.data.push(None);
        self.refcounts.push(0);
        self.sealed.push(false);
        Some((id, i))
    }

    /// Adds one reference to `id` (saturating).
    fn increment_refcount(&mut self, id: ContentId)
        requires
            old(self).wf(),
        ensures
            final(self).wf(),
            final(self).data == old(self).data,
            final(self).sealed == old(self).sealed,
            final(self).next_id == old(self).next_id,
            1 <= id.0 <= old(self).refcounts@.len() ==> final(self).refcounts@ == old(
                self,
            ).refcounts@.update(
                id.0 - 1,
                if old(self).refcounts@[id.0 - 1] < usize::MAX {
                    (old(self).refcounts@[id.0 - 1] + 1) as usize
                } else {
                    usize::MAX
                },
            ),
            !(1 <= id.0 <= old(self).refcounts@.len()) ==> final(self).refcounts == old(self).refcounts,
    {
        if id.0 >= 1 && id.0 - 1 < self.refcounts.len() as u64 {
            let i = (id.0 - 1) as usize;
            let c = self.refcounts[i];
            let n = if c < usize::MAX { c + 1 } else { usize::MAX };
            self.refcounts.set(i, n);
        }
    }

    /// Drops one reference to `id`; at zero the content and seal are released.
    pub fn decrement_refcount(&mut self, id: ContentId)
        requires
            old(self).wf(),
        ensures
            final(self).wf(),
            final(self).next_id == old(self).next_id,
            old(self).refcount_of(id.0) > 1 ==> {
                &&& final(self).refcount_of(id.0) == old(self).refcount_of(id.0) - 1
                &&& final(self).content_map() == old(self).content_map()
            },
            old(self).refcount_of(id.0) == 1 ==> {
                &&& final(self).refcount_of(id.0) == 0
                &&& final(self).content_map() == old(self).content_map().remove(id.0)
                &&& !final(self).is_sealed(id.0)
            },
            old(self).refcount_of(id.0) == 0 ==> *final(self) == *old(self),
            forall|other: u64| other != id.0 ==> final(self).refcount_of(other) == old(self).refcount_of(other)
                && final(self).is_sealed(other) == old(self).is_sealed(other),
    {
        if id.0 >= 1 && id.0 - 1 < self.refcounts.len() as u64 {
            let i = (id.0 - 1) as usize;
            let c = self.refcounts[i];
            if c > 0 {
                let n = c - 1;
                self.refcounts.set(i, n);
                if n == 0 {
                    self.data.set(i, None);
                    self.sealed.set(i, false);
                    assert(self.content_map() =~= old(self).content_map().remove(id.0));
                } else {
                    assert(self.content_map() =~= old(self).content_map());
                }
            }
        }
    }
}

impl StorageBackend for InMemoryBackend {
    open spec fn contents(&self) -> Map<u64, Seq<u8>> {
        self.content_map()
    }

    open spec fn inv(&self) -> bool {
        self.wf()
    }

    fn read(&self, id: ContentId, offset: u64, buf: &mut [u8]) -> (r: FsResult<usize>) {
        if id.0 == 0 || id.0 - 1 >= self.data.len() as u64 {
            return Err(FsError::NotFound);
        }
        let i = (id.0 - 1) as usize;
        match &self.data[i] {
            None => Err(FsError::NotFound),
            Some(content) => {
                assert(self.contents().contains_key(id.0));
                assert(self.contents()[id.0] == content@);
                if offset >= content.len() as u64 {
                    return Ok(0);
                }
                let start = offset as usize;
                assert(start == offset);
                let clen = content.len();
                let avail = clen - start;
                let n = if buf.len() < avail { buf.len() } else { avail };
                let mut j: usize = 0;
                while j < n
                    invariant
                        j <= n,
                        n <= buf@.len(),
                        start + n <= clen,
                        clen == content@.len(),
                        buf@.len() == old(buf)@.len(),
                        forall|k: int| 0 <= k < j ==> buf@[k] == content@[start + k],
                        forall|k: int| j <= k < buf@.len() ==> buf@[k] == old(buf)@[k],
                    decreases n - j,
                {
                    buf.set(j, content[start + j]);
                    j = j + 1;
                }
                Ok(n)
            },
        }
    }

    fn write(&mut self, id: ContentId, offset: u64, data: &[u8]) -> (r: FsResult<usize>) {
        if id.0 == 0 || id.0 - 1 >= self.data.len() as u64 {
            return Err(FsError::NotFound);
        }
        let i = (id.0 - 1) as usize;
        let slot = self.data[i].take();
        match slot {
            None => {
                self.data.set(i, None);
                assert(self.data@ =~= old(self).data@);
                Err(FsError::NotFound)
            },
            Some(mut content) => {
                let ghost old_c = content@;
                let start = offset as usize;
                assert(start == offset);
                let end = start + data.len();
                while content.len() < end
                    invariant
                        old_c.len() <= content@.len(),
                        content@.len() <= end || content@ == old_c,
                        content@.subrange(0, old_c.len() as int) == old_c,
                        forall|k: int| old_c.len() <= k < content@.len() ==> content@[k] == 0u8,
                    decreases end - content@.len(),
                {
                    content.push(0u8);
                }
                let ghost ext = content@;
                assert(ext =~= (if offset + data@.len() > old_c.len() {
                    old_c + Seq::new((offset + data@.len() - old_c.len()) as nat, |k: int| 0u8)
                } else {
                    old_c
                }));
                let mut j: usize = 0;
                while j < data.len()
                    invariant
                        j <= data@.len(),
                        end == start + data@.len(),
                        content@.len() == ext.len(),
                        end <= ext.len(),
                        forall|k: int| 0 <= k < start ==> content@[k] == ext[k],
                        forall|k: int| start <= k < start + j ==> content@[k] == data@[k - start],
                        forall|k: int| start + j <= k < ext.len() ==> content@[k] == ext[k],
                    decreases data@.len() - j,
                {
                    content.set(start + j, data[j]);
                    j = j + 1;
                }
                assert(content@ =~= write_bytes(old_c, offset as int, data@));
                self.data.set(i, Some(content));
                assert(self.contents() =~= old(self).contents().insert(
                    id.0,
                    write_bytes(old(self).contents()[id.0], offset as int, data@),
                ));
                Ok(data.len())
            },
        }
    }

    fn truncate(&mut self, id: ContentId, new_len: u64) -> (r: FsResult<()>) {
        if id.0 == 0 || id.0 - 1 >= self.data.len() as u64 {
            return Err(FsError::NotFound);
        }
        let i = (id.0 - 1) as usize;
        let slot = self.data[i].take();
        match slot {
            None => {
                self.data.set(i, None);
                assert(self.data@ =~= old(self).data@);
                Err(FsError::NotFound)
            },
            Some(mut content) => {
                let ghost old_c = content@;
                let n = new_len as usize;
                if n <= content.len() {
                    content.truncate(n);
                } else {
                    while content.len() < n
                        invariant
                            old_c.len() <= content@.len(),
                            content@.len() <= n,
                            content@.subrange(0, old_c.len() as int) == old_c,
                            forall|k: int| old_c.len() <= k < content@.len() ==> content@[k] == 0u8,
                        decreases n - content@.len(),
                    {
                        content.push(0u8);
                    }
                }
                assert(content@ =~= resize_bytes(old_c, new_len as int));
                self.data.set(i, Some(content));
                assert(self.contents() =~= old(self).contents().insert(
                    id.0,
                    resize_bytes(old(self).contents()[id.0], new_len as int),
                ));
                Ok(())
            },
        }
    }

    fn allocate(&mut self, initial: &[u8]) -> (r: FsResult<ContentId>)
        ensures
            r matches Ok(id) ==> id.0 == old(self).next_id,
            r is Ok ==> final(self).next_id == old(self).next_id + 1,
            r is Err ==> old(self).next_id == u64::MAX && *final(self) == *old(self),
    {
        let (id, i) = match self.get_next_id() {
            Some(p) => p,
            None => return Err(FsError::NoSpace),
        };
        let v = slice_to_vec(initial);
        self.data.set(i, Some(v));
        self.increment_refcount(id);
        assert(self.data@ == old(self).data@.push(Some(v)));
        assert forall|k: u64| #![auto] self.content_of(k) == (if k == id.0 { Some(initial@) } else { old(self).content_of(k) }) by {
        }
        assert(self.contents() =~= old(self).contents().insert(id.0, initial@));
        Ok(id)
    }

    fn clone_cow(&mut self, base: ContentId) -> (r: FsResult<ContentId>)
        ensures
            r matches Ok(id) ==> id.0 == old(self).next_id,
            r is Ok ==> final(self).next_id == old(self).next_id + 1,
            r matches Err(e) ==> (e == FsError::NoSpace ==> old(self).next_id == u64::MAX),
            r is Err ==> *final(self) == *old(self),
    {
        if base.0 == 0 || base.0 - 1 >= self.data.len() as u64 {
            return Err(FsError::NotFound);
        }
        let bi = (base.0 - 1) as usize;
        let copy: Vec<u8> = match &self.data[bi] {
            None => return Err(FsError::NotFound),
            Some(c) => slice_to_vec(c.as_slice()),
        };
        let (id, i) = match self.get_next_id() {
            Some(p) => p,
            None => return Err(FsError::NoSpace),
        };
        self.data.set(i, Some(copy));
        self.increment_refcount(id);
        assert(self.data@ == old(self).data@.push(Some(copy)));
        assert forall|k: u64| #![auto] self.content_of(k) == (if k == id.0 { old(self).content_of(base.0) } else { old(self).content_of(k) }) by {
        }
        assert(self.contents() =~= old(self).contents().insert(id.0, old(self).contents()[base.0]));
        Ok(id)
    }

    fn seal(&mut self, id: ContentId) -> (r: FsResult<()>)
        ensures
            r is Ok ==> final(self).is_sealed(id.0),
            forall|other: u64| other != id.0 ==> final(self).is_sealed(other) == old(self).is_sealed(other),
    {
        if id.0 == 0 || id.0 - 1 >= self.data.len() as u64 {
            return Err(FsError::NotFound);
        }
        let i = (id.0 - 1) as usize;
        if self.data[i].is_none() {
            return Err(FsError::NotFound);
        }
        self.sealed.set(i, true);
        assert(self.contents() =~= old(self).contents());
        Ok(())
    }
}

impl Default for InMemoryBackend {
    fn default() -> (r: Self)
        ensures
            r.wf(),
            r.content_map() == Map::<u64, Seq<u8>>::empty(),
    {
        Self::new()
    }
}

} // verus!
