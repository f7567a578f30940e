//! The decisions of the preloaded client library that redirects `open`,
//! `close`, `read` and `write` on paths under `/agentfs/` to the request
//! server: which calls it takes over, the request each one sends, what each
//! reply means, and the table from the descriptors it hands out to the
//! server's handle numbers. Sending, receiving and falling back to the real
//! call are the hooks' part.

use std::collections::HashMap;
use vstd::prelude::*;
use vstd::utf8::encode_utf8;

use crate::proto::messages::{FsRequest, FsResponse};
use crate::text::{from_utf8_lossy, owned, str_starts_with, utf8_lossy};

verus! {

broadcast use vstd::std_specs::hash::group_hash_axioms;

/// Paths under this prefix are redirected.
pub open spec fn intercepted_prefix() -> Seq<char> {
    "/agentfs/"@
}

/// Whether calls on `path` are redirected: it lies under `/agentfs/`.
pub fn should_intercept(path: &str) -> (r: bool)
    ensures
        r == intercepted_prefix().is_prefix_of(path@),
{
    str_starts_with(path, "/agentfs/")
}

/// The host's `open` flag bits the hooks look at.
#[derive(Clone, Copy, Debug)]
pub struct OpenFlagCodes {
    pub rdonly: i32,
    pub wronly: i32,
    pub rdwr: i32,
    pub creat: i32,
}

/// The host's `O_RDONLY`, `O_WRONLY`, `O_RDWR` and `O_CREAT`, read from the
/// `libc` constants of the same names. Their values differ between
/// platforms, so nothing is stated of them.
#[verifier::external_body]
pub fn host_open_flags() -> (c: OpenFlagCodes) {
    OpenFlagCodes { rdonly: libc::O_RDONLY, wronly: libc::O_WRONLY, rdwr: libc::O_RDWR, creat: libc::O_CREAT }
}

/// Read, write and create as the hook reads them from `flags`: read when
/// the read-only or read-write bit is set, write when the write-only or
/// read-write bit is set, create when the create bit is set.
pub open spec fn open_mode(flags: i32, c: OpenFlagCodes) -> (bool, bool, bool) {
    (
        (flags & c.rdonly) != 0 || (flags & c.rdwr) != 0,
        (flags & c.wronly) != 0 || (flags & c.rdwr) != 0,
        (flags & c.creat) != 0,
    )
}

/// Read, write and create of an `open` with `flags`.
pub fn open_mode_of(flags: i32, c: OpenFlagCodes) -> (m: (bool, bool, bool))
    ensures
        m == open_mode(flags, c),
{
    (
        (flags & c.rdonly) != 0 || (flags & c.rdwr) != 0,
        (flags & c.wronly) != 0 || (flags & c.rdwr) != 0,
        (flags & c.creat) != 0,
    )
}

/// Text of a reply the client did not expect.
pub open spec fn unexpected_reply() -> Seq<char> {
    "Unexpected response type"@
}

/// What a reply means to a call that expects `want`: the server's error
/// message (decoded leniently) for an error, the unexpected-reply text for
/// any other reply than `want`.
pub open spec fn refused(resp: FsResponse, r: Result<(), String>) -> bool {
    match resp {
        FsResponse::Error(e) => r matches Err(m) && m@ == utf8_lossy(e.error@),
        _ => r matches Err(m) && m@ == unexpected_reply(),
    }
}

fn refusal(resp: FsResponse) -> (r: Result<(), String>)
    ensures
        refused(resp, r),
{
    match resp {
        FsResponse::Error(e) => Err(from_utf8_lossy(e.error.as_slice())),
        _ => Err(owned("Unexpected response type")),
    }
}

/// Client of the request server's SSZ socket.
#[derive(Clone, Debug)]
pub struct SyncAgentFsClient {
    socket_path: String,
}

impl SyncAgentFsClient {
    /// The socket the client talks to.
    pub closed spec fn path(self) -> Seq<char> {
        self.socket_path@
    }

    /// A client of the socket at `socket_path`.
    pub fn new(socket_path: &str) -> (c: Self)
        ensures
            c.path() == socket_path@,
    {
        SyncAgentFsClient { socket_path: owned(socket_path) }
    }

    /// A client of the SSZ socket of the server at `server`: `<server>.ssz`.
    pub fn for_server(server: &str) -> (c: Self)
        ensures
            c.path() == server@ + ".ssz"@,
    {
        SyncAgentFsClient { socket_path: owned(server).concat(".ssz") }
    }

    /// The socket the client talks to.
    pub fn socket_path(&self) -> (p: &str)
        ensures
            p@ == self.path(),
    {
        self.socket_path.as_str()
    }

    /// The request opening `path` (create is not passed on).
    pub fn open_request(path: &str, read: bool, write: bool, create: bool) -> (q: FsRequest)
        ensures
            q matches FsRequest::Open(o) && o.path@ == encode_utf8(path@) && o.read == read && o.write == write,
    {
        FsRequest::open(owned(path), read, write)
    }

    /// The server's handle number from an open reply, taken as an `i32`.
    pub fn open_reply(resp: FsResponse) -> (r: Result<i32, String>)
        ensures
            match resp {
                FsResponse::Handle(h) => r == Ok::<i32, String>(h.handle as i32),
                FsResponse::Error(e) => r matches Err(m) && m@ == utf8_lossy(e.error@),
                _ => r matches Err(m) && m@ == unexpected_reply(),
            },
    {
        match resp {
            FsResponse::Handle(h) => Ok(h.handle as i32),
            FsResponse::Error(e) => Err(from_utf8_lossy(e.error.as_slice())),
            _ => Err(owned("Unexpected response type")),
        }
    }

    /// The request closing server handle `handle`.
    pub fn close_request(handle: i32) -> (q: FsRequest)
        ensures
            q matches FsRequest::Close(c) && c.handle == handle as u64,
    {
        FsRequest::close(handle as u64)
    }

    /// The request reading up to `count` bytes at offset 0 through `handle`.
    pub fn read_request(handle: i32, count: usize) -> (q: FsRequest)
        ensures
            q matches FsRequest::Read(x) && x.handle == handle as u64 && x.offset == 0 && x.len == count,
    {
        FsRequest::read(handle as u64, 0, count)
    }

    /// The request writing `data` at `offset` through `handle`.
    pub fn write_request(handle: i32, offset: u64, data: &[u8]) -> (q: FsRequest)
        ensures
            q matches FsRequest::Write(w) && w.handle == handle as u64 && w.offset == offset && w.data@ == data@,
    {
        FsRequest::write(handle as u64, offset, vstd::slice::slice_to_vec(data))
    }

    /// The request for the attributes of `path`.
    pub fn getattr_request(path: &str) -> (q: FsRequest)
        ensures
            q matches FsRequest::GetAttr(g) && g.path@ == encode_utf8(path@),
    {
        FsRequest::getattr(owned(path))
    }

    /// The request making directory `path`.
    pub fn mkdir_request(path: &str) -> (q: FsRequest)
        ensures
            q matches FsRequest::Mkdir(g) && g.path@ == encode_utf8(path@),
    {
        FsRequest::mkdir(owned(path))
    }

    /// The request removing `path`.
    pub fn unlink_request(path: &str) -> (q: FsRequest)
        ensures
            q matches FsRequest::Unlink(g) && g.path@ == encode_utf8(path@),
    {
        FsRequest::unlink(owned(path))
    }

    /// The request listing directory `path`.
    pub fn readdir_request(path: &str) -> (q: FsRequest)
        ensures
            q matches FsRequest::ReadDir(g) && g.path@ == encode_utf8(path@),
    {
        FsRequest::readdir(owned(path))
    }

    /// The bytes of a read reply.
    pub fn read_reply(resp: FsResponse) -> (r: Result<Vec<u8>, String>)
        ensures
            match resp {
                FsResponse::Data(d) => r matches Ok(v) && v@ == d.data@,
                FsResponse::Error(e) => r matches Err(m) && m@ == utf8_lossy(e.error@),
                _ => r matches Err(m) && m@ == unexpected_reply(),
            },
    {
        match resp {
            FsResponse::Data(d) => Ok(d.data),
            FsResponse::Error(e) => Err(from_utf8_lossy(e.error.as_slice())),
            _ => Err(owned("Unexpected response type")),
        }
    }

    /// A close, write, mkdir or unlink reply: plain success.
    pub fn done_reply(resp: FsResponse) -> (r: Result<(), String>)
        ensures
            match resp {
                FsResponse::Success(_) => r is Ok,
                _ => refused(resp, r),
            },
    {
        match resp {
            FsResponse::Success(_) => Ok(()),
            _ => refusal(resp),
        }
    }

    /// A getattr reply: attributes.
    pub fn getattr_reply(resp: FsResponse) -> (r: Result<(), String>)
        ensures
            match resp {
                FsResponse::Attrs(_) => r is Ok,
                _ => refused(resp, r),
            },
    {
        match resp {
            FsResponse::Attrs(_) => Ok(()),
            _ => refusal(resp),
        }
    }

    /// A readdir reply: entries.
    pub fn readdir_reply(resp: FsResponse) -> (r: Result<(), String>)
        ensures
            match resp {
                FsResponse::Entries(_) => r is Ok,
                _ => refused(resp, r),
            },
    {
        match resp {
            FsResponse::Entries(_) => Ok(()),
            _ => refusal(resp),
        }
    }
}

/// The first descriptor the hooks hand out.
pub const FIRST_LOCAL_HANDLE: i32 = 1000;

/// The hooks' table: the next descriptor to hand out, and the server handle
/// behind each descriptor handed out and not yet closed.
pub struct InterposeState {
    next_local: i32,
    handles: HashMap<i32, i32>,
}

impl InterposeState {
    /// The next descriptor to hand out.
    pub closed spec fn next(self) -> i32 {
        self.next_local
    }

    /// Server handle of each open descriptor.
    pub closed spec fn table(self) -> Map<i32, i32> {
        self.handles@
    }

    /// An empty table; descriptors start at [`FIRST_LOCAL_HANDLE`].
    pub fn new() -> (s: Self)
        ensures
            s.next() == FIRST_LOCAL_HANDLE,
            s.table() == Map::<i32, i32>::empty(),
    {
        InterposeState { next_local: FIRST_LOCAL_HANDLE, handles: HashMap::new() }
    }

    /// The next descriptor to hand out.
    pub fn next_descriptor(&self) -> (n: i32)
        ensures
            n == self.next(),
    {
        self.next_local
    }

    /// The server handle behind descriptor `fd`, if the hooks handed it out.
    pub fn agentfs_handle(&self, fd: i32) -> (h: Option<i32>)
        ensures
            h == (if self.table().contains_key(fd) { Some(self.table()[fd]) } else { None::<i32> }),
    {
        match self.handles.get(&fd) {
            Some(h) => Some(*h),
            None => None,
        }
    }

    /// Records a successful open through the server: hands out the next
    /// descriptor for server handle `handle` and returns it.
    pub fn opened(&mut self, handle: i32) -> (fd: i32)
        requires
            old(self).next() < i32::MAX,
        ensures
            fd == old(self).next(),
            final(self).next() == old(self).next() + 1,
            final(self).table() == old(self).table().insert(fd, handle),
    {
        let fd = self.next_local;
        self.next_local = self.next_local + 1;
        self.handles.insert(fd, handle);
        fd
    }

    /// Records a successful close of descriptor `fd`.
    pub fn closed(&mut self, fd: i32)
        ensures
            final(self).next() == old(self).next(),
            final(self).table() == old(self).table().remove(fd),
    {
        self.handles.remove(&fd);
    }
}

/// What an intercepted `open` of `path` with `flags` sends, or `None` when
/// the path is not redirected.
pub fn open_hook_request(path: &str, flags: i32, codes: OpenFlagCodes) -> (q: Option<FsRequest>)
    ensures
        intercepted_prefix().is_prefix_of(path@) <==> q is Some,
        q is Some ==> (q matches Some(FsRequest::Open(o)) && o.path@ == encode_utf8(path@)
            && o.read == open_mode(flags, codes).0 && o.write == open_mode(flags, codes).1),
{
    if !should_intercept(path) {
        return None;
    }
    let (read, write, create) = open_mode_of(flags, codes);
    Some(SyncAgentFsClient::open_request(path, read, write, create))
}

/// What an intercepted `open` returns given the server's reply: a new
/// descriptor when the server opened the file, `None` (fall back to the real
/// call) otherwise.
pub fn open_hook_finish(state: &mut InterposeState, resp: FsResponse) -> (fd: Option<i32>)
    requires
        old(state).next() < i32::MAX,
    ensures
        match resp {
            FsResponse::Handle(h) => {
                &&& fd == Some(old(state).next())
                &&& final(state).next() == old(state).next() + 1
                &&& final(state).table() == old(state).table().insert(old(state).next(), h.handle as i32)
            },
            _ => fd is None && final(state).next() == old(state).next() && final(state).table() == old(state).table(),
        },
{
    match SyncAgentFsClient::open_reply(resp) {
        Ok(h) => Some(state.opened(h)),
        Err(_) => None,
    }
}

/// What an intercepted `close` of `fd` returns given the server's reply: 0
/// and the descriptor forgotten when the server closed it, `None` (fall back
/// to the real call) otherwise.
pub fn close_hook_finish(state: &mut InterposeState, fd: i32, resp: FsResponse) -> (r: Option<i32>)
    ensures
        match resp {
            FsResponse::Success(_) => r == Some(0i32) && final(state).table() == old(state).table().remove(fd),
            _ => r is None && final(state).table() == old(state).table(),
        },
        final(state).next() == old(state).next(),
{
    match SyncAgentFsClient::done_reply(resp) {
        Ok(()) => {
            state.closed(fd);
            Some(0)
        },
        Err(_) => None,
    }
}

/// The bytes an intercepted `read` delivers given the server's reply, or
/// `None` (fall back to the real call).
pub fn read_hook_finish(resp: FsResponse) -> (r: Option<Vec<u8>>)
    ensures
        match resp {
            FsResponse::Data(d) => r matches Some(v) && v@ == d.data@,
            _ => r is None,
        },
{
    match SyncAgentFsClient::read_reply(resp) {
        Ok(v) => Some(v),
        Err(_) => None,
    }
}

/// What an intercepted `write` of `count` bytes returns given the server's
/// reply: `count` on plain success, `None` (fall back to the real call)
/// otherwise.
pub fn write_hook_finish(count: usize, resp: FsResponse) -> (r: Option<usize>)
    ensures
        match resp {
            FsResponse::Success(_) => r == Some(count),
            _ => r is None,
        },
{
    match SyncAgentFsClient::done_reply(resp) {
        Ok(()) => Some(count),
        Err(_) => None,
    }
}

} // verus!
