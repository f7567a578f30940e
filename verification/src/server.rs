//! A request server over one filesystem core. Requests name paths under
//! `/agentfs`; the server hands out handle numbers of its own for the core's
//! handles and answers every request with exactly one response. Errors carry
//! a message and the host's error number.

use std::collections::HashMap;
use vstd::prelude::*;

use crate::config::{CachePolicy, CaseSensitivity, FsConfig, FsLimits, MemoryPolicy, SecurityPolicy};
use crate::errno::{host_errno_codes, ErrnoCodes};
use crate::error::{FsError, FsResult};
use crate::proto::messages::{
    FsAttrsResponse, FsDataResponse, FsDirEntry, FsEntriesResponse, FsErrorResponse, FsHandleResponse,
    FsOkResponse, FsResponse, FsWrittenResponse,
};
use crate::text::{chars_of, from_utf8_lossy, push_char, string_from_chars, utf8_lossy};
use crate::seqs::{lemma_first_match_at, lemma_first_match_none};
use crate::proto::messages::{
    FsCloseRequest, FsCreateRequest, FsGetAttrRequest, FsMkdirRequest, FsOpenRequest, FsReadDirRequest,
    FsReadRequest, FsRequest, FsUnlinkRequest, FsWriteRequest,
};
use crate::storage::read_count;
use crate::types::{BranchId, HandleId, OpenOptions, OpenOptionsView, PID};
use crate::vfs::laws::law_bind_sets_branch;
use crate::vfs::{attributes_of, binding_of, branch_with, default_branch_bytes, record_of, FsCore};
use vstd::utf8::encode_utf8;

verus! {

broadcast use vstd::std_specs::hash::group_hash_axioms;

/// `"/agentfs"`, the directory requests name the filesystem's root by.
pub open spec fn agentfs_root() -> Seq<char> {
    seq!['/', 'a', 'g', 'e', 'n', 't', 'f', 's']
}

/// The path inside the filesystem that request path `s` names: a leading
/// `/agentfs` is dropped (`/agentfs` itself is the root), and the result
/// always starts with `/`.
pub open spec fn agentfs_path(s: Seq<char>) -> Seq<char> {
    let stripped = if agentfs_root().push('/').is_prefix_of(s) {
        let rest = s.skip(8);
        if rest.len() == 0 {
            seq!['/']
        } else {
            rest
        }
    } else if s == agentfs_root() {
        seq!['/']
    } else {
        s
    };
    if stripped.len() > 0 && stripped[0] == '/' {
        stripped
    } else {
        seq!['/'] + stripped
    }
}

/// The characters of `/agentfs`.
fn agentfs_root_chars() -> (r: Vec<char>)
    ensures
        r@ == agentfs_root(),
{
    let mut r: Vec<char> = Vec::new();
    r.push('/');
    r.push('a');
    r.push('g');
    r.push('e');
    r.push('n');
    r.push('t');
    r.push('f');
    r.push('s');
    assert(r@ =~= agentfs_root());
    r
}

/// Whether `p` is a prefix of `cs`.
fn is_prefix(p: &Vec<char>, cs: &Vec<char>) -> (r: bool)
    ensures
        r == p@.is_prefix_of(cs@),
{
    if p.len() > cs.len() {
        return false;
    }
    let mut i: usize = 0;
    while i < p.len()
        invariant
            i <= p@.len() <= cs@.len(),
            p@.subrange(0, i as int) =~= cs@.subrange(0, i as int),
        decreases p@.len() - i,
    {
        if p[i] != cs[i] {
            assert(p@[i as int] != cs@.subrange(0, p@.len() as int)[i as int]);
            return false;
        }
        assert(p@.subrange(0, i + 1) =~= cs@.subrange(0, i + 1));
        i = i + 1;
    }
    assert(p@ =~= p@.subrange(0, i as int));
    true
}

/// `"/"` followed by `cs[from..]`.
fn slash_then(cs: &Vec<char>, from: usize) -> (r: String)
    requires
        from <= cs@.len(),
    ensures
        r@ == seq!['/'] + cs@.skip(from as int),
{
    let mut r = String::new();
    push_char(&mut r, '/');
    let mut i = from;
    while i < cs.len()
        invariant
            from <= i <= cs@.len(),
            r@ == seq!['/'] + cs@.subrange(from as int, i as int),
        decreases cs@.len() - i,
    {
        push_char(&mut r, cs[i]);
        assert(r@ =~= seq!['/'] + cs@.subrange(from as int, i + 1));
        i = i + 1;
    }
    assert(cs@.skip(from as int) =~= cs@.subrange(from as int, i as int));
    r
}

/// The path inside the filesystem that request path `s` names (see
/// [`agentfs_path`]).
pub fn normalize_agentfs_str(s: &str) -> (r: String)
    ensures
        r@ == agentfs_path(s@),
{
    let cs = chars_of(s);
    let root = agentfs_root_chars();
    let mut dir = agentfs_root_chars();
    dir.push('/');
    assert(dir@ =~= agentfs_root().push('/'));
    if is_prefix(&dir, &cs) {
        assert(cs@[8] == dir@[8]);
        return string_from_chars(&cs, 8, cs.len());
    }
    if cs.len() == 8 && is_prefix(&root, &cs) {
        assert(cs@ =~= agentfs_root());
        let r = slash_then(&cs, 8);
        assert(r@ =~= seq!['/']);
        return r;
    }
    if cs.len() > 0 && cs[0] == '/' {
        return string_from_chars(&cs, 0, cs.len());
    }
    let r = slash_then(&cs, 0);
    assert(cs@.skip(0) =~= cs@);
    r
}

/// Message and error number of the response to error `e`.
pub open spec fn error_reply(codes: ErrnoCodes, e: FsError) -> (Seq<char>, i32) {
    match e {
        FsError::NotFound => ("Not found"@, codes.enoent),
        FsError::AlreadyExists => ("Already exists"@, codes.eexist),
        FsError::AccessDenied => ("Access denied"@, codes.eacces),
        FsError::PermissionDenied => ("Permission denied"@, codes.eacces),
        FsError::InvalidArgument => ("Invalid argument"@, codes.einval),
        FsError::InvalidName => ("Invalid name"@, codes.einval),
        FsError::NotADirectory => ("Not a directory"@, codes.enotdir),
        FsError::IsADirectory => ("Is a directory"@, codes.eisdir),
        FsError::Busy => ("Resource busy"@, codes.ebusy),
        FsError::NotEmpty => ("Directory not empty"@, codes.enotempty),
        FsError::NoSpace => ("No space left"@, codes.enospc),
        FsError::TooManyOpenFiles => ("Too many open files"@, codes.emfile),
        FsError::Unsupported => ("Unsupported operation"@, codes.enotsup),
    }
}

/// `resp` is an error response with message `text` and error number `code`.
pub open spec fn is_error(resp: FsResponse, text: Seq<char>, code: i32) -> bool {
    resp matches FsResponse::Error(er) && er.error@ == encode_utf8(text) && er.code == Some(code as u32)
}

/// `resp` answers error `e`.
pub open spec fn answers_error(resp: FsResponse, codes: ErrnoCodes, e: FsError) -> bool {
    is_error(resp, error_reply(codes, e).0, error_reply(codes, e).1)
}

/// `resp` answers a handle number the server does not know.
pub open spec fn answers_bad_handle(resp: FsResponse, codes: ErrnoCodes) -> bool {
    is_error(resp, "Invalid handle"@, codes.ebadf)
}

/// The configuration the server runs its core with: case-sensitive names,
/// at most 1000 open handles, 10 branches and 10 snapshots, 100 MiB in
/// memory, no extended attributes, streams or events, and no permission
/// enforcement.
pub open spec fn server_config_ok(c: FsConfig) -> bool {
    &&& c.case_sensitivity == CaseSensitivity::Sensitive
    &&& c.limits.max_open_handles == 1000
    &&& c.limits.max_branches == 10
    &&& c.limits.max_snapshots == 10
    &&& c.memory.max_bytes_in_memory == Some(104857600u64)
    &&& c.memory.spill_directory is None
    &&& c.cache.attr_ttl_ms == 0 && c.cache.entry_ttl_ms == 0 && c.cache.negative_ttl_ms == 0
    &&& !c.cache.enable_readdir_plus && !c.cache.auto_cache && !c.cache.writeback_cache
    &&& !c.enable_ads && !c.enable_xattrs && !c.track_events
    &&& !c.security.enforce_posix_permissions
    &&& c.security.default_uid == 0 && c.security.default_gid == 0
    &&& !c.security.enable_windows_acl_compat && !c.security.root_bypass_permissions
}

fn server_config() -> (c: FsConfig)
    ensures
        server_config_ok(c),
{
    FsConfig {
        case_sensitivity: CaseSensitivity::Sensitive,
        limits: FsLimits { max_open_handles: 1000, max_branches: 10, max_snapshots: 10 },
        memory: MemoryPolicy { max_bytes_in_memory: Some(100 * 1024 * 1024), spill_directory: None },
        cache: CachePolicy {
            attr_ttl_ms: 0,
            entry_ttl_ms: 0,
            negative_ttl_ms: 0,
            enable_readdir_plus: false,
            auto_cache: false,
            writeback_cache: false,
        },
        security: SecurityPolicy::default(),
        enable_ads: false,
        enable_xattrs: false,
        track_events: false,
    }
}

/// Options a request opens a file with: the requested access; a create
/// request also creates and truncates; no sharing restriction; the unnamed
/// stream.
pub open spec fn request_options(read: bool, write: bool, create: bool) -> OpenOptionsView {
    OpenOptionsView { read, write, create, truncate: create, append: false, share: Seq::empty(), stream: None }
}

fn request_open_options(read: bool, write: bool, create: bool) -> (o: OpenOptions)
    ensures
        o@ == request_options(read, write, create),
{
    let o = OpenOptions { read, write, create, truncate: create, append: false, share: Vec::new(), stream: None };
    assert(o@.share =~= Seq::<crate::types::ShareMode>::empty());
    o
}

/// Mode of the directories `mkdir` requests make.
pub open spec fn request_dir_mode() -> u32 {
    0o755
}

/// The path inside the filesystem that request path bytes `b` name.
pub open spec fn request_path(b: Seq<u8>) -> Seq<char> {
    agentfs_path(utf8_lossy(b))
}

/// A core serving requests on behalf of one client process.
pub struct AgentFsServer {
    pub core: FsCore,
    /// The process requests act as.
    pub process_id: PID,
    /// Server handle number to the core's handle.
    pub handle_map: HashMap<u64, HandleId>,
    /// The handle number the next open hands out.
    pub next_local_handle: u64,
    /// The host's error numbers.
    pub codes: ErrnoCodes,
}

impl AgentFsServer {
    /// The server's own handle records are as they were.
    pub open spec fn keeps_handles(self, post: Self) -> bool {
        &&& post.handle_map@ == self.handle_map@
        &&& post.next_local_handle == self.next_local_handle
    }

    /// Nothing changed but what `post` says of the core.
    pub open spec fn keeps_all_but_core(self, post: Self) -> bool {
        &&& self.keeps_handles(post)
        &&& post.process_id == self.process_id
        &&& post.codes == self.codes
    }

    /// `resp` answers an open or create that ended with `r`: a new handle
    /// number for the core's handle, or the error.
    pub open spec fn handle_answer(self, post: Self, r: FsResult<HandleId>, resp: FsResponse) -> bool {
        match r {
            Ok(h) => {
                &&& resp == FsResponse::Handle(FsHandleResponse { handle: self.next_local_handle })
                &&& post.handle_map@ == self.handle_map@.insert(self.next_local_handle, h)
                &&& post.next_local_handle == self.next_local_handle + 1
            },
            Err(e) => answers_error(resp, self.codes, e) && self.keeps_handles(post),
        }
    }

    /// `resp` answers a request without payload that ended with `r`.
    pub open spec fn unit_answer(self, post: Self, r: FsResult<()>, resp: FsResponse) -> bool {
        &&& match r {
            Ok(_) => resp == FsResponse::Success(FsOkResponse {}),
            Err(e) => answers_error(resp, self.codes, e),
        }
        &&& self.keeps_handles(post)
    }

    /// `resp` and `post` are what an open request `o` yields: the core opens
    /// the named path with the requested access.
    pub open spec fn served_open(self, o: FsOpenRequest, post: Self, resp: FsResponse) -> bool {
        exists|r: FsResult<HandleId>|
            #[trigger] post.core.opened(
                self.core,
                self.process_id.0,
                request_path(o.path@),
                request_options(o.read, o.write, false),
                r,
            ) && self.handle_answer(post, r, resp)
    }

    /// `resp` and `post` are what a create request `c` yields: the core
    /// creates the named file and opens it with the requested access.
    pub open spec fn served_create(self, c: FsCreateRequest, post: Self, resp: FsResponse) -> bool {
        exists|r: FsResult<HandleId>|
            #[trigger] post.core.created(
                self.core,
                self.process_id.0,
                request_path(c.path@),
                request_options(c.read, c.write, true),
                r,
            ) && self.handle_answer(post, r, resp)
    }

    /// `resp` and `post` are what a close request `c` yields: an unknown
    /// handle number is an error; otherwise the core closes the handle, and
    /// once it has, the number is forgotten.
    pub open spec fn served_close(self, c: FsCloseRequest, post: Self, resp: FsResponse) -> bool {
        if self.handle_map@.contains_key(c.handle) {
            exists|r: FsResult<()>|
                #[trigger] post.core.closed(self.core, self.handle_map@[c.handle], r) && {
                    &&& post.next_local_handle == self.next_local_handle
                    &&& match r {
                        Ok(_) => {
                            &&& resp == FsResponse::Success(FsOkResponse {})
                            &&& post.handle_map@ == self.handle_map@.remove(c.handle)
                        },
                        Err(e) => answers_error(resp, self.codes, e) && post.handle_map@ == self.handle_map@,
                    }
                }
        } else {
            answers_bad_handle(resp, self.codes) && post.core == self.core && self.keeps_handles(post)
        }
    }

    /// `resp` and `post` are what a read request `rd` yields: an unknown
    /// handle number is an error; otherwise up to `rd.len` bytes from
    /// `rd.offset` of what the handle reads, or the core's error. Nothing changes.
    pub open spec fn served_read(self, rd: FsReadRequest, post: Self, resp: FsResponse) -> bool {
        &&& post.core == self.core
        &&& self.keeps_handles(post)
        &&& if self.handle_map@.contains_key(rd.handle) {
            match self.core.read_source(self.handle_map@[rd.handle]) {
                Ok(c) => {
                    let data = self.core.content(c).unwrap();
                    let n = read_count(data, rd.offset as int, rd.len as int);
                    resp matches FsResponse::Data(d) && d.data@.len() == n && forall|k: int|
                        0 <= k < n ==> #[trigger] d.data@[k] == data[rd.offset + k]
                },
                Err(e) => answers_error(resp, self.codes, e),
            }
        } else {
            answers_bad_handle(resp, self.codes)
        }
    }

    /// `resp` and `post` are what a write request `w` yields: an unknown
    /// handle number is an error; otherwise the core writes the data through
    /// the handle and the response counts the bytes written.
    pub open spec fn served_write(self, w: FsWriteRequest, post: Self, resp: FsResponse) -> bool {
        &&& self.keeps_handles(post)
        &&& if self.handle_map@.contains_key(w.handle) {
            exists|r: FsResult<usize>|
                #[trigger] post.core.written(
                    self.core,
                    self.process_id.0,
                    self.handle_map@[w.handle],
                    w.offset,
                    w.data@,
                    r,
                ) && match r {
                    Ok(n) => resp == FsResponse::Written(FsWrittenResponse { len: n }),
                    Err(e) => answers_error(resp, self.codes, e),
                }
        } else {
            answers_bad_handle(resp, self.codes) && post.core == self.core
        }
    }

    /// `resp` and `post` are what an attribute request `g` yields: the size,
    /// kind and symlink flag of the node at the named path, or the error.
    /// Nothing changes.
    pub open spec fn served_getattr(self, g: FsGetAttrRequest, post: Self, resp: FsResponse) -> bool {
        &&& post.core == self.core
        &&& self.keeps_handles(post)
        &&& match self.core.lookup(self.process_id.0, request_path(g.path@)) {
            Ok(id) => {
                let a = attributes_of(self.core.node(id).unwrap());
                resp == FsResponse::Attrs(FsAttrsResponse { len: a.len, is_dir: a.is_dir, is_symlink: a.is_symlink })
            },
            Err(e) => answers_error(resp, self.codes, e),
        }
    }

    /// `resp` and `post` are what a mkdir request `m` yields: the core makes
    /// the named directory with mode 0755.
    pub open spec fn served_mkdir(self, m: FsMkdirRequest, post: Self, resp: FsResponse) -> bool {
        exists|r: FsResult<()>|
            #[trigger] post.core.made_dir(
                self.core,
                self.process_id.0,
                request_path(m.path@),
                request_dir_mode(),
                r,
            ) && self.unit_answer(post, r, resp)
    }

    /// `resp` and `post` are what an unlink request `u` yields: the core
    /// unlinks the named path.
    pub open spec fn served_unlink(self, u: FsUnlinkRequest, post: Self, resp: FsResponse) -> bool {
        exists|r: FsResult<()>|
            #[trigger] post.core.unlinked(self.core, self.process_id.0, request_path(u.path@), r)
                && self.unit_answer(post, r, resp)
    }

    /// `resp` and `post` are what a directory listing request `l` yields:
    /// the entries of the named directory in name order, each with the size,
    /// kind and symlink flag of its node, or the error. Nothing changes.
    pub open spec fn served_readdir(self, l: FsReadDirRequest, post: Self, resp: FsResponse) -> bool {
        &&& post.core == self.core
        &&& self.keeps_handles(post)
        &&& match self.core.listing(self.process_id.0, request_path(l.path@)) {
            Ok(s) => resp matches FsResponse::Entries(es) && es.entries@.len() == s.len() && forall|i: int|
                0 <= i < s.len() ==> {
                    let e = #[trigger] es.entries@[i];
                    let a = attributes_of(self.core.node(s[i].1).unwrap());
                    &&& e.name@ == encode_utf8(s[i].0)
                    &&& e.is_dir == a.is_dir
                    &&& e.is_symlink == a.is_symlink
                    &&& e.len == a.len
                },
            Err(e) => answers_error(resp, self.codes, e),
        }
    }

    /// `resp` and `post` are what request `req` yields.
    pub open spec fn served(self, req: FsRequest, post: Self, resp: FsResponse) -> bool {
        &&& post.process_id == self.process_id
        &&& post.codes == self.codes
        &&& match req {
            FsRequest::Open(o) => self.served_open(o, post, resp),
            FsRequest::Create(c) => self.served_create(c, post, resp),
            FsRequest::Close(c) => self.served_close(c, post, resp),
            FsRequest::Read(rd) => self.served_read(rd, post, resp),
            FsRequest::Write(w) => self.served_write(w, post, resp),
            FsRequest::GetAttr(g) => self.served_getattr(g, post, resp),
            FsRequest::Mkdir(m) => self.served_mkdir(m, post, resp),
            FsRequest::Unlink(u) => self.served_unlink(u, post, resp),
            FsRequest::ReadDir(l) => self.served_readdir(l, post, resp),
        }
    }

    /// What serving `req` needs: a handle number left to hand out for an
    /// open or create, and a write that ends within the address space.
    pub open spec fn accepts(self, req: FsRequest) -> bool {
        match req {
            FsRequest::Open(_) => self.next_local_handle < u64::MAX,
            FsRequest::Create(_) => self.next_local_handle < u64::MAX,
            FsRequest::Write(w) => w.offset + w.data@.len() <= usize::MAX,
            _ => true,
        }
    }

    /// The core is well formed and every handle number handed out so far is
    /// below the next one.
    pub open spec fn wf(self) -> bool {
        &&& self.core.wf()
        &&& forall|k: u64| #[trigger] self.handle_map@.contains_key(k) ==> k < self.next_local_handle
    }

    /// A server whose core runs with [`server_config_ok`], registers
    /// processes 1 and 1000 (uid and gid 0), takes a snapshot named
    /// `initial` and binds process `own_pid` (the server's own) to the
    /// default branch. Requests act as process 1000; handle numbers start at 1.
    pub fn new(own_pid: u32) -> (r: Result<Self, FsError>)
        ensures
            r matches Ok(s) && {
                &&& s.wf()
                &&& server_config_ok(s.core.config)
                &&& s.process_id.0 == 1000
                &&& s.handle_map@ == Map::<u64, HandleId>::empty()
                &&& s.next_local_handle == 1
                &&& s.core.process_index(1) is Some
                &&& s.core.process_index(1000) is Some
                &&& s.core.user_of(1000).uid == 0 && s.core.user_of(1000).gid == 0
                &&& s.core.snapshots@.len() == 1
                &&& s.core.snapshots@[0].name matches Some(n) && n@ == "initial"@
                &&& s.core.branch_of(own_pid) == default_branch_bytes()
            },
    {
        let config = server_config();
        let mut core = match FsCore::new(config) {
            Ok(c) => c,
            Err(e) => return Err(e),
        };
        proof {
            lemma_first_match_none(core.processes@, record_of(1));
        }
        let _server = core.register_process(1, 0, 0, 0);
        proof {
            lemma_first_match_none(core.processes@, record_of(1000));
        }
        let client = core.register_process(1000, 0, 0, 0);
        let ghost registered = core;
        proof {
            let ps = core.processes@;
            assert(ps.len() == 2 && ps[0].pid == 1 && ps[1].pid == 1000 && ps[1].uid == 0 && ps[1].gid == 0);
            lemma_first_match_at(ps, record_of(1), 0);
            lemma_first_match_at(ps, record_of(1000), 1);
            lemma_first_match_none(core.process_branches@, binding_of(own_pid));
            lemma_first_match_at(core.branches@, branch_with(default_branch_bytes()), 0);
        }
        let name = "initial";
        let _initial = match core.snapshot_create(&PID::new(own_pid), Some(name)) {
            Ok(s) => s,
            Err(e) => return Err(e),
        };
        let default = BranchId::default_branch();
        assert(default.0@ =~= default_branch_bytes());
        match core.bind_process_to_branch_with_pid(default, own_pid) {
            Ok(()) => {},
            Err(e) => return Err(e),
        }
        proof {
            law_bind_sets_branch(registered, core, own_pid, default);
        }
        Ok(AgentFsServer {
            core,
            process_id: client,
            handle_map: HashMap::new(),
            next_local_handle: 1,
            codes: host_errno_codes(),
        })
    }

    /// The path inside the filesystem that request path bytes `path` name:
    /// the bytes decoded as UTF-8 (invalid sequences replaced), then
    /// [`agentfs_path`].
    pub fn normalize_agentfs_path(&self, path: &[u8]) -> (r: String)
        ensures
            r@ == agentfs_path(utf8_lossy(path@)),
    {
        let s = from_utf8_lossy(path);
        normalize_agentfs_str(s.as_str())
    }

    /// Records core handle `r` under the next handle number and answers it,
    /// or answers the error.
    fn answer_handle(&mut self, r: FsResult<HandleId>) -> (resp: FsResponse)
        requires
            old(self).wf(),
            old(self).next_local_handle < u64::MAX,
        ensures
            final(self).wf(),
            final(self).core == old(self).core,
            final(self).process_id == old(self).process_id,
            final(self).codes == old(self).codes,
            old(self).handle_answer(*final(self), r, resp),
    {
        match r {
            Ok(h) => {
                let local = self.next_local_handle;
                self.handle_map.insert(local, h);
                self.next_local_handle = local + 1;
                FsResponse::handle(local)
            },
            Err(e) => self.map_ssz_error(e),
        }
    }

    /// Answers a request without payload that ended with `r`.
    fn answer_unit(&self, r: FsResult<()>) -> (resp: FsResponse)
        ensures
            match r {
                Ok(_) => resp == FsResponse::Success(FsOkResponse {}),
                Err(e) => answers_error(resp, self.codes, e),
            },
    {
        match r {
            Ok(()) => FsResponse::ok(),
            Err(e) => self.map_ssz_error(e),
        }
    }

    fn serve_open(&mut self, req: FsOpenRequest) -> (resp: FsResponse)
        requires
            old(self).wf(),
            old(self).next_local_handle < u64::MAX,
        ensures
            final(self).wf(),
            final(self).process_id == old(self).process_id,
            final(self).codes == old(self).codes,
            old(self).served_open(req, *final(self), resp),
    {
        let path = self.normalize_agentfs_path(req.path.as_slice());
        let opts = request_open_options(req.read, req.write, false);
        let pid = self.process_id;
        let r = self.core.open(&pid, path.as_str(), &opts);
        let ghost opened = self.core;
        let resp = self.answer_handle(r);
        assert(self.core.opened(old(self).core, pid.0, request_path(req.path@), opts@, r)) by {
            assert(opened == self.core);
        }
        resp
    }

    fn serve_create(&mut self, req: FsCreateRequest) -> (resp: FsResponse)
        requires
            old(self).wf(),
            old(self).next_local_handle < u64::MAX,
        ensures
            final(self).wf(),
            final(self).process_id == old(self).process_id,
            final(self).codes == old(self).codes,
            old(self).served_create(req, *final(self), resp),
    {
        let path = self.normalize_agentfs_path(req.path.as_slice());
        let opts = request_open_options(req.read, req.write, true);
        let pid = self.process_id;
        let r = self.core.create(&pid, path.as_str(), &opts);
        let ghost made = self.core;
        let resp = self.answer_handle(r);
        assert(self.core.created(old(self).core, pid.0, request_path(req.path@), opts@, r)) by {
            assert(made == self.core);
        }
        resp
    }

    fn serve_close(&mut self, req: FsCloseRequest) -> (resp: FsResponse)
        requires
            old(self).wf(),
        ensures
            final(self).wf(),
            final(self).process_id == old(self).process_id,
            final(self).codes == old(self).codes,
            old(self).served_close(req, *final(self), resp),
    {
        let h = match self.handle_map.get(&req.handle) {
            Some(h) => *h,
            None => return FsResponse::error(String::from_str("Invalid handle"), Some(self.codes.ebadf as u32)),
        };
        let pid = self.process_id;
        let r = self.core.close(&pid, h);
        match r {
            Ok(()) => {
                self.handle_map.remove(&req.handle);
                assert(self.handle_map@ =~= old(self).handle_map@.remove(req.handle));
                let resp = FsResponse::ok();
                assert(self.core.closed(old(self).core, h, r));
                resp
            },
            Err(e) => {
                let resp = self.map_ssz_error(e);
                assert(self.core.closed(old(self).core, h, r));
                resp
            },
        }
    }

    fn serve_read(&self, req: FsReadRequest) -> (resp: FsResponse)
        requires
            self.wf(),
        ensures
            self.served_read(req, *self, resp),
    {
        let h = match self.handle_map.get(&req.handle) {
            Some(h) => *h,
            None => return FsResponse::error(String::from_str("Invalid handle"), Some(self.codes.ebadf as u32)),
        };
        let mut buf = vec![0u8; req.len];
        let r = self.core.read(&self.process_id, h, req.offset, buf.as_mut_slice());
        match r {
            Ok(n) => {
                buf.truncate(n);
                FsResponse::data(buf)
            },
            Err(e) => self.map_ssz_error(e),
        }
    }

    fn serve_write(&mut self, req: FsWriteRequest) -> (resp: FsResponse)
        requires
            old(self).wf(),
            req.offset + req.data@.len() <= usize::MAX,
        ensures
            final(self).wf(),
            final(self).process_id == old(self).process_id,
            final(self).codes == old(self).codes,
            old(self).served_write(req, *final(self), resp),
    {
        let h = match self.handle_map.get(&req.handle) {
            Some(h) => *h,
            None => return FsResponse::error(String::from_str("Invalid handle"), Some(self.codes.ebadf as u32)),
        };
        let pid = self.process_id;
        let r = self.core.write(&pid, h, req.offset, req.data.as_slice());
        let resp = match r {
            Ok(n) => FsResponse::written(n),
            Err(e) => self.map_ssz_error(e),
        };
        assert(self.core.written(old(self).core, pid.0, h, req.offset, req.data@, r));
        resp
    }

    fn serve_getattr(&self, req: FsGetAttrRequest) -> (resp: FsResponse)
        requires
            self.wf(),
        ensures
            self.served_getattr(req, *self, resp),
    {
        let path = self.normalize_agentfs_path(req.path.as_slice());
        match self.core.getattr(&self.process_id, path.as_str()) {
            Ok(attrs) => FsResponse::attrs(attrs.len, attrs.is_dir, attrs.is_symlink),
            Err(e) => self.map_ssz_error(e),
        }
    }

    fn serve_mkdir(&mut self, req: FsMkdirRequest) -> (resp: FsResponse)
        requires
            old(self).wf(),
        ensures
            final(self).wf(),
            final(self).process_id == old(self).process_id,
            final(self).codes == old(self).codes,
            old(self).served_mkdir(req, *final(self), resp),
    {
        let path = self.normalize_agentfs_path(req.path.as_slice());
        let pid = self.process_id;
        let r = self.core.mkdir(&pid, path.as_str(), 0o755);
        let resp = self.answer_unit(r);
        assert(self.core.made_dir(old(self).core, pid.0, request_path(req.path@), request_dir_mode(), r));
        resp
    }

    fn serve_unlink(&mut self, req: FsUnlinkRequest) -> (resp: FsResponse)
        requires
            old(self).wf(),
        ensures
            final(self).wf(),
            final(self).process_id == old(self).process_id,
            final(self).codes == old(self).codes,
            old(self).served_unlink(req, *final(self), resp),
    {
        let path = self.normalize_agentfs_path(req.path.as_slice());
        let pid = self.process_id;
        let r = self.core.unlink(&pid, path.as_str());
        let resp = self.answer_unit(r);
        assert(self.core.unlinked(old(self).core, pid.0, request_path(req.path@), r));
        resp
    }

    fn serve_readdir(&self, req: FsReadDirRequest) -> (resp: FsResponse)
        requires
            self.wf(),
        ensures
            self.served_readdir(req, *self, resp),
    {
        let path = self.normalize_agentfs_path(req.path.as_slice());
        let listed = match self.core.readdir_plus(&self.process_id, path.as_str()) {
            Ok(v) => v,
            Err(e) => return self.map_ssz_error(e),
        };
        let ghost s = self.core.listing(self.process_id.0, path@)->Ok_0;
        let mut entries: Vec<FsDirEntry> = Vec::new();
        let mut i: usize = 0;
        while i < listed.len()
            invariant
                i <= listed@.len(),
                listed@.len() == s.len(),
                forall|j: int| 0 <= j < s.len() ==> {
                    let e = #[trigger] listed@[j];
                    &&& e.0.name@ == s[j].0
                    &&& e.1 == attributes_of(self.core.node(s[j].1).unwrap())
                    &&& e.0.is_dir == e.1.is_dir
                    &&& e.0.is_symlink == e.1.is_symlink
                    &&& e.0.len == e.1.len
                },
                entries@.len() == i,
                forall|j: int| 0 <= j < i ==> {
                    let e = #[trigger] entries@[j];
                    let a = attributes_of(self.core.node(s[j].1).unwrap());
                    &&& e.name@ == encode_utf8(s[j].0)
                    &&& e.is_dir == a.is_dir
                    &&& e.is_symlink == a.is_symlink
                    &&& e.len == a.len
                },
            decreases listed@.len() - i,
        {
            let entry = &listed[i].0;
            let e = FsDirEntry::new(entry.name.clone(), entry.is_dir, entry.is_symlink, entry.len);
            assert(listed@[i as int].0.name@ == s[i as int].0);
            entries.push(e);
            i = i + 1;
        }
        FsResponse::entries(entries)
    }

    /// Serves one request (see [`served`](Self::served) for what each kind
    /// of request yields).
    pub fn handle_ssz_request(&mut self, req: FsRequest) -> (resp: FsResponse)
        requires
            old(self).wf(),
            old(self).accepts(req),
        ensures
            final(self).wf(),
            old(self).served(req, *final(self), resp),
    {
        match req {
            FsRequest::Open(r) => self.serve_open(r),
            FsRequest::Create(r) => self.serve_create(r),
            FsRequest::Close(r) => self.serve_close(r),
            FsRequest::Read(r) => self.serve_read(r),
            FsRequest::Write(r) => self.serve_write(r),
            FsRequest::GetAttr(r) => self.serve_getattr(r),
            FsRequest::Mkdir(r) => self.serve_mkdir(r),
            FsRequest::Unlink(r) => self.serve_unlink(r),
            FsRequest::ReadDir(r) => self.serve_readdir(r),
        }
    }

    /// The response to error `err`.
    pub fn map_ssz_error(&self, err: FsError) -> (r: FsResponse)
        ensures
            answers_error(r, self.codes, err),
    {
        let c = &self.codes;
        let (msg, code): (&str, i32) = match err {
            FsError::NotFound => ("Not found", c.enoent),
            FsError::AlreadyExists => ("Already exists", c.eexist),
            FsError::AccessDenied => ("Access denied", c.eacces),
            FsError::PermissionDenied => ("Permission denied", c.eacces),
            FsError::InvalidArgument => ("Invalid argument", c.einval),
            FsError::InvalidName => ("Invalid name", c.einval),
            FsError::NotADirectory => ("Not a directory", c.enotdir),
            FsError::IsADirectory => ("Is a directory", c.eisdir),
            FsError::Busy => ("Resource busy", c.ebusy),
            FsError::NotEmpty => ("Directory not empty", c.enotempty),
            FsError::NoSpace => ("No space left", c.enospc),
            FsError::TooManyOpenFiles => ("Too many open files", c.emfile),
            FsError::Unsupported => ("Unsupported operation", c.enotsup),
        };
        FsResponse::error(String::from_str(msg), Some(code as u32))
    }

    /// The response to error `err` (the same as
    /// [`map_ssz_error`](Self::map_ssz_error)).
    pub fn map_error(&self, err: FsError) -> (r: FsResponse)
        ensures
            answers_error(r, self.codes, err),
    {
        self.map_ssz_error(err)
    }
}

/// Every path the server hands to the core is absolute.
pub proof fn law_core_paths_absolute(s: Seq<char>)
    ensures
        agentfs_path(s).len() > 0,
        agentfs_path(s)[0] == '/',
{
}

/// The handle number a response hands out is one the server did not know
/// before; afterwards it stands for the core's new handle, and later numbers
/// are larger.
pub proof fn law_handle_numbers_fresh(s: AgentFsServer, req: FsRequest, post: AgentFsServer, resp: FsResponse)
    requires
        s.wf(),
        s.served(req, post, resp),
        resp is Handle,
    ensures
        resp matches FsResponse::Handle(h) && {
            &&& !s.handle_map@.contains_key(h.handle)
            &&& post.handle_map@.contains_key(h.handle)
            &&& h.handle < post.next_local_handle
        },
{
    match req {
        FsRequest::Open(o) => {
            let r = choose|r: FsResult<HandleId>|
                #[trigger] post.core.opened(
                    s.core,
                    s.process_id.0,
                    request_path(o.path@),
                    request_options(o.read, o.write, false),
                    r,
                ) && s.handle_answer(post, r, resp);
            assert(r is Ok);
        },
        FsRequest::Create(c) => {
            let r = choose|r: FsResult<HandleId>|
                #[trigger] post.core.created(
                    s.core,
                    s.process_id.0,
                    request_path(c.path@),
                    request_options(c.read, c.write, true),
                    r,
                ) && s.handle_answer(post, r, resp);
            assert(r is Ok);
        },
        FsRequest::Close(c) => {
            if s.handle_map@.contains_key(c.handle) {
                let r = choose|r: FsResult<()>|
                    #[trigger] post.core.closed(s.core, s.handle_map@[c.handle], r) && {
                        &&& post.next_local_handle == s.next_local_handle
                        &&& match r {
                            Ok(_) => {
                                &&& resp == FsResponse::Success(FsOkResponse {})
                                &&& post.handle_map@ == s.handle_map@.remove(c.handle)
                            },
                            Err(e) => answers_error(resp, s.codes, e) && post.handle_map@ == s.handle_map@,
                        }
                    };
            }
        },
        FsRequest::Write(w) => {
            if s.handle_map@.contains_key(w.handle) {
                let r = choose|r: FsResult<usize>|
                    #[trigger] post.core.written(
                        s.core,
                        s.process_id.0,
                        s.handle_map@[w.handle],
                        w.offset,
                        w.data@,
                        r,
                    ) && match r {
                        Ok(n) => resp == FsResponse::Written(FsWrittenResponse { len: n }),
                        Err(e) => answers_error(resp, s.codes, e),
                    };
            }
        },
        FsRequest::Mkdir(m) => {
            let r = choose|r: FsResult<()>|
                #[trigger] post.core.made_dir(
                    s.core,
                    s.process_id.0,
                    request_path(m.path@),
                    request_dir_mode(),
                    r,
                ) && s.unit_answer(post, r, resp);
        },
        FsRequest::Unlink(u) => {
            let r = choose|r: FsResult<()>|
                #[trigger] post.core.unlinked(s.core, s.process_id.0, request_path(u.path@), r) && s.unit_answer(
                    post,
                    r,
                    resp,
                );
        },
        _ => {},
    }
}

/// Once a close succeeds, the server no longer knows the handle number: a
/// second close of it is answered as an unknown handle.
pub proof fn law_closed_number_forgotten(
    s: AgentFsServer,
    c: FsCloseRequest,
    post: AgentFsServer,
    resp: FsResponse,
    post2: AgentFsServer,
    resp2: FsResponse,
)
    requires
        s.served(FsRequest::Close(c), post, resp),
        resp is Success,
        post.served(FsRequest::Close(c), post2, resp2),
    ensures
        !post.handle_map@.contains_key(c.handle),
        answers_bad_handle(resp2, post.codes),
        post2.core == post.core,
{
    if s.handle_map@.contains_key(c.handle) {
        let r = choose|r: FsResult<()>|
            #[trigger] post.core.closed(s.core, s.handle_map@[c.handle], r) && {
                &&& post.next_local_handle == s.next_local_handle
                &&& match r {
                    Ok(_) => {
                        &&& resp == FsResponse::Success(FsOkResponse {})
                        &&& post.handle_map@ == s.handle_map@.remove(c.handle)
                    },
                    Err(e) => answers_error(resp, s.codes, e) && post.handle_map@ == s.handle_map@,
                }
            };
        assert(r is Ok);
    }
}

} // verus!
