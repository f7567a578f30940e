//! Control-plane messages. Text travels as UTF-8 bytes; every request
//! carries the protocol version, currently the single byte `"1"`.

use vstd::prelude::*;
use vstd::utf8::encode_utf8;

verus! {

/// Request: the protocol version and the operation's payload.
#[derive(Debug, PartialEq)]
pub enum Request {
    SnapshotCreate((Vec<u8>, SnapshotCreateRequest)),
    SnapshotList(Vec<u8>),
    BranchCreate((Vec<u8>, BranchCreateRequest)),
    BranchBind((Vec<u8>, BranchBindRequest)),
}

/// Response: the operation's result, or an error.
#[derive(Clone, Debug, PartialEq)]
pub enum Response {
    SnapshotCreate(SnapshotCreateResponse),
    SnapshotList(SnapshotListResponse),
    BranchCreate(BranchCreateResponse),
    BranchBind(BranchBindResponse),
    Error(ErrorResponse),
}

/// Error response.
#[derive(Clone, Debug, PartialEq)]
pub struct ErrorResponse {
    pub error: Vec<u8>,
    pub code: Option<u32>,
}

/// Snapshot creation request payload.
#[derive(Clone, Debug, PartialEq)]
pub struct SnapshotCreateRequest {
    pub name: Option<Vec<u8>>,
}

/// Snapshot creation response payload.
#[derive(Clone, Debug, PartialEq)]
pub struct SnapshotCreateResponse {
    pub snapshot: SnapshotInfo,
}

/// Snapshot list request payload (empty).
#[derive(Clone, Debug, PartialEq)]
pub struct SnapshotListRequest {}

/// Snapshot list response payload.
#[derive(Clone, Debug, PartialEq)]
pub struct SnapshotListResponse {
    pub snapshots: Vec<SnapshotInfo>,
}

/// Snapshot information.
#[derive(Clone, Debug, PartialEq)]
pub struct SnapshotInfo {
    pub id: Vec<u8>,
    pub name: Option<Vec<u8>>,
}

/// Branch creation request payload.
#[derive(Clone, Debug, PartialEq)]
pub struct BranchCreateRequest {
    pub from: Vec<u8>,
    pub name: Option<Vec<u8>>,
}

/// Branch creation response payload.
#[derive(Clone, Debug, PartialEq)]
pub struct BranchCreateResponse {
    pub branch: BranchInfo,
}

/// Branch information.
#[derive(Clone, Debug, PartialEq)]
pub struct BranchInfo {
    pub id: Vec<u8>,
    pub name: Option<Vec<u8>>,
    pub parent: Vec<u8>,
}

/// Branch bind request payload.
#[derive(Clone, Debug, PartialEq)]
pub struct BranchBindRequest {
    pub branch: Vec<u8>,
    pub pid: Option<u32>,
}

/// Branch bind response payload.
#[derive(Clone, Debug, PartialEq)]
pub struct BranchBindResponse {
    pub branch: Vec<u8>,
    pub pid: u32,
}

/// Filesystem operation request.
#[derive(Clone, Debug, PartialEq)]
pub enum FsRequest {
    Open(FsOpenRequest),
    Create(FsCreateRequest),
    Close(FsCloseRequest),
    Read(FsReadRequest),
    Write(FsWriteRequest),
    GetAttr(FsGetAttrRequest),
    Mkdir(FsMkdirRequest),
    Unlink(FsUnlinkRequest),
    ReadDir(FsReadDirRequest),
}

/// Filesystem operation response.
#[derive(Clone, Debug, PartialEq)]
pub enum FsResponse {
    Handle(FsHandleResponse),
    Data(FsDataResponse),
    Written(FsWrittenResponse),
    Attrs(FsAttrsResponse),
    Entries(FsEntriesResponse),
    Success(FsOkResponse),
    Error(FsErrorResponse),
}

/// Open file request.
#[derive(Clone, Debug, PartialEq)]
pub struct FsOpenRequest {
    pub path: Vec<u8>,
    pub read: bool,
    pub write: bool,
}

/// Create file request.
#[derive(Clone, Debug, PartialEq)]
pub struct FsCreateRequest {
    pub path: Vec<u8>,
    pub read: bool,
    pub write: bool,
}

/// Close file request.
#[derive(Clone, Debug, PartialEq)]
pub struct FsCloseRequest {
    pub handle: u64,
}

/// Read file request.
#[derive(Clone, Debug, PartialEq)]
pub struct FsReadRequest {
    pub handle: u64,
    pub offset: u64,
    pub len: usize,
}

/// Write file request.
#[derive(Clone, Debug, PartialEq)]
pub struct FsWriteRequest {
    pub handle: u64,
    pub offset: u64,
    pub data: Vec<u8>,
}

/// Get attributes request.
#[derive(Clone, Debug, PartialEq)]
pub struct FsGetAttrRequest {
    pub path: Vec<u8>,
}

/// Make directory request.
#[derive(Clone, Debug, PartialEq)]
pub struct FsMkdirRequest {
    pub path: Vec<u8>,
}

/// Unlink file request.
#[derive(Clone, Debug, PartialEq)]
pub struct FsUnlinkRequest {
    pub path: Vec<u8>,
}

/// Read directory request.
#[derive(Clone, Debug, PartialEq)]
pub struct FsReadDirRequest {
    pub path: Vec<u8>,
}

/// Handle response.
#[derive(Clone, Debug, PartialEq)]
pub struct FsHandleResponse {
    pub handle: u64,
}

/// Data response.
#[derive(Clone, Debug, PartialEq)]
pub struct FsDataResponse {
    pub data: Vec<u8>,
}

/// Written response.
#[derive(Clone, Debug, PartialEq)]
pub struct FsWrittenResponse {
    pub len: usize,
}

/// Attributes response.
#[derive(Clone, Debug, PartialEq)]
pub struct FsAttrsResponse {
    pub len: u64,
    pub is_dir: bool,
    pub is_symlink: bool,
}

/// Directory entry.
#[derive(Clone, Debug, PartialEq)]
pub struct FsDirEntry {
    pub name: Vec<u8>,
    pub is_dir: bool,
    pub is_symlink: bool,
    pub len: u64,
}

/// Directory entries response.
#[derive(Clone, Debug, PartialEq)]
pub struct FsEntriesResponse {
    pub entries: Vec<FsDirEntry>,
}

/// OK response.
#[derive(Clone, Debug, PartialEq)]
pub struct FsOkResponse {}

/// Error response.
#[derive(Clone, Debug, PartialEq)]
pub struct FsErrorResponse {
    pub error: Vec<u8>,
    pub code: Option<u32>,
}

/// The protocol version every request carries: the byte `'1'`.
pub open spec fn version_one() -> Seq<u8> {
    seq![49u8]
}

/// View of optional bytes.
pub open spec fn opt_bytes(o: Option<Vec<u8>>) -> Option<Seq<u8>> {
    match o {
        Some(v) => Some(v@),
        None => None,
    }
}

/// UTF-8 encoding of an optional string.
pub open spec fn opt_utf8(o: Option<String>) -> Option<Seq<u8>> {
    match o {
        Some(s) => Some(encode_utf8(s@)),
        None => None,
    }
}

/// The UTF-8 bytes of `s`.
pub fn string_bytes(s: String) -> (r: Vec<u8>)
    ensures
        r@ == encode_utf8(s@),
{
    vstd::slice::slice_to_vec(s.as_str().as_bytes())
}

/// The UTF-8 bytes of an optional string.
fn opt_string_bytes(o: Option<String>) -> (r: Option<Vec<u8>>)
    ensures
        opt_bytes(r) == opt_utf8(o),
{
    match o {
        Some(s) => Some(string_bytes(s)),
        None => None,
    }
}

/// The version bytes of a new request.
fn version() -> (r: Vec<u8>)
    ensures
        r@ == version_one(),
{
    let mut v: Vec<u8> = Vec::new();
    v.push(49u8);
    assert(v@ =~= version_one());
    v
}

impl Request {
    /// Request to snapshot the current branch, optionally named.
    pub fn snapshot_create(name: Option<String>) -> (r: Self)
        ensures
            r matches Request::SnapshotCreate((v, req)) && v@ == version_one() && opt_bytes(req.name) == opt_utf8(name),
    {
        Request::SnapshotCreate((version(), SnapshotCreateRequest { name: opt_string_bytes(name) }))
    }

    /// Request to list snapshots.
    pub fn snapshot_list() -> (r: Self)
        ensures
            r matches Request::SnapshotList(v) && v@ == version_one(),
    {
        Request::SnapshotList(version())
    }

    /// Request to create a branch from `from`, optionally named.
    pub fn branch_create(from: String, name: Option<String>) -> (r: Self)
        ensures
            r matches Request::BranchCreate((v, req)) && v@ == version_one() && req.from@ == encode_utf8(from@)
                && opt_bytes(req.name) == opt_utf8(name),
    {
        Request::BranchCreate((
            version(),
            BranchCreateRequest { from: string_bytes(from), name: opt_string_bytes(name) },
        ))
    }

    /// Request to bind process `pid` (the caller when absent) to `branch`.
    pub fn branch_bind(branch: String, pid: Option<u32>) -> (r: Self)
        ensures
            r matches Request::BranchBind((v, req)) && v@ == version_one() && req.branch@ == encode_utf8(branch@)
                && req.pid == pid,
    {
        Request::BranchBind((version(), BranchBindRequest { branch: string_bytes(branch), pid }))
    }
}

impl Response {
    /// Successful snapshot creation.
    pub fn snapshot_create(snapshot: SnapshotInfo) -> (r: Self)
        ensures
            r == Response::SnapshotCreate(SnapshotCreateResponse { snapshot }),
    {
        Response::SnapshotCreate(SnapshotCreateResponse { snapshot })
    }

    /// Snapshot listing.
    pub fn snapshot_list(snapshots: Vec<SnapshotInfo>) -> (r: Self)
        ensures
            r == Response::SnapshotList(SnapshotListResponse { snapshots }),
    {
        Response::SnapshotList(SnapshotListResponse { snapshots })
    }

    /// Successful branch creation.
    pub fn branch_create(branch: BranchInfo) -> (r: Self)
        ensures
            r == Response::BranchCreate(BranchCreateResponse { branch }),
    {
        Response::BranchCreate(BranchCreateResponse { branch })
    }

    /// Successful binding of `pid` to `branch`.
    pub fn branch_bind(branch: Vec<u8>, pid: u32) -> (r: Self)
        ensures
            r == Response::BranchBind(BranchBindResponse { branch, pid }),
    {
        Response::BranchBind(BranchBindResponse { branch, pid })
    }

    /// Error with `message` (as UTF-8) and an optional code.
    pub fn error(message: String, code: Option<u32>) -> (r: Self)
        ensures
            r matches Response::Error(e) && e.error@ == encode_utf8(message@) && e.code == code,
    {
        Response::Error(ErrorResponse { error: string_bytes(message), code })
    }
}

impl FsRequest {
    /// Open `path` for reading and/or writing.
    pub fn open(path: String, read: bool, write: bool) -> (r: Self)
        ensures
            r matches FsRequest::Open(q) && q.path@ == encode_utf8(path@) && q.read == read && q.write == write,
    {
        FsRequest::Open(FsOpenRequest { path: string_bytes(path), read, write })
    }

    /// Create `path` for reading and/or writing.
    pub fn create(path: String, read: bool, write: bool) -> (r: Self)
        ensures
            r matches FsRequest::Create(q) && q.path@ == encode_utf8(path@) && q.read == read && q.write == write,
    {
        FsRequest::Create(FsCreateRequest { path: string_bytes(path), read, write })
    }

    /// Close `handle`.
    pub fn close(handle: u64) -> (r: Self)
        ensures
            r == FsRequest::Close(FsCloseRequest { handle }),
    {
        FsRequest::Close(FsCloseRequest { handle })
    }

    /// Read `len` bytes at `offset` through `handle`.
    pub fn read(handle: u64, offset: u64, len: usize) -> (r: Self)
        ensures
            r == FsRequest::Read(FsReadRequest { handle, offset, len }),
    {
        FsRequest::Read(FsReadRequest { handle, offset, len })
    }

    /// Write `data` at `offset` through `handle`.
    pub fn write(handle: u64, offset: u64, data: Vec<u8>) -> (r: Self)
        ensures
            r == FsRequest::Write(FsWriteRequest { handle, offset, data }),
    {
        FsRequest::Write(FsWriteRequest { handle, offset, data })
    }

    /// Attributes of `path`.
    pub fn getattr(path: String) -> (r: Self)
        ensures
            r matches FsRequest::GetAttr(q) && q.path@ == encode_utf8(path@),
    {
        FsRequest::GetAttr(FsGetAttrRequest { path: string_bytes(path) })
    }

    /// Create directory `path`.
    pub fn mkdir(path: String) -> (r: Self)
        ensures
            r matches FsRequest::Mkdir(q) && q.path@ == encode_utf8(path@),
    {
        FsRequest::Mkdir(FsMkdirRequest { path: string_bytes(path) })
    }

    /// Remove `path`.
    pub fn unlink(path: String) -> (r: Self)
        ensures
            r matches FsRequest::Unlink(q) && q.path@ == encode_utf8(path@),
    {
        FsRequest::Unlink(FsUnlinkRequest { path: string_bytes(path) })
    }

    /// List directory `path`.
    pub fn readdir(path: String) -> (r: Self)
        ensures
            r matches FsRequest::ReadDir(q) && q.path@ == encode_utf8(path@),
    {
        FsRequest::ReadDir(FsReadDirRequest { path: string_bytes(path) })
    }
}

impl FsResponse {
    /// A handle was opened.
    pub fn handle(handle: u64) -> (r: Self)
        ensures
            r == FsResponse::Handle(FsHandleResponse { handle }),
    {
        FsResponse::Handle(FsHandleResponse { handle })
    }

    /// Bytes read.
    pub fn data(data: Vec<u8>) -> (r: Self)
        ensures
            r == FsResponse::Data(FsDataResponse { data }),
    {
        FsResponse::Data(FsDataResponse { data })
    }

    /// Number of bytes written.
    pub fn written(len: usize) -> (r: Self)
        ensures
            r == FsResponse::Written(FsWrittenResponse { len }),
    {
        FsResponse::Written(FsWrittenResponse { len })
    }

    /// Attributes.
    pub fn attrs(len: u64, is_dir: bool, is_symlink: bool) -> (r: Self)
        ensures
            r == FsResponse::Attrs(FsAttrsResponse { len, is_dir, is_symlink }),
    {
        FsResponse::Attrs(FsAttrsResponse { len, is_dir, is_symlink })
    }

    /// Directory entries.
    pub fn entries(entries: Vec<FsDirEntry>) -> (r: Self)
        ensures
            r == FsResponse::Entries(FsEntriesResponse { entries }),
    {
        FsResponse::Entries(FsEntriesResponse { entries })
    }

    /// Success without a payload.
    pub fn ok() -> (r: Self)
        ensures
            r == FsResponse::Success(FsOkResponse {}),
    {
        FsResponse::Success(FsOkResponse {})
    }

    /// Error with `message` (as UTF-8) and an optional code.
    pub fn error(message: String, code: Option<u32>) -> (r: Self)
        ensures
            r matches FsResponse::Error(e) && e.error@ == encode_utf8(message@) && e.code == code,
    {
        FsResponse::Error(FsErrorResponse { error: string_bytes(message), code })
    }
}

impl FsDirEntry {
    /// Entry named `name` (as UTF-8).
    pub fn new(name: String, is_dir: bool, is_symlink: bool, len: u64) -> (r: Self)
        ensures
            r.name@ == encode_utf8(name@),
            r.is_dir == is_dir,
            r.is_symlink == is_symlink,
            r.len == len,
    {
        FsDirEntry { name: string_bytes(name), is_dir, is_symlink, len }
    }
}

} // verus!
