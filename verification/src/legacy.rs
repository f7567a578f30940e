//! The older text protocol of the request server: requests and responses
//! with textual paths and names, and their conversion to and from the
//! byte-level messages the server answers.

use vstd::prelude::*;

use crate::proto::messages::{FsRequest, FsResponse};
use crate::text::{from_utf8_lossy, utf8_lossy};
use vstd::utf8::encode_utf8;

verus! {

/// Request of the older protocol.
#[derive(Debug)]
pub enum LegacyFsRequest {
    Open { path: String, read: bool, write: bool, create: bool },
    Create { path: String, read: bool, write: bool },
    Close { handle: u64 },
    Read { handle: u64, offset: u64, len: usize },
    Write { handle: u64, offset: u64, data: Vec<u8> },
    GetAttr { path: String },
    Mkdir { path: String },
    Unlink { path: String },
    ReadDir { path: String },
}

/// Response of the older protocol.
#[derive(Debug)]
pub enum LegacyFsResponse {
    Handle { handle: u64 },
    Data { data: Vec<u8> },
    Written { len: usize },
    Attrs { len: u64, is_dir: bool, is_symlink: bool },
    Entries(Vec<LegacyDirEntry>),
    /// Success without a payload.
    Success,
    Error { error: String, code: Option<i32> },
}

/// Directory entry of the older protocol.
#[derive(Debug)]
pub struct LegacyDirEntry {
    pub name: String,
    pub is_dir: bool,
    pub is_symlink: bool,
    pub len: u64,
}

/// A request of the older protocol with its protocol version.
#[derive(Debug)]
pub struct LegacyMessage {
    pub version: String,
    pub body: LegacyFsRequest,
}

/// A response of the older protocol.
#[derive(Debug)]
pub struct LegacyResponse {
    pub body: LegacyFsResponse,
}

/// `r` is the byte-level request for `legacy`: the same operation and
/// values, paths as UTF-8. An open's `create` flag is not carried over.
pub open spec fn converts_request(legacy: LegacyFsRequest, r: FsRequest) -> bool {
    match legacy {
        LegacyFsRequest::Open { path, read, write, .. } => r matches FsRequest::Open(o) && o.path@ == encode_utf8(
            path@,
        ) && o.read == read && o.write == write,
        LegacyFsRequest::Create { path, read, write } => r matches FsRequest::Create(c) && c.path@ == encode_utf8(
            path@,
        ) && c.read == read && c.write == write,
        LegacyFsRequest::Close { handle } => r matches FsRequest::Close(c) && c.handle == handle,
        LegacyFsRequest::Read { handle, offset, len } => r matches FsRequest::Read(rd) && rd.handle == handle
            && rd.offset == offset && rd.len == len,
        LegacyFsRequest::Write { handle, offset, data } => r matches FsRequest::Write(w) && w.handle == handle
            && w.offset == offset && w.data@ == data@,
        LegacyFsRequest::GetAttr { path } => r matches FsRequest::GetAttr(g) && g.path@ == encode_utf8(path@),
        LegacyFsRequest::Mkdir { path } => r matches FsRequest::Mkdir(m) && m.path@ == encode_utf8(path@),
        LegacyFsRequest::Unlink { path } => r matches FsRequest::Unlink(u) && u.path@ == encode_utf8(path@),
        LegacyFsRequest::ReadDir { path } => r matches FsRequest::ReadDir(l) && l.path@ == encode_utf8(path@),
    }
}

/// The byte-level request for a request of the older protocol.
pub fn convert_legacy_to_ssz(legacy: LegacyFsRequest) -> (r: FsRequest)
    ensures
        converts_request(legacy, r),
{
    match legacy {
        LegacyFsRequest::Open { path, read, write, create: _ } => FsRequest::open(path, read, write),
        LegacyFsRequest::Create { path, read, write } => FsRequest::create(path, read, write),
        LegacyFsRequest::Close { handle } => FsRequest::close(handle),
        LegacyFsRequest::Read { handle, offset, len } => FsRequest::read(handle, offset, len),
        LegacyFsRequest::Write { handle, offset, data } => FsRequest::write(handle, offset, data),
        LegacyFsRequest::GetAttr { path } => FsRequest::getattr(path),
        LegacyFsRequest::Mkdir { path } => FsRequest::mkdir(path),
        LegacyFsRequest::Unlink { path } => FsRequest::unlink(path),
        LegacyFsRequest::ReadDir { path } => FsRequest::readdir(path),
    }
}

/// `r` is the older protocol's response for `resp`: the same values, names
/// and error messages decoded from UTF-8 (invalid sequences replaced), the
/// error number as a signed integer.
pub open spec fn converts_response(resp: FsResponse, r: LegacyFsResponse) -> bool {
    match resp {
        FsResponse::Handle(h) => r == LegacyFsResponse::Handle { handle: h.handle },
        FsResponse::Data(d) => r matches LegacyFsResponse::Data { data } && data@ == d.data@,
        FsResponse::Written(w) => r == LegacyFsResponse::Written { len: w.len },
        FsResponse::Attrs(a) => r == LegacyFsResponse::Attrs { len: a.len, is_dir: a.is_dir, is_symlink: a.is_symlink },
        FsResponse::Entries(es) => r matches LegacyFsResponse::Entries(v) && v@.len() == es.entries@.len() && forall|
            i: int,
        |
            0 <= i < v@.len() ==> {
                let e = #[trigger] v@[i];
                let s = es.entries@[i];
                &&& e.name@ == utf8_lossy(s.name@)
                &&& e.is_dir == s.is_dir
                &&& e.is_symlink == s.is_symlink
                &&& e.len == s.len
            },
        FsResponse::Success(_) => r == LegacyFsResponse::Success,
        FsResponse::Error(e) => r matches LegacyFsResponse::Error { error, code } && error@ == utf8_lossy(e.error@)
            && code == match e.code {
            Some(c) => Some(c as i32),
            None => None::<i32>,
        },
    }
}

/// The older protocol's response for a byte-level response.
pub fn convert_ssz_to_legacy(ssz: FsResponse) -> (r: LegacyFsResponse)
    ensures
        converts_response(ssz, r),
{
    match ssz {
        FsResponse::Handle(resp) => LegacyFsResponse::Handle { handle: resp.handle },
        FsResponse::Data(resp) => LegacyFsResponse::Data { data: resp.data },
        FsResponse::Written(resp) => LegacyFsResponse::Written { len: resp.len },
        FsResponse::Attrs(resp) => LegacyFsResponse::Attrs {
            len: resp.len,
            is_dir: resp.is_dir,
            is_symlink: resp.is_symlink,
        },
        FsResponse::Entries(resp) => {
            let mut out: Vec<LegacyDirEntry> = Vec::new();
            let mut i: usize = 0;
            while i < resp.entries.len()
                invariant
                    i <= resp.entries@.len(),
                    out@.len() == i,
                    forall|j: int|
                        0 <= j < i ==> {
                            let e = #[trigger] out@[j];
                            let s = resp.entries@[j];
                            &&& e.name@ == utf8_lossy(s.name@)
                            &&& e.is_dir == s.is_dir
                            &&& e.is_symlink == s.is_symlink
                            &&& e.len == s.len
                        },
                decreases resp.entries@.len() - i,
            {
                let entry = &resp.entries[i];
                out.push(
                    LegacyDirEntry {
                        name: from_utf8_lossy(entry.name.as_slice()),
                        is_dir: entry.is_dir,
                        is_symlink: entry.is_symlink,
                        len: entry.len,
                    },
                );
                i = i + 1;
            }
            LegacyFsResponse::Entries(out)
        },
        FsResponse::Success(_) => LegacyFsResponse::Success,
        FsResponse::Error(resp) => {
            let code = match resp.code {
                Some(c) => Some(c as i32),
                None => None,
            };
            LegacyFsResponse::Error { error: from_utf8_lossy(resp.error.as_slice()), code }
        },
    }
}

} // verus!
