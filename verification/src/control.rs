//! Answering control-plane requests against a filesystem core, as the
//! filesystem adapters' control files and services do: a request is
//! validated, then snapshots are taken or listed, branches created or
//! processes bound, and the outcome answered. Snapshot and branch ids travel
//! as the 32 lowercase hexadecimal digits of their bytes.

use vstd::prelude::*;
use vstd::utf8::encode_utf8;

use crate::daemon::{hex_decode, hex_decoded, hex_encode, hex_text};
use crate::error::FsError;
use crate::proto::messages::{
    opt_bytes, string_bytes, version_one, BranchBindRequest, BranchBindResponse, BranchInfo, Request, Response, SnapshotInfo,
};
use crate::proto::validation::{bad_version_message, request_version, validate_request};
use crate::text::{from_utf8_lossy, owned, utf8_lossy};
use crate::types::{BranchId, SnapshotId, PID};
use crate::vfs::branches::opt_str_view;
use crate::vfs::{opt_view, FsCore};

verus! {

/// The error number answered for a core error.
pub open spec fn fs_error_code(e: FsError) -> u32 {
    match e {
        FsError::NotFound => 2,
        FsError::AlreadyExists => 17,
        FsError::AccessDenied => 13,
        FsError::InvalidArgument => 22,
        FsError::Busy => 16,
        FsError::NoSpace => 28,
        FsError::Unsupported => 95,
        _ => 5,
    }
}

/// The error number answered for core error `e`: ENOENT, EEXIST, EACCES,
/// EINVAL, EBUSY, ENOSPC or ENOTSUP as Linux numbers them, EIO otherwise.
pub fn map_error_code(e: FsError) -> (c: u32)
    ensures
        c == fs_error_code(e),
{
    match e {
        FsError::NotFound => 2,
        FsError::AlreadyExists => 17,
        FsError::AccessDenied => 13,
        FsError::InvalidArgument => 22,
        FsError::Busy => 16,
        FsError::NoSpace => 28,
        FsError::Unsupported => 95,
        _ => 5,
    }
}

/// The name of error `e` as its `Debug` form writes it.
pub open spec fn fs_error_name(e: FsError) -> Seq<char> {
    match e {
        FsError::NotFound => "NotFound"@,
        FsError::AlreadyExists => "AlreadyExists"@,
        FsError::AccessDenied => "AccessDenied"@,
        FsError::PermissionDenied => "PermissionDenied"@,
        FsError::InvalidArgument => "InvalidArgument"@,
        FsError::InvalidName => "InvalidName"@,
        FsError::NotADirectory => "NotADirectory"@,
        FsError::IsADirectory => "IsADirectory"@,
        FsError::Busy => "Busy"@,
        FsError::NotEmpty => "NotEmpty"@,
        FsError::NoSpace => "NoSpace"@,
        FsError::TooManyOpenFiles => "TooManyOpenFiles"@,
        FsError::Unsupported => "Unsupported"@,
    }
}

/// The name of error `e`.
pub fn error_name(e: FsError) -> (s: String)
    ensures
        s@ == fs_error_name(e),
{
    match e {
        FsError::NotFound => owned("NotFound"),
        FsError::AlreadyExists => owned("AlreadyExists"),
        FsError::AccessDenied => owned("AccessDenied"),
        FsError::PermissionDenied => owned("PermissionDenied"),
        FsError::InvalidArgument => owned("InvalidArgument"),
        FsError::InvalidName => owned("InvalidName"),
        FsError::NotADirectory => owned("NotADirectory"),
        FsError::IsADirectory => owned("IsADirectory"),
        FsError::Busy => owned("Busy"),
        FsError::NotEmpty => owned("NotEmpty"),
        FsError::NoSpace => owned("NoSpace"),
        FsError::TooManyOpenFiles => owned("TooManyOpenFiles"),
        FsError::Unsupported => owned("Unsupported"),
    }
}

/// Response `resp` answers core error `e`: its name and its number.
pub open spec fn error_reply(resp: Response, e: FsError) -> bool {
    resp matches Response::Error(x) && x.error@ == encode_utf8(fs_error_name(e)) && x.code == Some(fs_error_code(e))
}

/// The text bytes naming id bytes `b`.
pub open spec fn id_text(b: Seq<u8>) -> Seq<u8> {
    encode_utf8(hex_text(b))
}

/// The id bytes request bytes `t` name: their text (decoded leniently) is
/// 32 hexadecimal digits of either case.
pub open spec fn parsed_id(t: Seq<u8>) -> Option<Seq<u8>> {
    match hex_decoded(encode_utf8(utf8_lossy(t))) {
        Ok(b) => if b.len() == 16 {
            Some(b)
        } else {
            None
        },
        Err(_) => None,
    }
}

/// Optional request bytes decoded leniently as text.
pub open spec fn opt_lossy(o: Option<Vec<u8>>) -> Option<Seq<char>> {
    match o {
        Some(v) => Some(utf8_lossy(v@)),
        None => None,
    }
}

/// UTF-8 encoding of optional text.
pub open spec fn opt_text_bytes(o: Option<Seq<char>>) -> Option<Seq<u8>> {
    match o {
        Some(s) => Some(encode_utf8(s)),
        None => None,
    }
}

/// `i` describes snapshot `id` named `name`.
pub open spec fn describes_snapshot(i: SnapshotInfo, id: SnapshotId, name: Option<Seq<char>>) -> bool {
    i.id@ == id_text(id.0@) && opt_bytes(i.name) == opt_text_bytes(name)
}

/// How request `req` from process `pid` is answered (`r`) and what it does
/// to the core (`old` before, `new` after). A request of another version
/// than 1 is answered with the validation error and EINVAL; an id that does
/// not parse is refused with a message and changes nothing; otherwise the
/// core operation runs, and its outcome, or its error's name and number, is
/// the answer. A bind without a pid binds `pid`.
pub open spec fn control_answered(old: FsCore, pid: u32, req: Request, new: FsCore, r: Result<Response, String>) -> bool {
    if request_version(req) != version_one() {
        &&& new == old
        &&& r matches Ok(Response::Error(x))
        &&& x.error@ == encode_utf8("schema validation failed: "@ + bad_version_message())
        &&& x.code == Some(22u32)
    } else {
        match req {
            Request::SnapshotCreate((_, q)) => exists|x: Result<SnapshotId, FsError>, n: Option<&str>|
                opt_str_view(n) == opt_lossy(q.name) && #[trigger] new.snapshot_taken(old, pid, n, x) && match x {
                    Ok(id) => r matches Ok(Response::SnapshotCreate(c)) && describes_snapshot(
                        c.snapshot,
                        id,
                        opt_lossy(q.name),
                    ),
                    Err(e) => r matches Ok(resp) && error_reply(resp, e),
                },
            Request::SnapshotList(_) => {
                &&& new == old
                &&& r matches Ok(Response::SnapshotList(l))
                &&& l.snapshots@.len() == old.snapshots@.len()
                &&& forall|i: int|
                    0 <= i < old.snapshots@.len() ==> describes_snapshot(
                        #[trigger] l.snapshots@[i],
                        old.snapshots@[i].id,
                        opt_view(old.snapshots@[i].name),
                    )
            },
            Request::BranchCreate((_, q)) => match parsed_id(q.from@) {
                None => new == old && (r matches Err(m) && m@ == "Invalid snapshot ID"@),
                Some(sid) => exists|x: Result<BranchId, FsError>, n: Option<&str>, s: SnapshotId|
                    s.0@ == sid && opt_str_view(n) == opt_lossy(q.name) && #[trigger] new.branched(old, s, n, x)
                        && match x {
                        Ok(id) => r matches Ok(Response::BranchCreate(c)) && c.branch.id@ == id_text(id.0@)
                            && opt_bytes(c.branch.name) == opt_text_bytes(opt_lossy(q.name)) && c.branch.parent@
                            == id_text(sid),
                        Err(e) => r matches Ok(resp) && error_reply(resp, e),
                    },
            },
            Request::BranchBind((_, q)) => bind_answered(old, pid, q, new, r),
        }
    }
}

/// The process a bind request `q` from process `pid` binds: the one it
/// names, else `pid`.
pub open spec fn bind_pid(q: BranchBindRequest, pid: u32) -> u32 {
    match q.pid {
        Some(p) => p,
        None => pid,
    }
}

/// How a bind request `q` from process `pid` is answered (see
/// [`control_answered`]).
pub open spec fn bind_answered(old: FsCore, pid: u32, q: BranchBindRequest, new: FsCore, r: Result<Response, String>) -> bool {
    let p = bind_pid(q, pid);
    match parsed_id(q.branch@) {
        None => new == old && (r matches Err(m) && m@ == "Invalid branch ID"@),
        Some(b) => exists|x: Result<(), FsError>, id: BranchId|
            id.0@ == b && #[trigger] new.bound(old, id, p, x) && new.delivered == old.delivered && match x {
                Ok(_) => r == Ok::<Response, String>(Response::BranchBind(BranchBindResponse { branch: q.branch, pid: p })),
                Err(e) => r matches Ok(resp) && error_reply(resp, e),
            },
    }
}

/// The text bytes naming id `a`.
pub fn id_text_of(a: &[u8; 16]) -> (t: Vec<u8>)
    ensures
        t@ == id_text(a@),
{
    let mut v: Vec<u8> = Vec::new();
    let mut i: usize = 0;
    while i < 16
        invariant
            i <= 16,
            v@ == a@.subrange(0, i as int),
        decreases 16 - i,
    {
        v.push(a[i]);
        assert(a@.subrange(0, i + 1) =~= a@.subrange(0, i as int).push(a@[i as int]));
        i = i + 1;
    }
    assert(a@.subrange(0, 16) =~= a@);
    string_bytes(hex_encode(v.as_slice()))
}

/// The id bytes request bytes `t` name, if they do.
pub fn parse_id(t: &Vec<u8>) -> (r: Option<[u8; 16]>)
    ensures
        match parsed_id(t@) {
            Some(b) => r matches Some(a) && a@ == b,
            None => r is None,
        },
{
    let text = from_utf8_lossy(t.as_slice());
    match hex_decode(text.as_str()) {
        Ok(v) => {
            if v.len() != 16 {
                return None;
            }
            let a = [v[0], v[1], v[2], v[3], v[4], v[5], v[6], v[7], v[8], v[9], v[10], v[11], v[12], v[13], v[14], v[15]];
            assert(a@ =~= v@);
            Some(a)
        },
        Err(_) => None,
    }
}

fn lossy_name(o: &Option<Vec<u8>>) -> (r: Option<String>)
    ensures
        opt_view(r) == opt_lossy(*o),
{
    match o {
        Some(v) => Some(from_utf8_lossy(v.as_slice())),
        None => None,
    }
}

fn name_ref(o: &Option<String>) -> (r: Option<&str>)
    ensures
        opt_str_view(r) == opt_view(*o),
{
    match o {
        Some(s) => Some(s.as_str()),
        None => None,
    }
}

fn name_bytes(o: Option<String>) -> (r: Option<Vec<u8>>)
    ensures
        opt_bytes(r) == opt_text_bytes(opt_view(o)),
{
    match o {
        Some(s) => Some(string_bytes(s)),
        None => None,
    }
}

fn error_response(e: FsError) -> (r: Response)
    ensures
        error_reply(r, e),
{
    Response::error(error_name(e), Some(map_error_code(e)))
}

/// Answers control request `req` from process `pid` against `core` (see
/// [`control_answered`]).
pub fn handle_control_request(core: &mut FsCore, pid: u32, req: Request) -> (r: Result<Response, String>)
    requires
        old(core).wf(),
    ensures
        final(core).wf(),
        control_answered(*old(core), pid, req, *final(core), r),
{
    match validate_request(&req) {
        Ok(()) => {},
        Err(e) => {
            let resp = Response::error(e.message(), Some(22));
            return Ok(resp);
        },
    }
    match req {
        Request::SnapshotCreate((_, q)) => {
            let name = lossy_name(&q.name);
            let n = name_ref(&name);
            let x = core.snapshot_create(&PID::new(pid), n);
            assert(core.snapshot_taken(*old(core), pid, n, x));
            match x {
                Ok(id) => {
                    let info = SnapshotInfo { id: id_text_of(&id.0), name: name_bytes(name) };
                    let resp = Response::snapshot_create(info);
                    Ok(resp)
                },
                Err(e) => {
                    let resp = error_response(e);
                    Ok(resp)
                },
            }
        },
        Request::SnapshotList(_) => {
            let mut infos: Vec<SnapshotInfo> = Vec::new();
            let mut i: usize = 0;
            while i < core.snapshots.len()
                invariant
                    i <= core.snapshots@.len(),
                    infos@.len() == i,
                    forall|k: int|
                        0 <= k < i ==> describes_snapshot(
                            #[trigger] infos@[k],
                            core.snapshots@[k].id,
                            opt_view(core.snapshots@[k].name),
                        ),
                decreases core.snapshots@.len() - i,
            {
                let id = core.snapshots[i].id;
                let nm = match &core.snapshots[i].name {
                    Some(s) => Some(s.clone()),
                    None => None,
                };
                infos.push(SnapshotInfo { id: id_text_of(&id.0), name: name_bytes(nm) });
                i = i + 1;
            }
            let resp = Response::snapshot_list(infos);
            Ok(resp)
        },
        Request::BranchCreate((_, q)) => {
            let sid = match parse_id(&q.from) {
                Some(a) => a,
                None => {
                    let m = owned("Invalid snapshot ID");
                    return Err(m);
                },
            };
            let name = lossy_name(&q.name);
            let n = name_ref(&name);
            let s = SnapshotId::new(sid);
            let x = core.branch_create_from_snapshot(s, n);
            assert(core.branched(*old(core), s, n, x));
            match x {
                Ok(id) => {
                    let info = BranchInfo { id: id_text_of(&id.0), name: name_bytes(name), parent: id_text_of(&sid) };
                    let resp = Response::branch_create(info);
                    Ok(resp)
                },
                Err(e) => {
                    let resp = error_response(e);
                    Ok(resp)
                },
            }
        },
        Request::BranchBind((_, q)) => {
            let p = match q.pid {
                Some(p) => p,
                None => pid,
            };
            let b = match parse_id(&q.branch) {
                Some(a) => a,
                None => {
                    let m = owned("Invalid branch ID");
                    return Err(m);
                },
            };
            let id = BranchId::new(b);
            let x = core.bind_process_to_branch_with_pid(id, p);
            assert(core.bound(*old(core), id, bind_pid(q, pid), x));
            match x {
                Ok(()) => {
                    let ghost q0 = q;
                    let resp = Response::branch_bind(q.branch, p);
                    assert(bind_answered(*old(core), pid, q0, *core, Ok(resp)));
                    Ok(resp)
                },
                Err(e) => {
                    let resp = error_response(e);
                    assert(bind_answered(*old(core), pid, q, *core, Ok(resp)));
                    Ok(resp)
                },
            }
        },
    }
}

} // verus!
