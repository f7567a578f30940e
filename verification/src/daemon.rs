//! Messages of the privileged snapshot daemon, and what its client makes of
//! each reply. Text travels as UTF-8 bytes.

use vstd::prelude::*;
use vstd::string::StringExecFns;
use vstd::utf8::encode_utf8;

use crate::proto::messages::string_bytes;
use crate::text::{decimal, decimal_string, from_utf8_lossy, lower_hex_char, owned, trim, trimmed, utf8_lossy};
use vstd::string::StringSliceAdditionalSpecFns;

verus! {

/// Default path of the daemon's socket.
pub const DEFAULT_SOCKET_PATH: &'static str = "/tmp/agent-harbor/ah-fs-snapshots-daemon";

/// Request to the daemon.
#[derive(Debug, PartialEq)]
pub enum Request {
    /// Liveness check.
    Ping(Vec<u8>),
    /// ZFS snapshot of a dataset: (source, snapshot).
    SnapshotZfs((Vec<u8>, Vec<u8>)),
    /// ZFS clone of a snapshot: (snapshot, clone).
    CloneZfs((Vec<u8>, Vec<u8>)),
    /// Deletion of a ZFS dataset.
    DeleteZfs(Vec<u8>),
    /// Btrfs snapshot of a subvolume: (source, destination).
    SnapshotBtrfs((Vec<u8>, Vec<u8>)),
    /// Btrfs clone of a subvolume: (source, destination).
    CloneBtrfs((Vec<u8>, Vec<u8>)),
    /// Deletion of a Btrfs subvolume.
    DeleteBtrfs(Vec<u8>),
}

/// Reply of the daemon.
#[derive(Clone, Debug, PartialEq)]
pub enum Response {
    Success(Vec<u8>),
    SuccessWithMountpoint(Vec<u8>),
    SuccessWithPath(Vec<u8>),
    Error(Vec<u8>),
}

impl Request {
    pub fn ping() -> (r: Self)
        ensures
            r matches Request::Ping(b) && b@.len() == 0,
    {
        Request::Ping(Vec::new())
    }

    pub fn snapshot_zfs(source: String, snapshot: String) -> (r: Self)
        ensures
            r matches Request::SnapshotZfs((a, b)) && a@ == encode_utf8(source@) && b@ == encode_utf8(snapshot@),
    {
        Request::SnapshotZfs((string_bytes(source), string_bytes(snapshot)))
    }

    pub fn clone_zfs(snapshot: String, clone: String) -> (r: Self)
        ensures
            r matches Request::CloneZfs((a, b)) && a@ == encode_utf8(snapshot@) && b@ == encode_utf8(clone@),
    {
        Request::CloneZfs((string_bytes(snapshot), string_bytes(clone)))
    }

    pub fn delete_zfs(target: String) -> (r: Self)
        ensures
            r matches Request::DeleteZfs(a) && a@ == encode_utf8(target@),
    {
        Request::DeleteZfs(string_bytes(target))
    }

    pub fn snapshot_btrfs(source: String, destination: String) -> (r: Self)
        ensures
            r matches Request::SnapshotBtrfs((a, b)) && a@ == encode_utf8(source@) && b@ == encode_utf8(
                destination@,
            ),
    {
        Request::SnapshotBtrfs((string_bytes(source), string_bytes(destination)))
    }

    pub fn clone_btrfs(source: String, destination: String) -> (r: Self)
        ensures
            r matches Request::CloneBtrfs((a, b)) && a@ == encode_utf8(source@) && b@ == encode_utf8(destination@),
    {
        Request::CloneBtrfs((string_bytes(source), string_bytes(destination)))
    }

    pub fn delete_btrfs(target: String) -> (r: Self)
        ensures
            r matches Request::DeleteBtrfs(a) && a@ == encode_utf8(target@),
    {
        Request::DeleteBtrfs(string_bytes(target))
    }
}

impl Response {
    pub fn success() -> (r: Self)
        ensures
            r matches Response::Success(b) && b@.len() == 0,
    {
        Response::Success(Vec::new())
    }

    pub fn success_with_mountpoint(mountpoint: String) -> (r: Self)
        ensures
            r matches Response::SuccessWithMountpoint(b) && b@ == encode_utf8(mountpoint@),
    {
        Response::SuccessWithMountpoint(string_bytes(mountpoint))
    }

    pub fn success_with_path(path: String) -> (r: Self)
        ensures
            r matches Response::SuccessWithPath(b) && b@ == encode_utf8(path@),
    {
        Response::SuccessWithPath(string_bytes(path))
    }

    pub fn error(message: String) -> (r: Self)
        ensures
            r matches Response::Error(b) && b@ == encode_utf8(message@),
    {
        Response::Error(string_bytes(message))
    }
}

/// Errors of talking to the daemon.
#[derive(Clone, Debug, PartialEq)]
pub enum DaemonError {
    ConnectionError(String),
    CommunicationError(String),
    ProtocolError(String),
    DaemonError(String),
}

/// Human readable description of `e`.
pub open spec fn daemon_error_text(e: DaemonError) -> Seq<char> {
    match e {
        DaemonError::ConnectionError(m) => "Failed to connect to daemon: "@ + m@,
        DaemonError::CommunicationError(m) => "Communication error: "@ + m@,
        DaemonError::ProtocolError(m) => "Protocol error: "@ + m@,
        DaemonError::DaemonError(m) => "Daemon error: "@ + m@,
    }
}

impl DaemonError {
    /// Human readable description of the error.
    pub fn message(&self) -> (s: String)
        ensures
            s@ == daemon_error_text(*self),
    {
        match self {
            DaemonError::ConnectionError(m) => owned("Failed to connect to daemon: ").concat(m.as_str()),
            DaemonError::CommunicationError(m) => owned("Communication error: ").concat(m.as_str()),
            DaemonError::ProtocolError(m) => owned("Protocol error: ").concat(m.as_str()),
            DaemonError::DaemonError(m) => owned("Daemon error: ").concat(m.as_str()),
        }
    }
}

/// What an operation named `what` makes of reply `resp` when it expects
/// plain success: the daemon's error message (decoded from UTF-8, invalid
/// sequences replaced) or a protocol error for any other reply.
pub open spec fn unit_reply(resp: Response, what: Seq<char>, r: Result<(), DaemonError>) -> bool {
    match resp {
        Response::Success(_) => r is Ok,
        Response::Error(m) => r matches Err(DaemonError::DaemonError(s)) && s@ == utf8_lossy(m@),
        _ => r matches Err(DaemonError::ProtocolError(s)) && s@ == "Unexpected response to "@ + what,
    }
}

/// What a clone named `what` makes of reply `resp`: the place of the clone
/// when the reply names one (a mount point for ZFS, a path for Btrfs).
pub open spec fn place_reply(resp: Response, what: Seq<char>, zfs: bool, r: Result<Option<String>, DaemonError>) -> bool {
    match resp {
        Response::Success(_) => r == Ok::<Option<String>, DaemonError>(None),
        Response::SuccessWithMountpoint(p) => if zfs {
            r matches Ok(Some(s)) && s@ == utf8_lossy(p@)
        } else {
            r matches Err(DaemonError::ProtocolError(s)) && s@ == "Unexpected response to "@ + what
        },
        Response::SuccessWithPath(p) => if zfs {
            r matches Err(DaemonError::ProtocolError(s)) && s@ == "Unexpected response to "@ + what
        } else {
            r matches Ok(Some(s)) && s@ == utf8_lossy(p@)
        },
        Response::Error(m) => r matches Err(DaemonError::DaemonError(s)) && s@ == utf8_lossy(m@),
    }
}

fn unit_outcome(resp: Response, what: &str) -> (r: Result<(), DaemonError>)
    ensures
        unit_reply(resp, what@, r),
{
    match resp {
        Response::Success(_) => Ok(()),
        Response::Error(msg) => Err(DaemonError::DaemonError(from_utf8_lossy(msg.as_slice()))),
        _ => Err(DaemonError::ProtocolError(owned("Unexpected response to ").concat(what))),
    }
}

fn place_outcome(resp: Response, what: &str, zfs: bool) -> (r: Result<Option<String>, DaemonError>)
    ensures
        place_reply(resp, what@, zfs, r),
{
    match resp {
        Response::Success(_) => Ok(None),
        Response::SuccessWithMountpoint(p) => if zfs {
            Ok(Some(from_utf8_lossy(p.as_slice())))
        } else {
            Err(DaemonError::ProtocolError(owned("Unexpected response to ").concat(what)))
        },
        Response::SuccessWithPath(p) => if zfs {
            Err(DaemonError::ProtocolError(owned("Unexpected response to ").concat(what)))
        } else {
            Ok(Some(from_utf8_lossy(p.as_slice())))
        },
        Response::Error(msg) => Err(DaemonError::DaemonError(from_utf8_lossy(msg.as_slice()))),
    }
}

/// Lowercase hexadecimal text of `bytes`, two digits per byte.
pub open spec fn hex_text(bytes: Seq<u8>) -> Seq<char>
    decreases bytes.len(),
{
    if bytes.len() == 0 {
        Seq::empty()
    } else {
        hex_text(bytes.drop_last()) + seq![
            lower_hex_char((bytes.last() / 16) as nat),
            lower_hex_char((bytes.last() % 16) as nat),
        ]
    }
}

/// Lowercase hexadecimal of `data` (`hex::encode`): two digits per byte.
#[verifier::external_body]
pub(crate) fn hex_encode(data: &[u8]) -> (s: String)
    ensures
        s@ == hex_text(data@),
{
    hex::encode(data)
}

/// Why a text is not hexadecimal (the variants of `hex::FromHexError`).
#[derive(Clone, Copy, Debug, PartialEq, Eq, Structural)]
pub enum HexError {
    /// Byte `c` at `index` is no hexadecimal digit.
    InvalidHexCharacter { c: char, index: usize },
    /// The text has an odd number of bytes.
    OddLength,
    /// The text does not fit a fixed-size output.
    InvalidStringLength,
}

/// The value of hexadecimal digit `b` (either case), if it is one.
pub open spec fn hex_value(b: u8) -> Option<nat> {
    if 0x30 <= b <= 0x39 {
        Some((b - 0x30) as nat)
    } else if 0x61 <= b <= 0x66 {
        Some((b - 0x61 + 10) as nat)
    } else if 0x41 <= b <= 0x46 {
        Some((b - 0x41 + 10) as nat)
    } else {
        None
    }
}

/// Position of the first byte of `t` that is no hexadecimal digit.
pub open spec fn first_non_hex(t: Seq<u8>) -> int {
    choose|i: int| 0 <= i < t.len() && hex_value(t[i]) is None && forall|j: int| 0 <= j < i ==> hex_value(t[j]) is Some
}

/// What `hex::decode` makes of text `t`: an odd length is refused, then the
/// first byte that is no digit; otherwise each pair of digits is a byte,
/// high digit first.
pub open spec fn hex_decoded(t: Seq<u8>) -> Result<Seq<u8>, HexError> {
    if t.len() % 2 != 0 {
        Err(HexError::OddLength)
    } else if exists|i: int| 0 <= i < t.len() && hex_value(t[i]) is None {
        let i = first_non_hex(t);
        Err(HexError::InvalidHexCharacter { c: t[i] as char, index: i as usize })
    } else {
        Ok(Seq::new((t.len() / 2) as nat, |k: int| (hex_value(t[2 * k]).unwrap() * 16 + hex_value(t[2 * k + 1]).unwrap()) as u8))
    }
}

/// The bytes written in hexadecimal by `text` (`hex::decode`).
#[verifier::external_body]
pub(crate) fn hex_decode(text: &str) -> (r: Result<Vec<u8>, HexError>)
    ensures
        match (r, hex_decoded(text.spec_bytes())) {
            (Ok(v), Ok(b)) => v@ == b,
            (Err(e), Err(e2)) => e == e2,
            _ => false,
        },
{
    match hex::decode(text) {
        Ok(v) => Ok(v),
        Err(hex::FromHexError::InvalidHexCharacter { c, index }) => Err(HexError::InvalidHexCharacter { c, index }),
        Err(hex::FromHexError::OddLength) => Err(HexError::OddLength),
        Err(hex::FromHexError::InvalidStringLength) => Err(HexError::InvalidStringLength),
    }
}

/// How std's `Debug` writes character `c` (quoted, escaped where needed).
pub uninterp spec fn char_debug_text(c: char) -> Seq<char>;

/// `c` as std's `Debug` writes it.
#[verifier::external_body]
fn char_debug(c: char) -> (s: String)
    ensures
        s@ == char_debug_text(c),
{
    format!("{:?}", c)
}

/// How `hex::FromHexError` describes itself.
pub open spec fn hex_error_text(e: HexError) -> Seq<char> {
    match e {
        HexError::InvalidHexCharacter { c, index } => "Invalid character "@ + char_debug_text(c) + " at position "@
            + decimal(index as nat),
        HexError::OddLength => "Odd number of digits"@,
        HexError::InvalidStringLength => "Invalid string length"@,
    }
}

impl HexError {
    /// The error's description.
    pub fn message(&self) -> (s: String)
        ensures
            s@ == hex_error_text(*self),
    {
        match self {
            HexError::InvalidHexCharacter { c, index } => {
                let d = decimal_string(*index as u64);
                owned("Invalid character ").concat(char_debug(*c).as_str()).concat(" at position ").concat(d.as_str())
            },
            HexError::OddLength => owned("Odd number of digits"),
            HexError::InvalidStringLength => owned("Invalid string length"),
        }
    }
}

/// What the client makes of reply line `line`: the bytes its trimmed text
/// writes in hexadecimal, or a protocol error naming why it is not hex.
pub open spec fn reply_payload(line: Seq<char>, r: Result<Vec<u8>, DaemonError>) -> bool {
    match hex_decoded(encode_utf8(trimmed(line))) {
        Ok(b) => r matches Ok(v) && v@ == b,
        Err(e) => r matches Err(DaemonError::ProtocolError(m)) && m@ == "Failed to decode hex response: "@
            + hex_error_text(e),
    }
}

/// Client of the daemon at a socket path. Sending a request and reading the
/// reply is the caller's part; the client says what to send and what each
/// reply means.
#[derive(Clone, Debug)]
pub struct DaemonClient {
    socket_path: String,
}

impl DaemonClient {
    /// The path of the daemon's socket.
    pub closed spec fn path(self) -> Seq<char> {
        self.socket_path@
    }

    /// A client of the daemon at the default socket path.
    pub fn new() -> (c: Self)
        ensures
            c.path() == DEFAULT_SOCKET_PATH@,
    {
        DaemonClient { socket_path: owned(DEFAULT_SOCKET_PATH) }
    }

    /// A client of the daemon at `socket_path`.
    pub fn with_socket_path(socket_path: &str) -> (c: Self)
        ensures
            c.path() == socket_path@,
    {
        DaemonClient { socket_path: owned(socket_path) }
    }

    /// The path of the daemon's socket.
    pub fn socket_path(&self) -> (p: &str)
        ensures
            p@ == self.path(),
    {
        self.socket_path.as_str()
    }

    /// The line that carries a request encoded as `encoded`: its lowercase
    /// hexadecimal and a newline.
    pub fn request_line(encoded: &[u8]) -> (line: String)
        ensures
            line@ == hex_text(encoded@).push('\n'),
    {
        let mut line = hex_encode(encoded);
        crate::text::push_char(&mut line, '\n');
        line
    }

    /// The encoded reply carried by reply line `line`.
    pub fn reply_bytes(line: &str) -> (r: Result<Vec<u8>, DaemonError>)
        ensures
            reply_payload(line@, r),
    {
        let t = trim(line);
        match hex_decode(t.as_str()) {
            Ok(v) => Ok(v),
            Err(e) => Err(DaemonError::ProtocolError(owned("Failed to decode hex response: ").concat(e.message().as_str()))),
        }
    }

    /// What a ping makes of reply `resp`.
    pub fn ping_reply(resp: Response) -> (r: Result<(), DaemonError>)
        ensures
            unit_reply(resp, "ping"@, r),
    {
        unit_outcome(resp, "ping")
    }

    /// What a ZFS snapshot makes of reply `resp`.
    pub fn snapshot_zfs_reply(resp: Response) -> (r: Result<(), DaemonError>)
        ensures
            unit_reply(resp, "ZFS snapshot"@, r),
    {
        unit_outcome(resp, "ZFS snapshot")
    }

    /// What a ZFS clone makes of reply `resp`: its mount point, if named.
    pub fn clone_zfs_reply(resp: Response) -> (r: Result<Option<String>, DaemonError>)
        ensures
            place_reply(resp, "ZFS clone"@, true, r),
    {
        place_outcome(resp, "ZFS clone", true)
    }

    /// What a ZFS deletion makes of reply `resp`.
    pub fn delete_zfs_reply(resp: Response) -> (r: Result<(), DaemonError>)
        ensures
            unit_reply(resp, "ZFS delete"@, r),
    {
        unit_outcome(resp, "ZFS delete")
    }

    /// What a Btrfs snapshot makes of reply `resp`.
    pub fn snapshot_btrfs_reply(resp: Response) -> (r: Result<(), DaemonError>)
        ensures
            unit_reply(resp, "Btrfs snapshot"@, r),
    {
        unit_outcome(resp, "Btrfs snapshot")
    }

    /// What a Btrfs clone makes of reply `resp`: its path, if named.
    pub fn clone_btrfs_reply(resp: Response) -> (r: Result<Option<String>, DaemonError>)
        ensures
            place_reply(resp, "Btrfs clone"@, false, r),
    {
        place_outcome(resp, "Btrfs clone", false)
    }

    /// What a Btrfs deletion makes of reply `resp`.
    pub fn delete_btrfs_reply(resp: Response) -> (r: Result<(), DaemonError>)
        ensures
            unit_reply(resp, "Btrfs delete"@, r),
    {
        unit_outcome(resp, "Btrfs delete")
    }
}

impl Default for DaemonClient {
    /// A client of the daemon at the default socket path.
    fn default() -> (c: Self)
        ensures
            c.path() == DEFAULT_SOCKET_PATH@,
    {
        Self::new()
    }
}

} // verus!
