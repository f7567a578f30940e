//! Options of the `agent fs` commands and the report the `status` command
//! prints: the detection results for a path as text lines or as the record
//! its JSON form holds.

use vstd::prelude::*;
use vstd::string::StringExecFns;

use crate::text::{decimal, decimal_string, owned};

verus! {

/// Options of `agent fs status`.
#[derive(Clone, Debug)]
pub struct StatusOptions {
    /// Path to analyze (default: the current directory).
    pub path: Option<String>,
    /// Machine-readable JSON output.
    pub json: bool,
    /// Detailed capability information.
    pub verbose: bool,
    /// Detection only, without provider selection.
    pub detect_only: bool,
}

/// Options of `agent fs init-session`.
#[derive(Clone, Debug)]
pub struct InitSessionOptions {
    /// Name of the initial snapshot.
    pub name: Option<String>,
    /// Repository path (default: the current directory).
    pub repo: Option<String>,
    /// Workspace name.
    pub workspace: Option<String>,
}

/// Options of `agent fs snapshots`.
#[derive(Clone, Debug)]
pub struct SnapshotsOptions {
    /// Session (a branch name, or repository and branch).
    pub session_id: String,
}

/// `agent fs branch` commands.
#[derive(Clone, Debug)]
pub enum BranchCommands {
    /// A new branch from a snapshot.
    Create { snapshot_id: String, name: Option<String> },
    /// Binds the current process to a branch.
    Bind { branch_id: String },
    /// Runs a command in a branch.
    Exec { branch_id: String, command: Vec<String> },
}

/// `agent fs` commands.
#[derive(Clone, Debug)]
pub enum AgentFsCommands {
    Status(StatusOptions),
    InitSession(InitSessionOptions),
    Snapshots(SnapshotsOptions),
    Branch { subcommand: BranchCommands },
}

/// What detection found out about a path: the provider chosen (by name),
/// its score, whether it offers copy-on-write overlays, and notes.
#[derive(Clone, Debug)]
pub struct FsCapabilities {
    pub provider: String,
    pub score: u8,
    pub supports_cow_overlay: bool,
    pub notes: Vec<String>,
}

/// Capabilities in the JSON form of the status report.
#[derive(Clone, Debug)]
pub struct FsCapabilitiesJson {
    pub score: u8,
    pub supports_cow_overlay: bool,
}

/// The JSON form of the status report.
#[derive(Clone, Debug)]
pub struct FsStatusJson {
    pub path: String,
    pub filesystem_type: String,
    pub mount_point: Option<String>,
    pub provider: String,
    pub capabilities: FsCapabilitiesJson,
    pub detection_notes: Vec<String>,
}

/// The texts of `v`.
pub open spec fn texts(v: Seq<String>) -> Seq<Seq<char>> {
    v.map_values(|s: String| s@)
}

/// The lines the status command prints for `path` (plain form): a heading,
/// the filesystem type (not detected: `unknown`), the provider, its score
/// and whether it offers copy-on-write overlays; the detection notes follow
/// when there are any and either only detection was asked for or verbose
/// output was.
pub open spec fn status_text(detect_only: bool, verbose: bool, path: Seq<char>, caps: FsCapabilities) -> Seq<
    Seq<char>,
> {
    let base = seq![
        (if detect_only { "Filesystem detection for: "@ } else { "Filesystem status for: "@ }) + path,
        "Filesystem type: "@ + "unknown"@,
        (if detect_only { "Provider: "@ } else { "Selected provider: "@ }) + caps.provider@,
        "Capability score: "@ + decimal(caps.score as nat),
        if caps.supports_cow_overlay { "Supports CoW overlay: yes"@ } else { "Supports CoW overlay: no"@ },
    ];
    if (detect_only || verbose) && caps.notes@.len() > 0 {
        base + seq!["Detection notes:"@] + texts(caps.notes@).map_values(|n: Seq<char>| "  - "@ + n)
    } else {
        base
    }
}

impl AgentFsCommands {
    /// The filesystem type of `path`; not detected yet, so `unknown`.
    pub fn detect_filesystem_type(path: &str) -> (t: String)
        ensures
            t@ == "unknown"@,
    {
        owned("unknown")
    }

    /// The mount point of `path`; not detected yet, so none.
    pub fn detect_mount_point(path: &str) -> (m: Option<String>)
        ensures
            m is None,
    {
        None
    }

    /// The JSON form of the status report for `path` with capabilities `caps`.
    pub fn status_json(path: &str, caps: FsCapabilities) -> (j: FsStatusJson)
        ensures
            j.path@ == path@,
            j.filesystem_type@ == "unknown"@,
            j.mount_point is None,
            j.provider == caps.provider,
            j.capabilities.score == caps.score,
            j.capabilities.supports_cow_overlay == caps.supports_cow_overlay,
            j.detection_notes == caps.notes,
    {
        FsStatusJson {
            path: owned(path),
            filesystem_type: Self::detect_filesystem_type(path),
            mount_point: Self::detect_mount_point(path),
            provider: caps.provider,
            capabilities: FsCapabilitiesJson { score: caps.score, supports_cow_overlay: caps.supports_cow_overlay },
            detection_notes: caps.notes,
        }
    }

    /// The lines of the plain status report (see [`status_text`]).
    pub fn status_lines(opts: &StatusOptions, path: &str, caps: &FsCapabilities) -> (lines: Vec<String>)
        ensures
            texts(lines@) == status_text(opts.detect_only, opts.verbose, path@, *caps),
    {
        let mut lines: Vec<String> = Vec::new();
        let heading = if opts.detect_only {
            owned("Filesystem detection for: ")
        } else {
            owned("Filesystem status for: ")
        };
        lines.push(heading.concat(path));
        lines.push(owned("Filesystem type: ").concat(Self::detect_filesystem_type(path).as_str()));
        let provider = if opts.detect_only {
            owned("Provider: ")
        } else {
            owned("Selected provider: ")
        };
        lines.push(provider.concat(caps.provider.as_str()));
        lines.push(owned("Capability score: ").concat(decimal_string(caps.score as u64).as_str()));
        if caps.supports_cow_overlay {
            lines.push(owned("Supports CoW overlay: yes"));
        } else {
            lines.push(owned("Supports CoW overlay: no"));
        }
        let ghost base = texts(lines@);
        assert(base =~= seq![
            (if opts.detect_only { "Filesystem detection for: "@ } else { "Filesystem status for: "@ }) + path@,
            "Filesystem type: "@ + "unknown"@,
            (if opts.detect_only { "Provider: "@ } else { "Selected provider: "@ }) + caps.provider@,
            "Capability score: "@ + decimal(caps.score as nat),
            if caps.supports_cow_overlay { "Supports CoW overlay: yes"@ } else { "Supports CoW overlay: no"@ },
        ]);
        if (opts.detect_only || opts.verbose) && caps.notes.len() > 0 {
            lines.push(owned("Detection notes:"));
            let mut i: usize = 0;
            while i < caps.notes.len()
                invariant
                    i <= caps.notes@.len(),
                    texts(lines@) == base + seq!["Detection notes:"@] + texts(caps.notes@).subrange(
                        0,
                        i as int,
                    ).map_values(|n: Seq<char>| "  - "@ + n),
                decreases caps.notes@.len() - i,
            {
                let ghost f = |n: Seq<char>| "  - "@ + n;
                let ghost before = texts(lines@);
                let line = owned("  - ").concat(caps.notes[i].as_str());
                lines.push(line);
                assert(texts(lines@) =~= before.push(f(caps.notes@[i as int]@)));
                assert(texts(caps.notes@).subrange(0, i + 1).map_values(f) =~= texts(caps.notes@).subrange(
                    0,
                    i as int,
                ).map_values(f).push(f(caps.notes@[i as int]@)));
                i = i + 1;
            }
            assert(texts(caps.notes@).subrange(0, i as int) =~= texts(caps.notes@));
        }
        lines
    }
}

} // verus!
