# agentfs_core

AgentFS is an in-memory filesystem for agent workspaces: copy-on-write
snapshots and branches, per-process binding to a branch, POSIX permission
checks, byte-range locks, extended attributes and alternate data streams.
Around it sit the control-plane messages, a request server, a C interface
registry, snapshot providers for Git and Btrfs, a client of the privileged
snapshot daemon, and the task and session records of the command line.

The library is written in Verus. Its functions carry contracts, except the
few whose result comes only from the clock or the environment (their
callers' contracts say what holds of every outcome). Operations that depend
on the time also come in `*_at` forms that take it as an argument. Which
events each subscriber receives is recorded in a ghost delivery log that the
contracts speak of. The properties that span operations (a read returns what
a write wrote, a copy is unaffected by writes to its source, a closed handle
is gone, an unsubscribed sink receives nothing, and so on) are stated and
proved as `law_*` proof functions.

## Layout

- `src/` — the verified library.
  - `vfs/` — the filesystem core (`FsCore`): nodes, path resolution,
    entries, I/O, locks, branches and snapshots, and the laws in `vfs/laws.rs`.
  - `storage.rs` — the content store with copy-on-write clones.
  - `proto/` — control and filesystem messages, their validation, and the
    length-prefixed framing of the socket protocols.
  - `server.rs`, `legacy.rs` — the request server and the older JSON protocol.
  - `control.rs` — answering control requests (snapshots, branches,
    binding) against a core.
  - `ffi.rs` — the instance registry behind the C interface.
  - `fskit.rs` — the FSKit adapter, extension and volume.
  - `interpose.rs` — the decisions of the preloaded client library.
  - `snapshots.rs`, `daemon.rs` — snapshot providers and the daemon client.
  - `snapshot_commit.rs` — the steps of a Git snapshot commit: which `git`
    command runs next and what its outcome decides.
  - `agent_tasks.rs` — agent task files: where a task file lives, its
    commit messages and follow-up sections, and the remote it pushes to.
  - `tasks.rs`, `sessions.rs`, `records.rs`, `cli_*.rs` — task and session
    management and the command line's decisions.
  - `text.rs`, `path.rs`, `seqs.rs` — text, path and sequence helpers.
- `tests/` — tests run against the compiled library.
- `app/` — the operating-system side: sockets, processes, files, the C
  entry points, SSZ and JSON encodings, and the external commands of the
  snapshot providers.

Not here: the FUSE and WinFsp hosts (impls of outside crates' traits), the
local database stores, and the file and repository work around agent tasks
and the task-create command: that work goes through the repository crate of
the surrounding workspace, which is not part of this project. The decisions
of that command and of agent task files are in `cli_task.rs` and
`agent_tasks.rs`.
