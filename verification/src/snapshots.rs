//! Filesystem snapshot providers and their decisions: where the Git
//! provider's shadow repositories and worktrees live, what each provider
//! reports of a path, the workspaces and snapshots they hand out, and what a
//! cleanup token asks to remove. Running `git` and `btrfs` is the caller's
//! part.

use vstd::prelude::*;
use vstd::string::StringExecFns;

use crate::path::{path_segments, split_path};
use crate::text::{
    str_eq, lemma_split_on_extend, lemma_split_on_sep, lower_hex, lower_hex_string, owned, split_fields, split_on, str_starts_with,
    strings,
};

verus! {

/// Kinds of snapshot providers.
#[derive(Clone, Copy, Debug, PartialEq, Eq, Structural)]
pub enum SnapshotProviderKind {
    Zfs,
    Btrfs,
    Git,
}

/// How a workspace relates to the repository it is made from.
#[derive(Clone, Copy, Debug, PartialEq, Eq, Structural)]
pub enum WorkingCopyMode {
    /// The repository itself.
    InPlace,
    /// A separate worktree.
    Worktree,
    /// A copy-on-write overlay.
    CowOverlay,
    /// Whatever the provider does best.
    Auto,
}

/// A workspace ready for work, with the token that removes it again.
#[derive(Clone, Debug)]
pub struct PreparedWorkspace {
    pub exec_path: String,
    pub working_copy: WorkingCopyMode,
    pub provider: SnapshotProviderKind,
    pub cleanup_token: String,
}

/// What a provider offers for a path, and how well it suits it.
#[derive(Clone, Debug)]
pub struct ProviderCapabilities {
    pub kind: SnapshotProviderKind,
    pub score: u8,
    pub supports_cow_overlay: bool,
    pub notes: Vec<String>,
}

/// Errors of snapshot providers.
#[derive(Debug)]
pub enum SnapshotError {
    Io(std::io::Error),
    UnsupportedFilesystem { path: String },
    DestinationExists { path: String },
    SnapshotCreationFailed { message: String },
    SnapshotCleanupFailed { message: String },
    Provider { message: String },
}

impl SnapshotError {
    /// A snapshot creation error.
    pub fn snapshot_creation(message: String) -> (e: Self)
        ensures
            e == (SnapshotError::SnapshotCreationFailed { message }),
    {
        SnapshotError::SnapshotCreationFailed { message }
    }

    /// A snapshot cleanup error.
    pub fn snapshot_cleanup(message: String) -> (e: Self)
        ensures
            e == (SnapshotError::SnapshotCleanupFailed { message }),
    {
        SnapshotError::SnapshotCleanupFailed { message }
    }

    /// A provider error.
    pub fn provider(message: String) -> (e: Self)
        ensures
            e == (SnapshotError::Provider { message }),
    {
        SnapshotError::Provider { message }
    }
}

/// `name` appended to path `base` as `PathBuf::push` does on Unix: an
/// absolute `name` replaces `base`; otherwise a `/` separates them unless
/// `base` is empty or ends in one.
pub open spec fn path_join(base: Seq<char>, name: Seq<char>) -> Seq<char> {
    if name.len() > 0 && name[0] == '/' {
        name
    } else if base.len() == 0 || base.last() == '/' {
        base + name
    } else {
        base + seq!['/'] + name
    }
}

/// `name` appended to path `base` (see [`path_join`]).
pub fn join_path(base: &str, name: &str) -> (r: String)
    ensures
        r@ == path_join(base@, name@),
{
    if name.unicode_len() > 0 && name.get_char(0) == '/' {
        return owned(name);
    }
    let n = base.unicode_len();
    if n == 0 || base.get_char(n - 1) == '/' {
        owned(base).concat(name)
    } else {
        proof {
            reveal_strlit("/");
        }
        assert("/"@ =~= seq!['/']);
        owned(base).concat("/").concat(name)
    }
}

/// Message for a cleanup token the Git provider did not hand out.
pub open spec fn invalid_token_message(token: Seq<char>) -> Seq<char> {
    "Invalid Git cleanup token: "@ + token
}

/// Message of a snapshot commit, with its label if any.
pub open spec fn commit_message_text(label: Option<Seq<char>>) -> Seq<char> {
    match label {
        Some(l) => "AH Snapshot: "@ + l,
        None => "AH Snapshot"@,
    }
}

/// The Git provider's directories and whether snapshots include untracked files.
#[derive(Clone, Debug)]
pub struct GitProvider {
    /// Where shadow repositories live.
    pub shadow_repo_dir: String,
    /// Where worktrees live.
    pub worktree_dir: String,
    /// Whether snapshots include untracked files.
    pub include_untracked: bool,
}

/// The user's cache directory (dirs `cache_dir`, as text). It depends on the
/// environment, so nothing is stated of it.
#[verifier::external_body]
fn user_cache_dir() -> Option<String> {
    dirs::cache_dir().map(|p| p.to_string_lossy().into_owned())
}

impl GitProvider {
    /// A provider keeping shadow repositories in `ah/git-shadows` and
    /// worktrees in `ah/git-worktrees` under the cache directory `cache`
    /// (`/tmp` without one), leaving untracked files out.
    pub fn with_cache_dir(cache: Option<String>) -> (p: Self)
        ensures
            ({
                let c = match cache {
                    Some(c) => c@,
                    None => "/tmp"@,
                };
                &&& p.shadow_repo_dir@ == path_join(path_join(c, "ah"@), "git-shadows"@)
                &&& p.worktree_dir@ == path_join(path_join(c, "ah"@), "git-worktrees"@)
                &&& !p.include_untracked
            }),
    {
        let base = match cache {
            Some(c) => c,
            None => owned("/tmp"),
        };
        let ah = join_path(base.as_str(), "ah");
        GitProvider {
            shadow_repo_dir: join_path(ah.as_str(), "git-shadows"),
            worktree_dir: join_path(ah.as_str(), "git-worktrees"),
            include_untracked: false,
        }
    }

    /// Its shadow repositories and worktrees live in `ah/git-shadows` and
    /// `ah/git-worktrees` under directory `base`.
    pub open spec fn dirs_under(self, base: Seq<char>) -> bool {
        &&& self.shadow_repo_dir@ == path_join(path_join(base, "ah"@), "git-shadows"@)
        &&& self.worktree_dir@ == path_join(path_join(base, "ah"@), "git-worktrees"@)
    }

    /// A provider with the default directories under the user's cache
    /// directory, or under `/tmp` without one (see
    /// [`with_cache_dir`](Self::with_cache_dir)); which directory that is
    /// depends on the environment.
    pub fn new() -> (p: Self)
        ensures
            exists|base: Seq<char>| #[trigger] p.dirs_under(base),
            !p.include_untracked,
    {
        let cache = user_cache_dir();
        let ghost base = match &cache {
            Some(c) => c@,
            None => "/tmp"@,
        };
        let p = Self::with_cache_dir(cache);
        assert(p.dirs_under(base));
        p
    }

    /// A provider with the given directories.
    pub fn with_config(shadow_repo_dir: String, worktree_dir: String, include_untracked: bool) -> (p: Self)
        ensures
            p.shadow_repo_dir == shadow_repo_dir,
            p.worktree_dir == worktree_dir,
            p.include_untracked == include_untracked,
    {
        GitProvider { shadow_repo_dir, worktree_dir, include_untracked }
    }

    /// The provider's kind.
    pub fn kind(&self) -> (k: SnapshotProviderKind)
        ensures
            k == SnapshotProviderKind::Git,
    {
        SnapshotProviderKind::Git
    }

    /// The shadow repository of a repository whose canonical path hashes to
    /// `path_hash`: named by the hash in lowercase hexadecimal.
    pub fn shadow_repo_path_for(&self, path_hash: u64) -> (p: String)
        ensures
            p@ == path_join(self.shadow_repo_dir@, lower_hex(path_hash as nat)),
    {
        join_path(self.shadow_repo_dir.as_str(), lower_hex_string(path_hash).as_str())
    }

    /// The worktree of session `session_id` and branch `branch_id`.
    pub fn worktree_path(&self, session_id: &str, branch_id: &str) -> (p: String)
        ensures
            p@ == path_join(self.worktree_dir@, session_id@ + "_"@ + branch_id@),
    {
        let name = owned(session_id).concat("_").concat(branch_id);
        join_path(self.worktree_dir.as_str(), name.as_str())
    }

    /// What the provider reports of a path: nothing usable without `git` or
    /// outside a repository; otherwise a moderate score as a portable
    /// fallback, no copy-on-write, and the shadow repository it would use.
    pub fn capabilities(&self, git_available: bool, is_repo: bool, shadow_repo: &str) -> (c: ProviderCapabilities)
        ensures
            c.kind == SnapshotProviderKind::Git,
            !c.supports_cow_overlay,
            if !git_available {
                c.score == 0 && strings(c.notes@) == seq!["Git command not available"@]
            } else if !is_repo {
                c.score == 0 && strings(c.notes@) == seq!["Path is not a Git repository"@]
            } else {
                c.score == 10 && strings(c.notes@) == seq![
                    "Git-based snapshots available"@,
                    "Shadow repo: "@ + shadow_repo@,
                ]
            },
    {
        let mut notes: Vec<String> = Vec::new();
        if !git_available {
            notes.push(owned("Git command not available"));
            assert(strings(notes@) =~= seq!["Git command not available"@]);
            return ProviderCapabilities { kind: self.kind(), score: 0, supports_cow_overlay: false, notes };
        }
        if !is_repo {
            notes.push(owned("Path is not a Git repository"));
            assert(strings(notes@) =~= seq!["Path is not a Git repository"@]);
            return ProviderCapabilities { kind: self.kind(), score: 0, supports_cow_overlay: false, notes };
        }
        notes.push(owned("Git-based snapshots available"));
        notes.push(owned("Shadow repo: ").concat(shadow_repo));
        assert(strings(notes@) =~= seq!["Git-based snapshots available"@, "Shadow repo: "@ + shadow_repo@]);
        ProviderCapabilities { kind: self.kind(), score: 10, supports_cow_overlay: false, notes }
    }

    /// The workspace that is the repository `repo` itself.
    pub fn in_place_workspace(&self, repo: &str) -> (w: PreparedWorkspace)
        ensures
            w.exec_path@ == repo@,
            w.working_copy == WorkingCopyMode::InPlace,
            w.provider == SnapshotProviderKind::Git,
            w.cleanup_token@ == "git:inplace:"@ + repo@,
    {
        PreparedWorkspace {
            exec_path: owned(repo),
            working_copy: WorkingCopyMode::InPlace,
            provider: SnapshotProviderKind::Git,
            cleanup_token: owned("git:inplace:").concat(repo),
        }
    }

    /// The workspace made as worktree `worktree_path` of session
    /// `session_id` (for `mode`), removed again by its token.
    pub fn worktree_workspace(&self, worktree_path: String, session_id: &str, branch_name: &str, mode: WorkingCopyMode) -> (w:
        PreparedWorkspace)
        ensures
            w.exec_path == worktree_path,
            w.working_copy == mode,
            w.provider == SnapshotProviderKind::Git,
            w.cleanup_token@ == "git:worktree:"@ + session_id@ + ":"@ + branch_name@,
    {
        PreparedWorkspace {
            exec_path: worktree_path,
            working_copy: mode,
            provider: SnapshotProviderKind::Git,
            cleanup_token: owned("git:worktree:").concat(session_id).concat(":").concat(branch_name),
        }
    }

    /// The workspace made as branch worktree `worktree_path` of session
    /// `session_id` (for `mode`), removed again by its token.
    pub fn branch_workspace(&self, worktree_path: String, session_id: &str, branch_name: &str, mode: WorkingCopyMode) -> (w:
        PreparedWorkspace)
        ensures
            w.exec_path == worktree_path,
            w.working_copy == mode,
            w.provider == SnapshotProviderKind::Git,
            w.cleanup_token@ == "git:branch:"@ + session_id@ + ":"@ + branch_name@,
    {
        PreparedWorkspace {
            exec_path: worktree_path,
            working_copy: mode,
            provider: SnapshotProviderKind::Git,
            cleanup_token: owned("git:branch:").concat(session_id).concat(":").concat(branch_name),
        }
    }

    /// Message of a snapshot commit labelled `label`.
    pub fn commit_message(label: Option<&str>) -> (m: String)
        ensures
            m@ == commit_message_text(
                match label {
                    Some(l) => Some(l@),
                    None => None::<Seq<char>>,
                },
            ),
    {
        match label {
            Some(l) => owned("AH Snapshot: ").concat(l),
            None => owned("AH Snapshot"),
        }
    }

    /// Arguments of the `git add` that stages a snapshot: all changes, and
    /// removals outside ignore rules when untracked files are included.
    pub fn add_args(&self) -> (a: Vec<String>)
        ensures
            strings(a@) == if self.include_untracked {
                seq!["add"@, "--all"@, "--no-ignore-removal"@]
            } else {
                seq!["add"@, "--all"@]
            },
    {
        let mut a: Vec<String> = Vec::new();
        a.push(owned("add"));
        a.push(owned("--all"));
        if self.include_untracked {
            a.push(owned("--no-ignore-removal"));
            assert(strings(a@) =~= seq!["add"@, "--all"@, "--no-ignore-removal"@]);
        } else {
            assert(strings(a@) =~= seq!["add"@, "--all"@]);
        }
        a
    }

    /// What cleanup token `token` asks to remove: nothing for an in-place
    /// workspace; for a worktree or branch token with session and branch
    /// fields, the worktree they name (nothing without them); any other token
    /// is refused with the message given.
    pub open spec fn cleanup_target(self, token: Seq<char>) -> Result<Option<Seq<char>>, Seq<char>> {
        if "git:inplace:"@.is_prefix_of(token) {
            Ok(None)
        } else if "git:worktree:"@.is_prefix_of(token) || "git:branch:"@.is_prefix_of(token) {
            let parts = split_on(token, ':');
            if parts.len() >= 4 {
                Ok(Some(path_join(self.worktree_dir@, parts[2] + "_"@ + parts[3])))
            } else {
                Ok(None)
            }
        } else {
            Err(invalid_token_message(token))
        }
    }

    /// What cleanup token `token` asks to remove (see
    /// [`cleanup_target`](Self::cleanup_target)).
    pub fn cleanup_plan(&self, token: &str) -> (r: Result<Option<String>, SnapshotError>)
        ensures
            match self.cleanup_target(token@) {
                Ok(None) => r matches Ok(None),
                Ok(Some(p)) => r matches Ok(Some(q)) && q@ == p,
                Err(m) => r matches Err(SnapshotError::Provider { message }) && message@ == m,
            },
    {
        if str_starts_with(token, "git:inplace:") {
            Ok(None)
        } else if str_starts_with(token, "git:worktree:") || str_starts_with(token, "git:branch:") {
            let parts = split_fields(token, ':');
            if parts.len() >= 4 {
                assert(parts@[2]@ == split_on(token@, ':')[2]);
                assert(parts@[3]@ == split_on(token@, ':')[3]);
                Ok(Some(self.worktree_path(parts[2].as_str(), parts[3].as_str())))
            } else {
                Ok(None)
            }
        } else {
            Err(SnapshotError::provider(owned("Invalid Git cleanup token: ").concat(token)))
        }
    }
}

/// The pieces of `"git:" + kind + ":" + a + ":" + b` between colons, for
/// `kind`, `a` and `b` without colons.
proof fn lemma_token_fields(kind: Seq<char>, a: Seq<char>, b: Seq<char>)
    requires
        !kind.contains(':'),
        !a.contains(':'),
        !b.contains(':'),
    ensures
        split_on("git"@ + seq![':'] + kind + seq![':'] + a + seq![':'] + b, ':') == seq!["git"@, kind, a, b],
{
    reveal_strlit("git");
    let e = Seq::<char>::empty();
    assert(!"git"@.contains(':'));
    lemma_split_on_extend(e, "git"@, ':');
    assert(e + "git"@ =~= "git"@);
    assert(split_on(e, ':') =~= seq![e]);
    assert(split_on("git"@, ':') =~= seq!["git"@]);
    let s1 = "git"@.push(':');
    lemma_split_on_sep("git"@, ':');
    lemma_split_on_extend(s1, kind, ':');
    let s2 = (s1 + kind).push(':');
    lemma_split_on_sep(s1 + kind, ':');
    lemma_split_on_extend(s2, a, ':');
    let s3 = (s2 + a).push(':');
    lemma_split_on_sep(s2 + a, ':');
    lemma_split_on_extend(s3, b, ':');
    assert(split_on(s1 + kind, ':') =~= seq!["git"@, kind]);
    assert(split_on(s2 + a, ':') =~= seq!["git"@, kind, a]);
    assert(split_on(s3 + b, ':') =~= seq!["git"@, kind, a, b]);
    assert("git"@ + seq![':'] + kind + seq![':'] + a + seq![':'] + b =~= s3 + b);
}

/// The token of an in-place workspace asks to remove nothing.
pub proof fn law_in_place_cleanup_removes_nothing(p: GitProvider, repo: Seq<char>)
    ensures
        p.cleanup_target("git:inplace:"@ + repo) == Ok::<Option<Seq<char>>, Seq<char>>(None),
{
    assert("git:inplace:"@.is_prefix_of("git:inplace:"@ + repo)) by {
        assert(("git:inplace:"@ + repo).subrange(0, "git:inplace:"@.len() as int) =~= "git:inplace:"@);
    }
}

/// The token of a branch workspace made in the worktree that
/// [`GitProvider::worktree_path`] names for its session and branch asks to
/// remove exactly that worktree (session and branch names without colons).
pub proof fn law_branch_cleanup_removes_its_worktree(p: GitProvider, w: PreparedWorkspace, s: Seq<char>, b: Seq<char>)
    requires
        w.exec_path@ == path_join(p.worktree_dir@, s + "_"@ + b),
        w.cleanup_token@ == "git:branch:"@ + s + ":"@ + b,
        !s.contains(':'),
        !b.contains(':'),
    ensures
        p.cleanup_target(w.cleanup_token@) == Ok::<Option<Seq<char>>, Seq<char>>(Some(w.exec_path@)),
{
    reveal_strlit("git:branch:");
    reveal_strlit("git:inplace:");
    reveal_strlit("git:worktree:");
    reveal_strlit(":");
    reveal_strlit("branch");
    reveal_strlit("git");
    let t = w.cleanup_token@;
    assert(!"branch"@.contains(':'));
    lemma_token_fields("branch"@, s, b);
    assert(t =~= "git"@ + seq![':'] + "branch"@ + seq![':'] + s + seq![':'] + b);
    assert("git:branch:"@.is_prefix_of(t)) by {
        assert(t.subrange(0, 11) =~= "git:branch:"@);
    }
    assert(!"git:inplace:"@.is_prefix_of(t)) by {
        assert(t[4] == 'b');
        assert("git:inplace:"@[4] == 'i');
        if "git:inplace:"@.is_prefix_of(t) {
            assert(t.subrange(0, 12)[4] == t[4]);
        }
    }
}

/// Message for a cleanup token the Btrfs provider did not hand out.
pub open spec fn invalid_btrfs_token_message(token: Seq<char>) -> Seq<char> {
    "Invalid Btrfs cleanup token: "@ + token
}

/// The Btrfs snapshot provider.
#[derive(Clone, Copy, Debug, Default)]
pub struct BtrfsProvider;

/// `prefix` followed by `path`.
fn prefixed(prefix: &str, path: &str) -> (r: String)
    ensures
        r@ == prefix@ + path@,
{
    owned(prefix).concat(path)
}

impl BtrfsProvider {
    /// A Btrfs provider.
    pub fn new() -> (p: Self) {
        BtrfsProvider
    }

    /// The provider's kind.
    pub fn kind(&self) -> (k: SnapshotProviderKind)
        ensures
            k == SnapshotProviderKind::Btrfs,
    {
        SnapshotProviderKind::Btrfs
    }

    /// What the provider reports of a path: nothing usable without the
    /// `btrfs` command, off Btrfs (`fs_type` is the filesystem type, or the
    /// text of the error that kept it from being read) or outside a
    /// subvolume; inside subvolume `subvolume` a high score with
    /// copy-on-write overlays.
    pub fn capabilities(&self, available: bool, fs_type: Result<&str, &str>, subvolume: Option<&str>) -> (c:
        ProviderCapabilities)
        ensures
            c.kind == SnapshotProviderKind::Btrfs,
            if !available {
                c.score == 0 && !c.supports_cow_overlay && strings(c.notes@) == seq!["Btrfs command not available"@]
            } else {
                match fs_type {
                    Ok(t) => if t@ == "btrfs"@ {
                        match subvolume {
                            Some(s) => c.score == 80 && c.supports_cow_overlay && strings(c.notes@) == seq![
                                "Using Btrfs subvolume: "@ + s@,
                            ],
                            None => c.score == 0 && !c.supports_cow_overlay && strings(c.notes@) == seq![
                                "Path is not in a Btrfs subvolume"@,
                            ],
                        }
                    } else {
                        c.score == 0 && !c.supports_cow_overlay && strings(c.notes@) == seq![
                            "Path is on "@ + t@ + " filesystem, not Btrfs"@,
                        ]
                    },
                    Err(e) => c.score == 0 && !c.supports_cow_overlay && strings(c.notes@) == seq![
                        "Failed to detect filesystem: "@ + e@,
                    ],
                }
            },
    {
        let mut notes: Vec<String> = Vec::new();
        if !available {
            notes.push(owned("Btrfs command not available"));
            assert(strings(notes@) =~= seq!["Btrfs command not available"@]);
            return ProviderCapabilities { kind: self.kind(), score: 0, supports_cow_overlay: false, notes };
        }
        match fs_type {
            Ok(t) => {
                if crate::text::str_eq(t, "btrfs") {
                    match subvolume {
                        Some(s) => {
                            notes.push(prefixed("Using Btrfs subvolume: ", s));
                            assert(strings(notes@) =~= seq!["Using Btrfs subvolume: "@ + s@]);
                            ProviderCapabilities { kind: self.kind(), score: 80, supports_cow_overlay: true, notes }
                        },
                        None => {
                            notes.push(owned("Path is not in a Btrfs subvolume"));
                            assert(strings(notes@) =~= seq!["Path is not in a Btrfs subvolume"@]);
                            ProviderCapabilities { kind: self.kind(), score: 0, supports_cow_overlay: false, notes }
                        },
                    }
                } else {
                    notes.push(prefixed("Path is on ", t).concat(" filesystem, not Btrfs"));
                    assert(strings(notes@) =~= seq!["Path is on "@ + t@ + " filesystem, not Btrfs"@]);
                    ProviderCapabilities { kind: self.kind(), score: 0, supports_cow_overlay: false, notes }
                }
            },
            Err(e) => {
                notes.push(prefixed("Failed to detect filesystem: ", e));
                assert(strings(notes@) =~= seq!["Failed to detect filesystem: "@ + e@]);
                ProviderCapabilities { kind: self.kind(), score: 0, supports_cow_overlay: false, notes }
            },
        }
    }

    /// The workspace that is the repository `repo` itself.
    pub fn in_place_workspace(&self, repo: &str) -> (w: PreparedWorkspace)
        ensures
            w.exec_path@ == repo@,
            w.working_copy == WorkingCopyMode::InPlace,
            w.provider == SnapshotProviderKind::Btrfs,
            w.cleanup_token@ == "btrfs:inplace:"@ + repo@,
    {
        PreparedWorkspace {
            exec_path: owned(repo),
            working_copy: WorkingCopyMode::InPlace,
            provider: SnapshotProviderKind::Btrfs,
            cleanup_token: prefixed("btrfs:inplace:", repo),
        }
    }

    /// The workspace made as subvolume snapshot `snapshot_path` (copy-on-write overlay).
    pub fn overlay_workspace(&self, snapshot_path: &str) -> (w: PreparedWorkspace)
        ensures
            w.exec_path@ == snapshot_path@,
            w.working_copy == WorkingCopyMode::CowOverlay,
            w.provider == SnapshotProviderKind::Btrfs,
            w.cleanup_token@ == "btrfs:cow:"@ + snapshot_path@,
    {
        PreparedWorkspace {
            exec_path: owned(snapshot_path),
            working_copy: WorkingCopyMode::CowOverlay,
            provider: SnapshotProviderKind::Btrfs,
            cleanup_token: prefixed("btrfs:cow:", snapshot_path),
        }
    }

    /// The workspace made as writable subvolume `branch_path` from a snapshot.
    pub fn branch_workspace(&self, branch_path: &str) -> (w: PreparedWorkspace)
        ensures
            w.exec_path@ == branch_path@,
            w.working_copy == WorkingCopyMode::CowOverlay,
            w.provider == SnapshotProviderKind::Btrfs,
            w.cleanup_token@ == "btrfs:branch:"@ + branch_path@,
    {
        PreparedWorkspace {
            exec_path: owned(branch_path),
            working_copy: WorkingCopyMode::CowOverlay,
            provider: SnapshotProviderKind::Btrfs,
            cleanup_token: prefixed("btrfs:branch:", branch_path),
        }
    }

    /// Why a workspace in `mode` is refused: only in-place and
    /// copy-on-write workspaces exist.
    pub fn workspace_mode_error(mode: WorkingCopyMode) -> (r: Option<String>)
        ensures
            match mode {
                WorkingCopyMode::Worktree | WorkingCopyMode::Auto => r matches Some(m) && m@
                    == "Btrfs worktree mode not implemented - use CowOverlay"@,
                _ => r is None,
            },
    {
        match mode {
            WorkingCopyMode::Worktree | WorkingCopyMode::Auto => Some(
                owned("Btrfs worktree mode not implemented - use CowOverlay"),
            ),
            _ => None,
        }
    }

    /// Why a branch in `mode` is refused: branches are copy-on-write only.
    pub fn branch_mode_error(mode: WorkingCopyMode) -> (r: Option<String>)
        ensures
            match mode {
                WorkingCopyMode::CowOverlay => r is None,
                _ => r matches Some(m) && m@ == "Btrfs branching only supports CowOverlay mode"@,
            },
    {
        match mode {
            WorkingCopyMode::CowOverlay => None,
            _ => Some(owned("Btrfs branching only supports CowOverlay mode")),
        }
    }

    /// Id of the snapshot taken under unique id `unique_id`.
    pub fn snapshot_id(unique_id: &str) -> (id: String)
        ensures
            id@ == "btrfs_snapshot_"@ + unique_id@,
    {
        prefixed("btrfs_snapshot_", unique_id)
    }

    /// What cleanup token `token` asks to remove: nothing for an in-place
    /// workspace, the subvolume named after the prefix of an overlay or
    /// branch token; any other token is refused with the message given.
    pub open spec fn cleanup_target(self, token: Seq<char>) -> Result<Option<Seq<char>>, Seq<char>> {
        if "btrfs:inplace:"@.is_prefix_of(token) {
            Ok(None)
        } else if "btrfs:cow:"@.is_prefix_of(token) {
            Ok(Some(token.skip("btrfs:cow:"@.len() as int)))
        } else if "btrfs:branch:"@.is_prefix_of(token) {
            Ok(Some(token.skip("btrfs:branch:"@.len() as int)))
        } else {
            Err(invalid_btrfs_token_message(token))
        }
    }

    /// What cleanup token `token` asks to remove (see
    /// [`cleanup_target`](Self::cleanup_target)); the subvolume goes only if
    /// it still exists.
    pub fn cleanup_plan(&self, token: &str) -> (r: Result<Option<String>, SnapshotError>)
        ensures
            match self.cleanup_target(token@) {
                Ok(None) => r matches Ok(None),
                Ok(Some(p)) => r matches Ok(Some(q)) && q@ == p,
                Err(m) => r matches Err(SnapshotError::Provider { message }) && message@ == m,
            },
    {
        if str_starts_with(token, "btrfs:inplace:") {
            Ok(None)
        } else if str_starts_with(token, "btrfs:cow:") {
            Ok(Some(crate::text::suffix_from(token, "btrfs:cow:".unicode_len())))
        } else if str_starts_with(token, "btrfs:branch:") {
            Ok(Some(crate::text::suffix_from(token, "btrfs:branch:".unicode_len())))
        } else {
            Err(SnapshotError::provider(prefixed("Invalid Btrfs cleanup token: ", token)))
        }
    }
}

/// The token of a copy-on-write or branch workspace asks to remove exactly
/// the subvolume the workspace lives in.
pub proof fn law_btrfs_cleanup_removes_its_subvolume(p: BtrfsProvider, w: PreparedWorkspace, path: Seq<char>)
    requires
        w.exec_path@ == path,
        w.cleanup_token@ == "btrfs:cow:"@ + path || w.cleanup_token@ == "btrfs:branch:"@ + path,
    ensures
        p.cleanup_target(w.cleanup_token@) == Ok::<Option<Seq<char>>, Seq<char>>(Some(path)),
{
    reveal_strlit("btrfs:inplace:");
    reveal_strlit("btrfs:cow:");
    reveal_strlit("btrfs:branch:");
    let t = w.cleanup_token@;
    if t == "btrfs:cow:"@ + path {
        assert("btrfs:cow:"@.is_prefix_of(t)) by {
            assert(t.subrange(0, 10) =~= "btrfs:cow:"@);
        }
        assert(!"btrfs:inplace:"@.is_prefix_of(t)) by {
            if "btrfs:inplace:"@.is_prefix_of(t) {
                assert(t.subrange(0, 14)[6] == t[6]);
            }
        }
        assert(t.skip(10) =~= path);
    } else {
        assert("btrfs:branch:"@.is_prefix_of(t)) by {
            assert(t.subrange(0, 13) =~= "btrfs:branch:"@);
        }
        assert(!"btrfs:inplace:"@.is_prefix_of(t)) by {
            if "btrfs:inplace:"@.is_prefix_of(t) {
                assert(t.subrange(0, 14)[6] == t[6]);
            }
        }
        assert(!"btrfs:cow:"@.is_prefix_of(t)) by {
            if "btrfs:cow:"@.is_prefix_of(t) {
                assert(t.subrange(0, 10)[6] == t[6]);
            }
        }
        assert(t.skip(13) =~= path);
    }
}

/// Directories directly under the root that no workspace may be made in.
pub open spec fn is_system_directory(name: Seq<char>) -> bool {
    name == "dev"@ || name == "proc"@ || name == "sys"@ || name == "run"@
}

/// Why no workspace may be made at `dest`, compared by path components as
/// `Path` does: an absolute path inside `/dev`, `/proc`, `/sys` or `/run`,
/// or the root itself.
pub open spec fn destination_refusal(dest: Seq<char>) -> Option<Seq<char>> {
    let segs = path_segments(dest);
    let absolute = dest.len() > 0 && dest[0] == '/';
    if absolute && segs.len() > 0 && is_system_directory(segs[0]) {
        Some("Cannot create workspace in system directory: "@ + dest)
    } else if absolute && segs.len() == 0 {
        Some("Cannot create workspace at root directory"@)
    } else {
        None
    }
}

/// Refuses workspace destinations in system directories and at the root
/// (see [`destination_refusal`]); creating a missing parent directory is the
/// caller's part.
pub fn check_destination_path(dest: &str) -> (r: Result<(), SnapshotError>)
    ensures
        match destination_refusal(dest@) {
            None => r is Ok,
            Some(m) => r matches Err(SnapshotError::Provider { message }) && message@ == m,
        },
{
    let segs = split_path(dest);
    let absolute = dest.unicode_len() > 0 && dest.get_char(0) == '/';
    if absolute && segs.len() > 0 {
        let first = segs[0].as_str();
        if str_eq(first, "dev") || str_eq(first, "proc") || str_eq(first, "sys") || str_eq(first, "run") {
            return Err(SnapshotError::provider(prefixed("Cannot create workspace in system directory: ", dest)));
        }
    }
    if absolute && segs.len() == 0 {
        return Err(SnapshotError::provider(owned("Cannot create workspace at root directory")));
    }
    Ok(())
}

/// Provider `i` of `caps` is the one chosen: the first with the highest
/// score, and that score is above 0.
pub open spec fn chosen_provider(caps: Seq<ProviderCapabilities>, i: int) -> bool {
    &&& 0 <= i < caps.len()
    &&& caps[i].score > 0
    &&& forall|j: int| 0 <= j < i ==> #[trigger] caps[j].score < caps[i].score
    &&& forall|j: int| i < j < caps.len() ==> #[trigger] caps[j].score <= caps[i].score
}

/// The kind of provider to use given what each candidate reported (in the
/// order they were asked): the first with the highest score; none when
/// every score is 0.
pub fn select_provider(caps: &Vec<ProviderCapabilities>) -> (r: Result<SnapshotProviderKind, SnapshotError>)
    ensures
        match r {
            Ok(k) => exists|i: int| chosen_provider(caps@, i) && #[trigger] caps@[i].kind == k,
            Err(e) => {
                &&& forall|j: int| 0 <= j < caps@.len() ==> #[trigger] caps@[j].score == 0
                &&& e matches SnapshotError::Provider { message } && message@ == "No suitable provider found"@
            },
        },
{
    let mut best: Option<usize> = None;
    let mut best_score: u8 = 0;
    let mut i: usize = 0;
    while i < caps.len()
        invariant
            i <= caps@.len(),
            best is None ==> best_score == 0 && forall|j: int| 0 <= j < i ==> #[trigger] caps@[j].score == 0,
            best matches Some(b) ==> {
                &&& b < i
                &&& best_score == caps@[b as int].score
                &&& best_score > 0
                &&& forall|j: int| 0 <= j < b ==> #[trigger] caps@[j].score < best_score
                &&& forall|j: int| b < j < i ==> #[trigger] caps@[j].score <= best_score
            },
        decreases caps@.len() - i,
    {
        if caps[i].score > best_score {
            best = Some(i);
            best_score = caps[i].score;
        }
        i = i + 1;
    }
    match best {
        Some(b) => {
            assert(chosen_provider(caps@, b as int));
            Ok(caps[b].kind)
        },
        None => Err(SnapshotError::provider(owned("No suitable provider found"))),
    }
}

} // verus!
