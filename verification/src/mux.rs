//! Terminal multiplexer interface: the operations every multiplexer
//! implementation provides, and the types they share.

use vstd::prelude::*;
use vstd::string::StringExecFns;

use crate::text::owned;

verus! {

/// Window identifier (implementations may encode native ids or titles).
pub type WindowId = String;

/// Pane identifier (implementations may encode native ids or titles).
pub type PaneId = String;

#[verifier::external_type_specification]
#[verifier::external_body]
pub struct ExIoError(std::io::Error);

/// Direction in which a pane is split.
#[derive(Clone, Copy, Debug, PartialEq, Eq, Structural)]
pub enum SplitDirection {
    Horizontal,
    Vertical,
}

/// Options for opening a window.
#[derive(Clone, Debug, Default)]
pub struct WindowOptions<'a> {
    pub title: Option<&'a str>,
    /// Working directory, as a path string.
    pub cwd: Option<&'a str>,
    /// Implementation-defined profile (such as a terminal profile name).
    pub profile: Option<&'a str>,
    pub focus: bool,
}

/// Options for running a command.
#[derive(Clone, Debug, Default)]
pub struct CommandOptions<'a> {
    /// Working directory, as a path string.
    pub cwd: Option<&'a str>,
    pub env: Option<&'a [(&'a str, &'a str)]>,
}

/// Multiplexer failure.
#[derive(Debug)]
pub enum MuxError {
    NotAvailable(&'static str),
    NotFound,
    CommandFailed(String),
    Io(std::io::Error),
    Other(String),
}

/// Text of an I/O error (std `Display` of `io::Error`); nothing is stated of it.
#[verifier::external_body]
fn io_error_text(e: &std::io::Error) -> String {
    format!("{}", e)
}

impl MuxError {
    /// Human-readable description of the error.
    pub fn message(&self) -> (s: String)
        ensures
            match self {
                MuxError::NotAvailable(what) => s@ == "multiplexer not available: "@ + what@,
                MuxError::NotFound => s@ == "not found"@,
                MuxError::CommandFailed(m) => s@ == "command failed: "@ + m@,
                MuxError::Io(_) => exists|t: Seq<char>| s@ == "io error: "@ + t,
                MuxError::Other(m) => s@ == "other: "@ + m@,
            },
    {
        match self {
            MuxError::NotAvailable(what) => owned("multiplexer not available: ").concat(what),
            MuxError::NotFound => owned("not found"),
            MuxError::CommandFailed(m) => owned("command failed: ").concat(m.as_str()),
            MuxError::Io(e) => {
                let t = io_error_text(e);
                let s = owned("io error: ").concat(t.as_str());
                assert(s@ == "io error: "@ + t@);
                s
            },
            MuxError::Other(m) => owned("other: ").concat(m.as_str()),
        }
    }
}

/// Operations every multiplexer implementation provides.
pub trait Multiplexer {
    /// The implementation's identifier.
    spec fn spec_id(&self) -> Seq<char>;

    /// Implementation identifier (such as "tmux" or "wezterm").
    fn id(&self) -> (r: &'static str)
        ensures
            r@ == self.spec_id();

    /// Whether the implementation is available on this system.
    fn is_available(&self) -> bool;

    /// Opens a top-level window or tab and returns its id.
    fn open_window(&self, opts: &WindowOptions) -> Result<WindowId, MuxError>;

    /// Splits `target` (or the window's initial pane) and returns the new pane's id.
    fn split_pane(
        &self,
        window: &WindowId,
        target: Option<&PaneId>,
        dir: SplitDirection,
        percent: Option<u8>,
        opts: &CommandOptions,
        initial_cmd: Option<&str>,
    ) -> Result<PaneId, MuxError>;

    /// Runs a command in an existing pane.
    fn run_command(&self, pane: &PaneId, cmd: &str, opts: &CommandOptions) -> Result<(), MuxError>;

    /// Sends literal text to a pane; unsupported unless an implementation provides it.
    fn send_text(&self, pane: &PaneId, text: &str) -> (r: Result<(), MuxError>)
        default_ensures
            r matches Err(MuxError::NotAvailable(what)) && what@ == self.spec_id(),
    {
        Err(MuxError::NotAvailable(self.id()))
    }

    /// Focuses a window.
    fn focus_window(&self, window: &WindowId) -> Result<(), MuxError>;

    /// Focuses a pane.
    fn focus_pane(&self, pane: &PaneId) -> Result<(), MuxError>;

    /// Windows found (best effort), optionally only those whose title contains `title_substr`.
    fn list_windows(&self, title_substr: Option<&str>) -> Result<Vec<WindowId>, MuxError>;

    /// Panes of a window (best effort).
    fn list_panes(&self, window: &WindowId) -> Result<Vec<PaneId>, MuxError>;
}

} // verus!
