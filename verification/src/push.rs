//! Options for pushing a task branch, and parsing of the push-to-remote flag.

use vstd::prelude::*;
use vstd::string::StringExecFns;

use crate::text::{owned, str_eq};

verus! {

/// Push options for controlling push behavior.
#[derive(Debug, Clone)]
pub struct PushOptions {
    /// Whether to push to remote (`None`: ask interactively).
    pub push_to_remote: Option<bool>,
    /// The branch name to push.
    pub branch_name: String,
    /// The remote name to push to (defaults to "origin").
    pub remote: String,
}

impl PushOptions {
    /// Options for pushing `branch_name` to "origin", asking whether to push.
    pub fn new(branch_name: String) -> (r: Self)
        ensures
            r.push_to_remote is None,
            r.branch_name@ == branch_name@,
            r.remote@ == "origin"@,
    {
        PushOptions { push_to_remote: None, branch_name, remote: owned("origin") }
    }

    /// The same options with the push decision `push`.
    pub fn with_push_to_remote(self, push: Option<bool>) -> (r: Self)
        ensures
            r.push_to_remote == push,
            r.branch_name@ == self.branch_name@,
            r.remote@ == self.remote@,
    {
        PushOptions { push_to_remote: push, branch_name: self.branch_name, remote: self.remote }
    }

    /// The same options with remote `remote`.
    pub fn with_remote(self, remote: String) -> (r: Self)
        ensures
            r.push_to_remote == self.push_to_remote,
            r.branch_name@ == self.branch_name@,
            r.remote@ == remote@,
    {
        PushOptions { push_to_remote: self.push_to_remote, branch_name: self.branch_name, remote }
    }
}

/// Lowercase form of a string, as std's `str::to_lowercase` computes it.
pub uninterp spec fn lowercase(s: Seq<char>) -> Seq<char>;

/// Lowercases `s` (std `str::to_lowercase`, full Unicode case mapping).
#[verifier::external_body]
fn to_lowercase(s: &str) -> (r: String)
    ensures
        r@ == lowercase(s@),
{
    s.to_lowercase()
}

/// Meaning of an already lowercased flag value: "1", "true", "yes", "y" mean
/// yes; "0", "false", "no", "n" mean no; anything else is invalid.
pub open spec fn flag_value(s: Seq<char>) -> Option<bool> {
    if s == "1"@ || s == "true"@ || s == "yes"@ || s == "y"@ {
        Some(true)
    } else if s == "0"@ || s == "false"@ || s == "no"@ || s == "n"@ {
        Some(false)
    } else {
        None
    }
}

/// Message for an invalid (lowercased) flag value `s`.
pub open spec fn invalid_flag_message(s: Seq<char>) -> Seq<char> {
    "Error: Invalid value for --push-to-remote: '"@ + s + "'. Valid values are: 1, true, yes, y, 0, false, no, n"@
}

/// Interprets an already lowercased flag value (see [`flag_value`]).
pub fn parse_lowercased_flag(value: &str) -> (r: Result<bool, String>)
    ensures
        match flag_value(value@) {
            Some(b) => r == Ok::<bool, String>(b),
            None => r matches Err(m) && m@ == invalid_flag_message(value@),
        },
{
    if str_eq(value, "1") || str_eq(value, "true") || str_eq(value, "yes") || str_eq(value, "y") {
        Ok(true)
    } else if str_eq(value, "0") || str_eq(value, "false") || str_eq(value, "no") || str_eq(value, "n") {
        Ok(false)
    } else {
        let m = owned("Error: Invalid value for --push-to-remote: '").concat(value).concat(
            "'. Valid values are: 1, true, yes, y, 0, false, no, n",
        );
        Err(m)
    }
}

/// Parses the push-to-remote flag case-insensitively: the value is lowercased,
/// then interpreted as [`parse_lowercased_flag`] does.
pub fn parse_push_to_remote_flag(value: &str) -> (r: Result<bool, String>)
    ensures
        match flag_value(lowercase(value@)) {
            Some(b) => r == Ok::<bool, String>(b),
            None => r matches Err(m) && m@ == invalid_flag_message(lowercase(value@)),
        },
{
    let lowered = to_lowercase(value);
    parse_lowercased_flag(lowered.as_str())
}

} // verus!
