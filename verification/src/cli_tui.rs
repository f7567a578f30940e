//! Options of the `tui` command and what it makes of them: how to
//! authenticate with a remote server, and whether one is used at all.

use vstd::prelude::*;

use crate::text::owned;

verus! {

/// Options of `tui`.
#[derive(Clone, Debug)]
pub struct TuiArgs {
    /// URL of the remote REST service.
    pub remote_server: Option<String>,
    /// API key for the remote server.
    pub api_key: Option<String>,
    /// Bearer token for the remote server.
    pub bearer_token: Option<String>,
}

/// How requests to the remote server authenticate.
#[derive(Clone, Debug, PartialEq, Eq)]
pub enum AuthChoice {
    ApiKey(String),
    Bearer(String),
    /// No credentials.
    Anonymous,
}

/// Message refusing both an API key and a bearer token.
pub open spec fn both_credentials_message() -> Seq<char> {
    "Cannot specify both --api-key and --bearer-token"@
}

/// Message refusing credentials without a server.
pub open spec fn credentials_need_server_message() -> Seq<char> {
    "--remote-server is required when using authentication"@
}

impl TuiArgs {
    /// The options are consistent: at most one kind of credentials, and
    /// credentials only together with a server.
    pub fn validate(&self) -> (r: Result<(), String>)
        ensures
            match r {
                Ok(_) => !(self.api_key is Some && self.bearer_token is Some) && ((self.api_key is Some
                    || self.bearer_token is Some) ==> self.remote_server is Some),
                Err(m) => if self.api_key is Some && self.bearer_token is Some {
                    m@ == both_credentials_message()
                } else {
                    (self.api_key is Some || self.bearer_token is Some) && self.remote_server is None
                        && m@ == credentials_need_server_message()
                },
            },
    {
        if self.api_key.is_some() && self.bearer_token.is_some() {
            return Err(owned("Cannot specify both --api-key and --bearer-token"));
        }
        if (self.api_key.is_some() || self.bearer_token.is_some()) && self.remote_server.is_none() {
            return Err(owned("--remote-server is required when using authentication"));
        }
        Ok(())
    }

    /// The credentials to use: the API key if given, else the bearer token
    /// if given, else none.
    pub fn auth_choice(&self) -> (a: AuthChoice)
        ensures
            a == match self.api_key {
                Some(k) => AuthChoice::ApiKey(k),
                None => match self.bearer_token {
                    Some(t) => AuthChoice::Bearer(t),
                    None => AuthChoice::Anonymous,
                },
            },
    {
        match &self.api_key {
            Some(k) => AuthChoice::ApiKey(k.clone()),
            None => match &self.bearer_token {
                Some(t) => AuthChoice::Bearer(t.clone()),
                None => AuthChoice::Anonymous,
            },
        }
    }
}

} // verus!
