//! Validation of decoded control-plane messages.

use vstd::prelude::*;
use vstd::string::StringExecFns;

use crate::text::owned;
use super::messages::{version_one, Request, Response};

verus! {

/// Validation error.
#[derive(Debug)]
pub enum ValidationError {
    Schema(String),
    SszDecode(String),
}

/// Text of a [`ValidationError`].
pub open spec fn validation_message(e: ValidationError) -> Seq<char> {
    match e {
        ValidationError::Schema(m) => "schema validation failed: "@ + m@,
        ValidationError::SszDecode(m) => "SSZ decoding failed: "@ + m@,
    }
}

impl ValidationError {
    /// Human-readable description.
    pub fn message(&self) -> (s: String)
        ensures
            s@ == validation_message(*self),
    {
        match self {
            ValidationError::Schema(m) => owned("schema validation failed: ").concat(m.as_str()),
            ValidationError::SszDecode(m) => owned("SSZ decoding failed: ").concat(m.as_str()),
        }
    }
}

/// Version bytes a request carries.
pub open spec fn request_version(r: Request) -> Seq<u8> {
    match r {
        Request::SnapshotCreate((v, _)) => v@,
        Request::SnapshotList(v) => v@,
        Request::BranchCreate((v, _)) => v@,
        Request::BranchBind((v, _)) => v@,
    }
}

/// Message of the error for a wrong version.
pub open spec fn bad_version_message() -> Seq<char> {
    "version must be '1'"@
}

/// Accepts a request exactly when it carries version `"1"`.
pub fn validate_request(request: &Request) -> (r: Result<(), ValidationError>)
    ensures
        r is Ok <==> request_version(*request) == version_one(),
        r matches Err(ValidationError::Schema(m)) ==> m@ == bad_version_message(),
        r matches Err(e) ==> e is Schema,
{
    let v = match request {
        Request::SnapshotCreate((v, _)) => v,
        Request::SnapshotList(v) => v,
        Request::BranchCreate((v, _)) => v,
        Request::BranchBind((v, _)) => v,
    };
    if v.len() == 1 && v[0] == 49u8 {
        assert(v@ =~= version_one());
        Ok(())
    } else {
        Err(ValidationError::Schema(owned("version must be '1'")))
    }
}

/// Accepts every response: a decoded response's shape is already enforced by its type.
pub fn validate_response(response: &Response) -> (r: Result<(), ValidationError>)
    ensures
        r is Ok,
{
    Ok(())
}

} // verus!
