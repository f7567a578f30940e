//! Control-plane protocol: request and response messages exchanged between
//! tools and filesystem adapters, and their validation.

pub mod frames;
pub mod messages;
pub mod validation;

pub use messages::{
    BranchBindRequest, BranchBindResponse, BranchCreateRequest, BranchCreateResponse, BranchInfo,
    ErrorResponse, FsAttrsResponse, FsCloseRequest, FsCreateRequest, FsDataResponse, FsDirEntry,
    FsEntriesResponse, FsErrorResponse, FsGetAttrRequest, FsHandleResponse, FsMkdirRequest,
    FsOkResponse, FsOpenRequest, FsReadDirRequest, FsReadRequest, FsRequest, FsResponse,
    FsUnlinkRequest, FsWriteRequest, FsWrittenResponse, Request, Response, SnapshotCreateRequest,
    SnapshotCreateResponse, SnapshotInfo, SnapshotListRequest, SnapshotListResponse,
};
pub use validation::{validate_request, validate_response, ValidationError};
