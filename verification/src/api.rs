//! The remote service's data: tasks, status codes, errors, and the rules by
//! which requests are built and replies are judged.

pub mod error;
pub mod calls;
pub mod client;
pub mod outcome;
pub mod reply;
pub mod status;
pub mod task;

pub use error::{AuthError, SynologyError, TaskError};
pub use status::TaskStatus;
pub use task::{
    AdditionalInfo, DetailInfo, DownloadTask, ExtendedDownloadTask, FileEntry, FileInfo,
    PeerEntry, PeerInfo, Ratio, TrackerEntry, TrackerInfo, TransferInfo,
};
pub use client::{ApiEntry, ApiInfo, Reply, Request, SynologyClient};
pub use reply::{
    AuthData, AuthResponse, ConfigData, ConfigResponse, CreateTaskResponseWrapper,
    TaskActionResponse, TaskActionResponseWrapper, TaskData, TaskDetailResponse, TaskInfoData,
    TaskListResponse,
};
pub use calls::Upload;
pub use outcome::ApiCatalog;
