//! Errors of the remote service, by numeric code.

use crate::text::{decimal, push_decimal};
use vstd::prelude::*;

verus! {

/// The error object of a reply: a numeric code.
#[derive(Debug, Clone, Copy, PartialEq, Eq, Structural)]
pub struct SynologyError {
    pub code: u32,
}

impl SynologyError {
    /// The login error that the code stands for.
    pub fn into_auth_error(self) -> (e: AuthError)
        ensures
            e == AuthError::of_code(self.code),
    {
        AuthError::from_code(self.code)
    }
}

/// Why a login or logout was turned down.
#[derive(Debug, Clone, Copy, PartialEq, Eq, Structural)]
pub enum AuthError {
    /// Code 400.
    NoSuchAccount,
    /// Code 401.
    AccountDisabled,
    /// Code 402.
    PermissionDenied,
    /// Code 403.
    TwoStepRequired,
    /// Code 404.
    TwoStepCodeFailed,
    /// A code the service's documentation does not list.
    Other(u32),
    /// The reply could not be read, or never arrived.
    ParseError,
}

impl AuthError {
    /// The error that a numeric code stands for.
    pub open spec fn of_code(code: u32) -> AuthError {
        if code == 400 {
            AuthError::NoSuchAccount
        } else if code == 401 {
            AuthError::AccountDisabled
        } else if code == 402 {
            AuthError::PermissionDenied
        } else if code == 403 {
            AuthError::TwoStepRequired
        } else if code == 404 {
            AuthError::TwoStepCodeFailed
        } else {
            AuthError::Other(code)
        }
    }

    /// The fixed text that describes the error.
    pub open spec fn description_text(self) -> Seq<char> {
        match self {
            AuthError::NoSuchAccount => "No such account or incorrect password"@,
            AuthError::AccountDisabled => "Account disabled"@,
            AuthError::PermissionDenied => "Permission denied"@,
            AuthError::TwoStepRequired => "2-step verification code required"@,
            AuthError::TwoStepCodeFailed => "Failed to authenticate 2-step verification code"@,
            AuthError::Other(_) => "Unknown authentication error"@,
            AuthError::ParseError => "Failed to parse authentication response"@,
        }
    }

    /// The error as it is shown: the description, and for an unlisted code
    /// the code after it.
    pub open spec fn display_text(self) -> Seq<char> {
        match self {
            AuthError::Other(code) => self.description_text() + " (code "@ + decimal(code as nat)
                + ")"@,
            _ => self.description_text(),
        }
    }

    /// Maps a numeric code of the service to an error; a code that is not
    /// listed is kept in `Other`.
    pub fn from_code(code: u32) -> (e: Self)
        ensures
            e == Self::of_code(code),
    {
        if code == 400 {
            AuthError::NoSuchAccount
        } else if code == 401 {
            AuthError::AccountDisabled
        } else if code == 402 {
            AuthError::PermissionDenied
        } else if code == 403 {
            AuthError::TwoStepRequired
        } else if code == 404 {
            AuthError::TwoStepCodeFailed
        } else {
            AuthError::Other(code)
        }
    }

    /// The fixed text that describes the error.
    pub fn description(&self) -> (text: &'static str)
        ensures
            text@ == self.description_text(),
    {
        match self {
            AuthError::NoSuchAccount => "No such account or incorrect password",
            AuthError::AccountDisabled => "Account disabled",
            AuthError::PermissionDenied => "Permission denied",
            AuthError::TwoStepRequired => "2-step verification code required",
            AuthError::TwoStepCodeFailed => "Failed to authenticate 2-step verification code",
            AuthError::Other(_) => "Unknown authentication error",
            AuthError::ParseError => "Failed to parse authentication response",
        }
    }

    /// The error as it is shown to the user.
    pub fn to_string(&self) -> (text: String)
        ensures
            text@ == self.display_text(),
    {
        let mut text = String::from_str(self.description());
        match self {
            AuthError::Other(code) => {
                text.append(" (code ");
                push_decimal(&mut text, *code as u64);
                text.append(")");
            },
            _ => {},
        }
        text
    }
}
/// Why a task could not be created.
#[derive(Debug, Clone, Copy, PartialEq, Eq, Structural)]
pub enum TaskError {
    /// Code 400.
    FileUploadFailed,
    /// Code 401.
    MaxNumberOfTasksReached,
    /// Code 402.
    DestinationDenied,
    /// Code 403.
    DestinationDoesNotExist,
    /// Code 404.
    InvalidTaskId,
    /// Code 405.
    InvalidTaskAction,
    /// Code 406.
    NoDefaultDestination,
    /// Code 407.
    SetDestinationFailed,
    /// Code 408.
    FileDoesNotExist,
    /// Code 700.
    EmptyFile,
    /// Code 701.
    EmptyFilePath,
    /// Code 702.
    NotTorrentFile,
    /// A code the service's documentation does not list.
    Other(u32),
    /// The reply could not be read, or never arrived.
    ParseError,
}

impl TaskError {
    /// The error that a numeric code stands for.
    pub open spec fn of_code(code: u32) -> TaskError {
        if code == 400 {
            TaskError::FileUploadFailed
        } else if code == 401 {
            TaskError::MaxNumberOfTasksReached
        } else if code == 402 {
            TaskError::DestinationDenied
        } else if code == 403 {
            TaskError::DestinationDoesNotExist
        } else if code == 404 {
            TaskError::InvalidTaskId
        } else if code == 405 {
            TaskError::InvalidTaskAction
        } else if code == 406 {
            TaskError::NoDefaultDestination
        } else if code == 407 {
            TaskError::SetDestinationFailed
        } else if code == 408 {
            TaskError::FileDoesNotExist
        } else if code == 700 {
            TaskError::EmptyFile
        } else if code == 701 {
            TaskError::EmptyFilePath
        } else if code == 702 {
            TaskError::NotTorrentFile
        } else {
            TaskError::Other(code)
        }
    }

    /// The fixed text that describes the error.
    pub open spec fn description_text(self) -> Seq<char> {
        match self {
            TaskError::FileUploadFailed => "File upload failed"@,
            TaskError::MaxNumberOfTasksReached => "Maximum number of tasks reached"@,
            TaskError::DestinationDenied => "Destination denied"@,
            TaskError::DestinationDoesNotExist => "Destination does not exist"@,
            TaskError::InvalidTaskId => "Invalid task ID"@,
            TaskError::InvalidTaskAction => "Invalid task action"@,
            TaskError::NoDefaultDestination => "No default destination configured"@,
            TaskError::SetDestinationFailed => "Setting destination failed"@,
            TaskError::FileDoesNotExist => "File does not exist"@,
            TaskError::EmptyFile => "File is empty"@,
            TaskError::EmptyFilePath => "No file path found"@,
            TaskError::NotTorrentFile => "Not a .torrent file"@,
            TaskError::Other(_) => "Unknown error"@,
            TaskError::ParseError => "Failed to parse response"@,
        }
    }

    /// The error as it is shown: the description, and for an unlisted code
    /// the code after it.
    pub open spec fn display_text(self) -> Seq<char> {
        match self {
            TaskError::Other(code) => self.description_text() + " (code "@ + decimal(code as nat)
                + ")"@,
            _ => self.description_text(),
        }
    }

    /// Maps a numeric code of the service to an error; a code that is not
    /// listed is kept in `Other`.
    pub fn from_code(code: u32) -> (e: Self)
        ensures
            e == Self::of_code(code),
    {
        if code == 400 {
            TaskError::FileUploadFailed
        } else if code == 401 {
            TaskError::MaxNumberOfTasksReached
        } else if code == 402 {
            TaskError::DestinationDenied
        } else if code == 403 {
            TaskError::DestinationDoesNotExist
        } else if code == 404 {
            TaskError::InvalidTaskId
        } else if code == 405 {
            TaskError::InvalidTaskAction
        } else if code == 406 {
            TaskError::NoDefaultDestination
        } else if code == 407 {
            TaskError::SetDestinationFailed
        } else if code == 408 {
            TaskError::FileDoesNotExist
        } else if code == 700 {
            TaskError::EmptyFile
        } else if code == 701 {
            TaskError::EmptyFilePath
        } else if code == 702 {
            TaskError::NotTorrentFile
        } else {
            TaskError::Other(code)
        }
    }

    /// The fixed text that describes the error.
    pub fn description(&self) -> (text: &'static str)
        ensures
            text@ == self.description_text(),
    {
        match self {
            TaskError::FileUploadFailed => "File upload failed",
            TaskError::MaxNumberOfTasksReached => "Maximum number of tasks reached",
            TaskError::DestinationDenied => "Destination denied",
            TaskError::DestinationDoesNotExist => "Destination does not exist",
            TaskError::InvalidTaskId => "Invalid task ID",
            TaskError::InvalidTaskAction => "Invalid task action",
            TaskError::NoDefaultDestination => "No default destination configured",
            TaskError::SetDestinationFailed => "Setting destination failed",
            TaskError::FileDoesNotExist => "File does not exist",
            TaskError::EmptyFile => "File is empty",
            TaskError::EmptyFilePath => "No file path found",
            TaskError::NotTorrentFile => "Not a .torrent file",
            TaskError::Other(_) => "Unknown error",
            TaskError::ParseError => "Failed to parse response",
        }
    }

    /// The error as it is shown to the user.
    pub fn to_string(&self) -> (text: String)
        ensures
            text@ == self.display_text(),
    {
        let mut text = String::from_str(self.description());
        match self {
            TaskError::Other(code) => {
                text.append(" (code ");
                push_decimal(&mut text, *code as u64);
                text.append(")");
            },
            _ => {},
        }
        text
    }
}
} // verus!
