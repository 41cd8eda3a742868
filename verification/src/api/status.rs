//! The status of a task, which the service sends as a number or as a name.

use vstd::prelude::*;

verus! {

/// A task's status as the service sent it.
#[derive(Debug, Clone, PartialEq, Eq)]
pub enum TaskStatus {
    /// A numeric status code.
    Code(u64),
    /// A status name, used as it is.
    Name(String),
}

/// A status with its name as plain characters.
pub enum StatusView {
    Code(u64),
    Name(Seq<char>),
}

impl View for TaskStatus {
    type V = StatusView;

    open spec fn view(&self) -> StatusView {
        match self {
            TaskStatus::Code(code) => StatusView::Code(*code),
            TaskStatus::Name(name) => StatusView::Name(name@),
        }
    }
}

/// The label of a numeric status code; `unknown` for a code without one.
pub open spec fn code_label(code: u64) -> Seq<char> {
    if code == 1 {
        "waiting"@
    } else if code == 2 {
        "downloading"@
    } else if code == 3 {
        "paused"@
    } else if code == 4 {
        "finishing"@
    } else if code == 5 {
        "finished"@
    } else if code == 6 {
        "hash_checking"@
    } else if code == 7 {
        "preseeding"@
    } else if code == 8 {
        "seeding"@
    } else if code == 9 {
        "filehost_waiting"@
    } else if code == 10 {
        "extracting"@
    } else if code == 11 {
        "preprocessing"@
    } else if code == 12 {
        "preprocesspass"@
    } else if code == 13 {
        "downloaded"@
    } else if code == 14 {
        "postprocessing"@
    } else if code == 15 {
        "captcha_needed"@
    } else if code == 101 {
        "error"@
    } else if code == 102 {
        "broken_link"@
    } else if code == 103 {
        "dest_not_exists"@
    } else if code == 104 {
        "dest_deny"@
    } else if code == 105 {
        "disk_full"@
    } else if code == 106 {
        "quota_reached"@
    } else if code == 107 {
        "timeout"@
    } else if code == 108 {
        "exceed_max_fs_size"@
    } else if code == 109 {
        "exceed_max_temp_fs_size"@
    } else if code == 110 {
        "exceed_max_dest_fs_size"@
    } else if code == 111 {
        "name_too_long_encryption"@
    } else if code == 112 {
        "name_too_long"@
    } else if code == 113 {
        "duplicate_torrent"@
    } else if code == 114 {
        "file_does_not_exist"@
    } else if code == 115 {
        "premium_required"@
    } else if code == 116 {
        "not_supported_type"@
    } else if code == 117 {
        "ftp_encrypt_not_supported"@
    } else if code == 118 {
        "extract_failed"@
    } else if code == 119 {
        "extract_wrong_pasword"@
    } else if code == 120 {
        "extract_invalid_archive"@
    } else if code == 121 {
        "extract_quota_reached"@
    } else if code == 122 {
        "extract_disk_full"@
    } else if code == 123 {
        "invalid_torrent"@
    } else if code == 124 {
        "account_required"@
    } else if code == 125 {
        "try_it_later"@
    } else if code == 126 {
        "encryption_error"@
    } else if code == 127 {
        "missing_python_executable"@
    } else if code == 128 {
        "private_video"@
    } else if code == 129 {
        "extract_folder_does_not_exist"@
    } else if code == 130 {
        "nzb_missing_article"@
    } else if code == 131 {
        "duplicate_edonkey_link"@
    } else if code == 132 {
        "duplicate_dest_file"@
    } else if code == 133 {
        "archive_repair_failed"@
    } else if code == 134 {
        "invalid_account_password"@
    } else {
        "unknown"@
    }
}

impl StatusView {
    /// The label of the status: a name as it is, a code by the table.
    pub open spec fn label(self) -> Seq<char> {
        match self {
            StatusView::Name(name) => name,
            StatusView::Code(code) => code_label(code),
        }
    }
}

/// The label of a numeric status code; `unknown` for a code without one.
pub fn label_of_code(code: u64) -> (label: &'static str)
    ensures
        label@ == code_label(code),
{
    if code == 1 {
        "waiting"
    } else if code == 2 {
        "downloading"
    } else if code == 3 {
        "paused"
    } else if code == 4 {
        "finishing"
    } else if code == 5 {
        "finished"
    } else if code == 6 {
        "hash_checking"
    } else if code == 7 {
        "preseeding"
    } else if code == 8 {
        "seeding"
    } else if code == 9 {
        "filehost_waiting"
    } else if code == 10 {
        "extracting"
    } else if code == 11 {
        "preprocessing"
    } else if code == 12 {
        "preprocesspass"
    } else if code == 13 {
        "downloaded"
    } else if code == 14 {
        "postprocessing"
    } else if code == 15 {
        "captcha_needed"
    } else if code == 101 {
        "error"
    } else if code == 102 {
        "broken_link"
    } else if code == 103 {
        "dest_not_exists"
    } else if code == 104 {
        "dest_deny"
    } else if code == 105 {
        "disk_full"
    } else if code == 106 {
        "quota_reached"
    } else if code == 107 {
        "timeout"
    } else if code == 108 {
        "exceed_max_fs_size"
    } else if code == 109 {
        "exceed_max_temp_fs_size"
    } else if code == 110 {
        "exceed_max_dest_fs_size"
    } else if code == 111 {
        "name_too_long_encryption"
    } else if code == 112 {
        "name_too_long"
    } else if code == 113 {
        "duplicate_torrent"
    } else if code == 114 {
        "file_does_not_exist"
    } else if code == 115 {
        "premium_required"
    } else if code == 116 {
        "not_supported_type"
    } else if code == 117 {
        "ftp_encrypt_not_supported"
    } else if code == 118 {
        "extract_failed"
    } else if code == 119 {
        "extract_wrong_pasword"
    } else if code == 120 {
        "extract_invalid_archive"
    } else if code == 121 {
        "extract_quota_reached"
    } else if code == 122 {
        "extract_disk_full"
    } else if code == 123 {
        "invalid_torrent"
    } else if code == 124 {
        "account_required"
    } else if code == 125 {
        "try_it_later"
    } else if code == 126 {
        "encryption_error"
    } else if code == 127 {
        "missing_python_executable"
    } else if code == 128 {
        "private_video"
    } else if code == 129 {
        "extract_folder_does_not_exist"
    } else if code == 130 {
        "nzb_missing_article"
    } else if code == 131 {
        "duplicate_edonkey_link"
    } else if code == 132 {
        "duplicate_dest_file"
    } else if code == 133 {
        "archive_repair_failed"
    } else if code == 134 {
        "invalid_account_password"
    } else {
        "unknown"
    }
}

impl TaskStatus {
    /// The human label of the status: a name is used verbatim, a code is
    /// looked up, and a code that is not in the table gives `unknown`.
    pub fn label(&self) -> (label: &str)
        ensures
            label@ == self@.label(),
    {
        match self {
            TaskStatus::Name(name) => name.as_str(),
            TaskStatus::Code(code) => label_of_code(*code),
        }
    }

    /// A copy of the status.
    pub fn duplicate(&self) -> (copy: TaskStatus)
        ensures
            copy@ == self@,
    {
        match self {
            TaskStatus::Name(name) => TaskStatus::Name(name.clone()),
            TaskStatus::Code(code) => TaskStatus::Code(*code),
        }
    }
}

} // verus!
