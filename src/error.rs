//! The error kinds that every operation of the library reports.

use vstd::prelude::*;

verus! {

/// Why an operation was refused or did not complete.
///
/// Each kind is machine-distinguishable so that a presentation layer can
/// describe it in any language; only the failures of outside tools carry
/// their (trimmed) diagnostic text.
#[derive(Debug, Clone, PartialEq, Eq)]
pub enum LuksError {
    /// A path is not absolute, holds a NUL character or a `..` sequence.
    PathInvalid,
    /// The device path does not exist.
    DeviceNotFound,
    /// The device path is outside `/dev/` or is neither a block device nor a link.
    NotADeviceNode,
    /// The mount point does not exist.
    MountPointNotFound,
    /// The mount point is not a directory.
    NotADirectory,
    /// A mapper name or filesystem type holds forbidden characters or has a bad length.
    NameInvalid,
    /// A mapper name lacks the prefix of the mappings this library creates.
    NameNotOwned,
    /// The filesystem type is not on the allow-list.
    UnsupportedFilesystem,
    /// A mount option holds a shell metacharacter or a NUL character.
    OptionInjection,
    /// The mount option string is longer than its cap.
    OptionsTooLong,
    /// The escaped mount point is too long to be a file name.
    NameTooLong,
    /// The escaped mount point could still name a hidden or parent entry.
    TraversalDetected,
    /// No unused mapper name was found within the retry bound.
    IdentityExhausted,
    /// The state store could not be read or written.
    PersistenceFailed,
    /// The state-file location holds something other than a regular file.
    TamperDetected,
    /// The stored record is larger than its cap.
    RecordTooLarge,
    /// The device does not carry an encrypted volume header.
    NotEncrypted,
    /// The passphrase was not accepted.
    AuthenticationFailed,
    /// The open operation failed for another reason.
    OpenFailed(String),
    /// The close operation failed.
    CloseFailed(String),
    /// The mount operation failed.
    MountFailed(String),
    /// The unmount operation failed.
    UnmountFailed(String),
    /// The encryption probe could not be run.
    ProbeFailed(String),
    /// The mount point is not currently mounted.
    NotMounted,
    /// No mapping is known for the mount point.
    MappingNotFound,
    /// The calling process lacks administrative privilege.
    NotPrivileged,
}

/// The coarse classes into which the error kinds fall.
#[derive(Debug, Clone, Copy, PartialEq, Eq)]
pub enum ErrorCategory {
    /// A caller error; never retried.
    InputInvalid,
    /// A device, mount point or mapping is absent.
    NotFound,
    /// A generated identity collided too often.
    Conflict,
    /// The secret was wrong.
    AuthenticationFailed,
    /// An outside tool failed for another reason.
    ExternalOperationFailed,
    /// The state store failed.
    PersistenceFailed,
    /// The state-file location was tampered with.
    Tampered,
}

/// The class of an error kind.
pub open spec fn category_of(e: LuksError) -> ErrorCategory {
    match e {
        LuksError::DeviceNotFound | LuksError::MountPointNotFound | LuksError::NotMounted
        | LuksError::MappingNotFound => ErrorCategory::NotFound,
        LuksError::IdentityExhausted => ErrorCategory::Conflict,
        LuksError::AuthenticationFailed => ErrorCategory::AuthenticationFailed,
        LuksError::OpenFailed(_) | LuksError::CloseFailed(_) | LuksError::MountFailed(_)
        | LuksError::UnmountFailed(_) | LuksError::ProbeFailed(_) => {
            ErrorCategory::ExternalOperationFailed
        },
        LuksError::PersistenceFailed | LuksError::RecordTooLarge => ErrorCategory::PersistenceFailed,
        LuksError::TamperDetected => ErrorCategory::Tampered,
        _ => ErrorCategory::InputInvalid,
    }
}

impl LuksError {
    /// An equal copy of this error.
    pub fn duplicate(&self) -> (r: LuksError)
        ensures
            r == *self,
    {
        match self {
            LuksError::OpenFailed(t) => LuksError::OpenFailed(t.clone()),
            LuksError::CloseFailed(t) => LuksError::CloseFailed(t.clone()),
            LuksError::MountFailed(t) => LuksError::MountFailed(t.clone()),
            LuksError::UnmountFailed(t) => LuksError::UnmountFailed(t.clone()),
            LuksError::ProbeFailed(t) => LuksError::ProbeFailed(t.clone()),
            LuksError::PathInvalid => LuksError::PathInvalid,
            LuksError::DeviceNotFound => LuksError::DeviceNotFound,
            LuksError::NotADeviceNode => LuksError::NotADeviceNode,
            LuksError::MountPointNotFound => LuksError::MountPointNotFound,
            LuksError::NotADirectory => LuksError::NotADirectory,
            LuksError::NameInvalid => LuksError::NameInvalid,
            LuksError::NameNotOwned => LuksError::NameNotOwned,
            LuksError::UnsupportedFilesystem => LuksError::UnsupportedFilesystem,
            LuksError::OptionInjection => LuksError::OptionInjection,
            LuksError::OptionsTooLong => LuksError::OptionsTooLong,
            LuksError::NameTooLong => LuksError::NameTooLong,
            LuksError::TraversalDetected => LuksError::TraversalDetected,
            LuksError::IdentityExhausted => LuksError::IdentityExhausted,
            LuksError::PersistenceFailed => LuksError::PersistenceFailed,
            LuksError::TamperDetected => LuksError::TamperDetected,
            LuksError::RecordTooLarge => LuksError::RecordTooLarge,
            LuksError::NotEncrypted => LuksError::NotEncrypted,
            LuksError::AuthenticationFailed => LuksError::AuthenticationFailed,
            LuksError::NotMounted => LuksError::NotMounted,
            LuksError::MappingNotFound => LuksError::MappingNotFound,
            LuksError::NotPrivileged => LuksError::NotPrivileged,
        }
    }

    /// The class this error kind falls into.
    pub fn category(&self) -> (r: ErrorCategory)
        ensures
            r == category_of(*self),
    {
        match self {
            LuksError::DeviceNotFound | LuksError::MountPointNotFound | LuksError::NotMounted
            | LuksError::MappingNotFound => ErrorCategory::NotFound,
            LuksError::IdentityExhausted => ErrorCategory::Conflict,
            LuksError::AuthenticationFailed => ErrorCategory::AuthenticationFailed,
            LuksError::OpenFailed(_) | LuksError::CloseFailed(_) | LuksError::MountFailed(_)
            | LuksError::UnmountFailed(_) | LuksError::ProbeFailed(_) => {
                ErrorCategory::ExternalOperationFailed
            },
            LuksError::PersistenceFailed | LuksError::RecordTooLarge => {
                ErrorCategory::PersistenceFailed
            },
            LuksError::TamperDetected => ErrorCategory::Tampered,
            _ => ErrorCategory::InputInvalid,
        }
    }
}

} // verus!
