use vstd::prelude::*;

use crate::status;
use crate::text::{push_signed_decimal, spec_signed_decimal};

verus! {

/// Matches `UNErrorDomain`.
pub const USER_NOTIFICATIONS_ERROR_DOMAIN: &'static str = "UNErrorDomain";

/// Wraps documented `UNErrorCode` values.
#[derive(Debug, Clone, Copy, PartialEq, Eq, Structural)]
pub enum UserNotificationsFrameworkErrorCode {
    /// The notifications not allowed variant.
    NotificationsNotAllowed,
    /// The attachment invalid url variant.
    AttachmentInvalidUrl,
    /// The attachment unrecognized type variant.
    AttachmentUnrecognizedType,
    /// The attachment invalid file size variant.
    AttachmentInvalidFileSize,
    /// The attachment not in data store variant.
    AttachmentNotInDataStore,
    /// The attachment move into data store failed variant.
    AttachmentMoveIntoDataStoreFailed,
    /// The attachment corrupt variant.
    AttachmentCorrupt,
    /// The notification invalid no date variant.
    NotificationInvalidNoDate,
    /// The notification invalid no content variant.
    NotificationInvalidNoContent,
    /// The content providing object not allowed variant.
    ContentProvidingObjectNotAllowed,
    /// The content providing invalid variant.
    ContentProvidingInvalid,
    /// The badge input invalid variant.
    BadgeInputInvalid,
}

impl UserNotificationsFrameworkErrorCode {
    /// The documented `UNErrorCode` value of each code.
    pub open spec fn spec_raw(self) -> i32 {
        match self {
            Self::NotificationsNotAllowed => 1,
            Self::AttachmentInvalidUrl => 100,
            Self::AttachmentUnrecognizedType => 101,
            Self::AttachmentInvalidFileSize => 102,
            Self::AttachmentNotInDataStore => 103,
            Self::AttachmentMoveIntoDataStoreFailed => 104,
            Self::AttachmentCorrupt => 105,
            Self::NotificationInvalidNoDate => 1400,
            Self::NotificationInvalidNoContent => 1401,
            Self::ContentProvidingObjectNotAllowed => 1500,
            Self::ContentProvidingInvalid => 1501,
            Self::BadgeInputInvalid => 1600,
        }
    }

    /// The code whose documented value is `raw`, if there is one.
    pub open spec fn spec_from_raw(raw: i32) -> Option<Self> {
        if raw == 1 {
            Some(Self::NotificationsNotAllowed)
        } else if raw == 100 {
            Some(Self::AttachmentInvalidUrl)
        } else if raw == 101 {
            Some(Self::AttachmentUnrecognizedType)
        } else if raw == 102 {
            Some(Self::AttachmentInvalidFileSize)
        } else if raw == 103 {
            Some(Self::AttachmentNotInDataStore)
        } else if raw == 104 {
            Some(Self::AttachmentMoveIntoDataStoreFailed)
        } else if raw == 105 {
            Some(Self::AttachmentCorrupt)
        } else if raw == 1400 {
            Some(Self::NotificationInvalidNoDate)
        } else if raw == 1401 {
            Some(Self::NotificationInvalidNoContent)
        } else if raw == 1500 {
            Some(Self::ContentProvidingObjectNotAllowed)
        } else if raw == 1501 {
            Some(Self::ContentProvidingInvalid)
        } else if raw == 1600 {
            Some(Self::BadgeInputInvalid)
        } else {
            None
        }
    }

    /// Converts a raw framework value into a documented error code.
    pub fn from_raw(raw: i32) -> (r: Option<Self>)
        ensures
            r == Self::spec_from_raw(raw),
            r matches Some(code) ==> code.spec_raw() == raw,
    {
        match raw {
            1 => Some(Self::NotificationsNotAllowed),
            100 => Some(Self::AttachmentInvalidUrl),
            101 => Some(Self::AttachmentUnrecognizedType),
            102 => Some(Self::AttachmentInvalidFileSize),
            103 => Some(Self::AttachmentNotInDataStore),
            104 => Some(Self::AttachmentMoveIntoDataStoreFailed),
            105 => Some(Self::AttachmentCorrupt),
            1400 => Some(Self::NotificationInvalidNoDate),
            1401 => Some(Self::NotificationInvalidNoContent),
            1500 => Some(Self::ContentProvidingObjectNotAllowed),
            1501 => Some(Self::ContentProvidingInvalid),
            1600 => Some(Self::BadgeInputInvalid),
            _ => None,
        }
    }
}

/// Every documented error code is found again from its raw value.
pub proof fn lemma_error_code_raw_round_trip(code: UserNotificationsFrameworkErrorCode)
    ensures
        UserNotificationsFrameworkErrorCode::spec_from_raw(code.spec_raw()) == Some(code),
{
}

/// Errors returned by the safe `UserNotifications` wrappers.
#[derive(Debug, Clone, PartialEq, Eq)]
#[non_exhaustive]
pub enum UserNotificationsError {
    /// Represents an invalid argument reported by the bridge.
    InvalidArgument(String),
    /// Represents an error returned by the `UserNotifications` framework.
    FrameworkError(String),
    /// Represents a bridge call that did not complete in time.
    TimedOut(String),
    /// Represents an unknown framework or bridge error code.
    Unknown {
        /// The raw error code.
        code: i32,
        /// The associated error message.
        message: String,
    },
}

impl UserNotificationsError {
    /// The raw status code of an error.
    pub open spec fn spec_code(&self) -> i32 {
        match self {
            Self::InvalidArgument(_) => status::INVALID_ARGUMENT,
            Self::FrameworkError(_) => status::FRAMEWORK_ERROR,
            Self::TimedOut(_) => status::TIMED_OUT,
            Self::Unknown { code, .. } => *code,
        }
    }

    /// The message of an error.
    pub open spec fn spec_message(&self) -> Seq<char> {
        match self {
            Self::InvalidArgument(message) => message@,
            Self::FrameworkError(message) => message@,
            Self::TimedOut(message) => message@,
            Self::Unknown { message, .. } => message@,
        }
    }

    /// The error that a status code and message stand for.
    pub open spec fn spec_from_status_message(status: i32, message: String) -> Self {
        if status == status::INVALID_ARGUMENT {
            Self::InvalidArgument(message)
        } else if status == status::FRAMEWORK_ERROR {
            Self::FrameworkError(message)
        } else if status == status::TIMED_OUT {
            Self::TimedOut(message)
        } else {
            Self::Unknown { code: status, message }
        }
    }

    /// Returns the raw status code for this error.
    pub fn code(&self) -> (r: i32)
        ensures
            r == self.spec_code(),
    {
        match self {
            Self::InvalidArgument(_) => status::INVALID_ARGUMENT,
            Self::FrameworkError(_) => status::FRAMEWORK_ERROR,
            Self::TimedOut(_) => status::TIMED_OUT,
            Self::Unknown { code, .. } => *code,
        }
    }

    /// Returns the human-readable message for this error.
    pub fn message(&self) -> (r: &str)
        ensures
            r@ == self.spec_message(),
    {
        match self {
            Self::InvalidArgument(message) => message.as_str(),
            Self::FrameworkError(message) => message.as_str(),
            Self::TimedOut(message) => message.as_str(),
            Self::Unknown { message, .. } => message.as_str(),
        }
    }

    /// The text shown for this error: its message, then its code in
    /// parentheses.
    pub fn to_display_string(&self) -> (r: String)
        ensures
            r@ == self.spec_message() + " (code "@ + spec_signed_decimal(self.spec_code() as int)
                + ")"@,
    {
        let mut out = String::from_str(self.message());
        out.append(" (code ");
        push_signed_decimal(&mut out, self.code() as i64);
        out.append(")");
        out
    }
}

/// Maps a bridge status code and its message to an error.
pub fn from_status_message(status: i32, message: String) -> (r: UserNotificationsError)
    ensures
        r == UserNotificationsError::spec_from_status_message(status, message),
{
    match status {
        status::INVALID_ARGUMENT => UserNotificationsError::InvalidArgument(message),
        status::FRAMEWORK_ERROR => UserNotificationsError::FrameworkError(message),
        status::TIMED_OUT => UserNotificationsError::TimedOut(message),
        code => UserNotificationsError::Unknown { code, message },
    }
}

/// The error made from a status code and a message reports that same code
/// and that same message.
pub proof fn lemma_status_message_round_trip(status: i32, message: String)
    ensures
        UserNotificationsError::spec_from_status_message(status, message).spec_code() == status,
        UserNotificationsError::spec_from_status_message(status, message).spec_message()
            == message@,
{
}

/// Turns a bridge status code into the outcome of the call: success for
/// `OK`, otherwise the error that the code and message stand for.
pub fn check_status(status: i32, message: String) -> (r: Result<(), UserNotificationsError>)
    ensures
        status == status::OK ==> r == Ok::<(), UserNotificationsError>(()),
        status != status::OK ==> r == Err::<(), UserNotificationsError>(
            UserNotificationsError::spec_from_status_message(status, message),
        ),
{
    if status == status::OK {
        Ok(())
    } else {
        Err(from_status_message(status, message))
    }
}

} // verus!
