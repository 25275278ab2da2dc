//! Whether the notification center may be observed, decided from what the
//! host answered to the request for access.

use crate::host::hresult_from_win32;
use vstd::prelude::*;
use vstd::string::*;

verus! {

/// The code for a denied access as an unsigned number. Its highest bit is
/// set, so the conversion into a status code keeps it as it is.
pub const ACCESS_DENIED_UNSIGNED: u32 = 0x8007_0005;

/// The status code for a denied access: the same 32 bits, read as the signed
/// number that a status code is.
pub const ACCESS_DENIED: i32 = -2_147_024_891;

/// What the host answered to a request for access.
#[derive(Clone, Copy, Debug, PartialEq, Eq, Structural)]
pub enum AccessStatus {
    Unspecified,
    Allowed,
    Denied,
    /// An answer that this library does not know, with the host's number for it.
    Other(i32),
}

impl AccessStatus {
    /// The answer that the host's number stands for: 0 is `Unspecified`,
    /// 1 is `Allowed`, 2 is `Denied`.
    pub open spec fn of_raw(raw: i32) -> AccessStatus {
        if raw == 0 {
            AccessStatus::Unspecified
        } else if raw == 1 {
            AccessStatus::Allowed
        } else if raw == 2 {
            AccessStatus::Denied
        } else {
            AccessStatus::Other(raw)
        }
    }

    /// Reads the host's number for an answer.
    pub fn from_raw(raw: i32) -> (r: AccessStatus)
        ensures
            r == AccessStatus::of_raw(raw),
            r == AccessStatus::Allowed <==> raw == 1,
    {
        match raw {
            0 => AccessStatus::Unspecified,
            1 => AccessStatus::Allowed,
            2 => AccessStatus::Denied,
            _ => AccessStatus::Other(raw),
        }
    }
}

/// Why access to the notification center was not obtained.
#[derive(Clone, Copy, Debug, PartialEq, Eq, Structural)]
pub enum AccessError {
    /// The host answered with anything but `Allowed`.
    NotGranted,
}

/// The message of `AccessError::NotGranted`.
pub open spec fn not_granted_message() -> Seq<char> {
    "Notification access not granted"@
}

impl AccessError {
    /// The text to show for this error.
    pub open spec fn message_text(self) -> Seq<char> {
        not_granted_message()
    }

    /// The text to show for this error.
    pub fn message(&self) -> (r: &'static str)
        ensures
            r@ == self.message_text(),
            r@.len() > 0,
    {
        proof {
            reveal_strlit("Notification access not granted");
        }
        "Notification access not granted"
    }

    /// The host's status code for this error: that of a denied access.
    pub fn code(&self) -> (r: i32)
        ensures
            r == ACCESS_DENIED,
    {
        hresult_from_win32(ACCESS_DENIED_UNSIGNED)
    }
}

/// Settles a request for access that the host answered with `status`:
/// `Allowed` is success, every other answer is `NotGranted`, whose message
/// is not empty.
pub fn request_access(status: AccessStatus) -> (r: Result<(), AccessError>)
    ensures
        r == if status == AccessStatus::Allowed {
            Ok::<(), AccessError>(())
        } else {
            Err::<(), AccessError>(AccessError::NotGranted)
        },
        r matches Err(e) ==> e.message_text().len() > 0,
{
    match status {
        AccessStatus::Allowed => Ok(()),
        _ => {
            proof {
                reveal_strlit("Notification access not granted");
            }
            Err(AccessError::NotGranted)
        },
    }
}

} // verus!
