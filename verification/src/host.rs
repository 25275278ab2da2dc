//! What the host hands over when one of its calls fails, and the status
//! codes by which it tells of a failure.

use vstd::prelude::*;
use vstd::string::*;

verus! {

/// A failure that the host reported: its status code and its message.
#[derive(Clone, Debug, PartialEq, Eq)]
pub struct HostError {
    pub code: i32,
    pub message: String,
}

impl HostError {
    /// A second value equal to this one.
    pub fn duplicate(&self) -> (r: HostError)
        ensures
            r == *self,
    {
        HostError { code: self.code, message: self.message.clone() }
    }
}

/// The status code that stands for a Win32 error code: zero and codes with
/// the failure bit set are kept; any other code is put into the Win32
/// facility (7) with the failure bit set. The result is read as a signed
/// 32-bit number.
pub open spec fn hresult_of_win32(error: u32) -> int {
    if error == 0 {
        0
    } else if error >= 0x8000_0000 {
        error - 0x1_0000_0000
    } else {
        ((error & 0xFFFF) | 0x8007_0000) - 0x1_0000_0000
    }
}

/// `windows::core::HRESULT::from_win32`, and the number inside the status
/// code that it returns.
///
/// Trusted: zero and an error code with the highest bit set come back as
/// they are, read as a signed number; of any other error code the low 16
/// bits come back, with the facility 7 and the highest bit set.
#[verifier::external_body]
fn from_win32(error: u32) -> (r: i32)
    ensures
        r == hresult_of_win32(error),
{
    windows::core::HRESULT::from_win32(error).0
}

/// Maps a Win32 error code to the status code that stands for it.
pub fn hresult_from_win32(error: u32) -> (r: i32)
    ensures
        r == hresult_of_win32(error),
        error == 0 <==> r == 0,
        error != 0 ==> r < 0,
{
    let r: i32 = from_win32(error);
    assert(((error & 0xFFFF) | 0x8007_0000) >= 0x8000_0000u32) by (bit_vector);
    r
}

} // verus!
