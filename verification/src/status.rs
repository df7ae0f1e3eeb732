//! Status codes of the driver, and what a reply's status means.

use nvml_wrapper::error::nvml_try;
use nvml_wrapper::error::nvml_try_count;
use nvml_wrapper::error::NvmlError;
use nvml_wrapper_sys::bindings::nvmlReturn_t;
use vstd::prelude::*;

verus! {

/// The status with which the driver reports that a call went through.
pub const STATUS_SUCCESS: u32 = 0;

/// The status with which the driver reports that the buffer it was given
/// cannot hold what it has to return.
pub const STATUS_INSUFFICIENT_SIZE: u32 = 7;

/// `nvml_wrapper::error::NvmlError`, the error that `nvml_try` answers
/// with. Nothing is known of what a value of it holds.
#[verifier::external_type_specification]
#[verifier::external_body]
pub struct ExNvmlError(NvmlError);

/// `nvml_wrapper::error::nvml_try` turns a driver status into a `Result`.
/// Not proved here: it answers `Ok` for the success status and for no other.
pub assume_specification[ nvml_try ](code: nvmlReturn_t) -> (r: Result<(), NvmlError>)
    ensures
        r is Ok <==> code == STATUS_SUCCESS,
;

/// `nvml_wrapper::error::nvml_try_count` is `nvml_try` for calls that hand
/// back a size. Not proved here: it answers `Ok` for the success status and
/// for the status "insufficient size", and for no other.
pub assume_specification[ nvml_try_count ](code: nvmlReturn_t) -> (r: Result<(), NvmlError>)
    ensures
        r is Ok <==> code == STATUS_SUCCESS || code == STATUS_INSUFFICIENT_SIZE,
;

/// What the status of a reply says about the call it answers.
#[derive(Clone, Copy, Debug, PartialEq, Eq, Structural)]
pub enum StatusClass {
    /// The call went through.
    Success,
    /// The buffer was too small; the reply's count is the size that is needed.
    InsufficientSize,
    /// The driver refused the call or failed.
    Failure,
}

/// The class of a status code.
pub open spec fn class_of(code: u32) -> StatusClass {
    if code == STATUS_SUCCESS {
        StatusClass::Success
    } else if code == STATUS_INSUFFICIENT_SIZE {
        StatusClass::InsufficientSize
    } else {
        StatusClass::Failure
    }
}

/// Classifies the status of a driver reply.
pub fn classify(code: u32) -> (class: StatusClass)
    ensures
        class == class_of(code),
{
    match nvml_try(code) {
        Ok(()) => StatusClass::Success,
        Err(_) => match nvml_try_count(code) {
            Ok(()) => StatusClass::InsufficientSize,
            Err(_) => StatusClass::Failure,
        },
    }
}

} // verus!
