//! Native status codes and the typed errors they stand for.

use vstd::prelude::*;

verus! {

/// The call succeeded.
pub const STATUS_OK: i32 = 0;

pub const STATUS_GENERAL_ERROR: i32 = -1;

pub const STATUS_NOT_IMPLEMENTED: i32 = -2;

pub const STATUS_NETWORK_NOT_LOADED: i32 = -3;

pub const STATUS_PARAMETER_MISMATCH: i32 = -4;

pub const STATUS_NOT_FOUND: i32 = -5;

pub const STATUS_OUT_OF_BOUNDS: i32 = -6;

pub const STATUS_UNEXPECTED: i32 = -7;

pub const STATUS_REQUEST_BUSY: i32 = -8;

pub const STATUS_RESULT_NOT_READY: i32 = -9;

pub const STATUS_NOT_ALLOCATED: i32 = -10;

pub const STATUS_INFER_NOT_STARTED: i32 = -11;

pub const STATUS_NETWORK_NOT_READ: i32 = -12;

/// What can go wrong in a call to the engine. The set is closed: a status
/// that the engine may add later is reported as `Undefined`.
#[derive(Debug, Clone, Copy, PartialEq, Eq, Structural)]
pub enum InferenceError {
    GeneralError,
    NotImplemented,
    /// No model has been loaded.
    NetworkNotLoaded,
    ParameterMismatch,
    NotFound,
    OutOfBounds,
    Unexpected,
    /// The request is busy with an earlier call.
    RequestBusy,
    ResultNotReady,
    NotAllocated,
    /// Inference was asked for before it could start.
    InferNotStarted,
    /// The model has not been read.
    NetworkNotReady,
    /// A status outside the known range.
    Undefined,
}

/// The error that a status stands for; `None` for success.
pub open spec fn status_error(code: i32) -> Option<InferenceError> {
    if code == STATUS_OK {
        None
    } else if code == STATUS_GENERAL_ERROR {
        Some(InferenceError::GeneralError)
    } else if code == STATUS_NOT_IMPLEMENTED {
        Some(InferenceError::NotImplemented)
    } else if code == STATUS_NETWORK_NOT_LOADED {
        Some(InferenceError::NetworkNotLoaded)
    } else if code == STATUS_PARAMETER_MISMATCH {
        Some(InferenceError::ParameterMismatch)
    } else if code == STATUS_NOT_FOUND {
        Some(InferenceError::NotFound)
    } else if code == STATUS_OUT_OF_BOUNDS {
        Some(InferenceError::OutOfBounds)
    } else if code == STATUS_UNEXPECTED {
        Some(InferenceError::Unexpected)
    } else if code == STATUS_REQUEST_BUSY {
        Some(InferenceError::RequestBusy)
    } else if code == STATUS_RESULT_NOT_READY {
        Some(InferenceError::ResultNotReady)
    } else if code == STATUS_NOT_ALLOCATED {
        Some(InferenceError::NotAllocated)
    } else if code == STATUS_INFER_NOT_STARTED {
        Some(InferenceError::InferNotStarted)
    } else if code == STATUS_NETWORK_NOT_READ {
        Some(InferenceError::NetworkNotReady)
    } else {
        Some(InferenceError::Undefined)
    }
}

/// The outcome of a call that returned `code`.
pub open spec fn status_result(code: i32) -> Result<(), InferenceError> {
    match status_error(code) {
        None => Ok(()),
        Some(e) => Err(e),
    }
}

/// Whether `code` is one of the statuses the engine is known to return.
pub open spec fn is_known_status(code: i32) -> bool {
    STATUS_NETWORK_NOT_READ <= code <= STATUS_OK
}

/// The error of the first status in `statuses` that is not success; `None`
/// where all of them are.
pub open spec fn first_failure(statuses: Seq<i32>) -> Option<InferenceError>
    decreases statuses.len(),
{
    if statuses.len() == 0 {
        None
    } else if statuses[0] != STATUS_OK {
        status_error(statuses[0])
    } else {
        first_failure(statuses.skip(1))
    }
}

/// How many statuses at the front of `statuses` are success.
pub open spec fn leading_successes(statuses: Seq<i32>) -> nat
    decreases statuses.len(),
{
    if statuses.len() == 0 || statuses[0] != STATUS_OK {
        0
    } else {
        1 + leading_successes(statuses.skip(1))
    }
}

impl InferenceError {
    /// Turns the status of a native call into its outcome.
    pub fn from(e: i32) -> (r: Result<(), InferenceError>)
        ensures
            r == status_result(e),
    {
        if e == STATUS_OK {
            Ok(())
        } else if e == STATUS_GENERAL_ERROR {
            Err(InferenceError::GeneralError)
        } else if e == STATUS_NOT_IMPLEMENTED {
            Err(InferenceError::NotImplemented)
        } else if e == STATUS_NETWORK_NOT_LOADED {
            Err(InferenceError::NetworkNotLoaded)
        } else if e == STATUS_PARAMETER_MISMATCH {
            Err(InferenceError::ParameterMismatch)
        } else if e == STATUS_NOT_FOUND {
            Err(InferenceError::NotFound)
        } else if e == STATUS_OUT_OF_BOUNDS {
            Err(InferenceError::OutOfBounds)
        } else if e == STATUS_UNEXPECTED {
            Err(InferenceError::Unexpected)
        } else if e == STATUS_REQUEST_BUSY {
            Err(InferenceError::RequestBusy)
        } else if e == STATUS_RESULT_NOT_READY {
            Err(InferenceError::ResultNotReady)
        } else if e == STATUS_NOT_ALLOCATED {
            Err(InferenceError::NotAllocated)
        } else if e == STATUS_INFER_NOT_STARTED {
            Err(InferenceError::InferNotStarted)
        } else if e == STATUS_NETWORK_NOT_READ {
            Err(InferenceError::NetworkNotReady)
        } else {
            Err(InferenceError::Undefined)
        }
    }
}

/// Every status has one outcome. It is success for `STATUS_OK` alone, it is
/// `Undefined` exactly for the statuses outside the known range, and two
/// different known statuses never share an outcome.
pub proof fn status_mapping_total(a: i32, b: i32)
    ensures
        status_result(a) is Ok <==> a == STATUS_OK,
        status_result(a) == Err::<(), _>(InferenceError::Undefined) <==> !is_known_status(a),
        is_known_status(a) && is_known_status(b) && a != b ==> status_result(a) != status_result(b),
        a == b ==> status_result(a) == status_result(b),
{
}

} // verus!
