//! Failures of native operations.

use vstd::prelude::*;

verus! {

/// The status code that stands for a failure of which the native layer tells
/// nothing more.
pub const GENERIC_FAILURE: i32 = -1;

/// Why a native operation did not produce its value.
#[derive(Clone, Copy, Debug, PartialEq, Eq, Structural)]
pub enum SpdkError {
    /// The native call that should have started the operation reported a
    /// nonzero status at once. No callback will come.
    SetupFailure { code: i32 },
    /// The operation was started, and the native layer reported a nonzero status
    /// for it.
    OperationFailure { code: i32 },
}

impl SpdkError {
    /// The native status code that the failure carries.
    pub open spec fn spec_code(self) -> i32 {
        match self {
            SpdkError::SetupFailure { code } => code,
            SpdkError::OperationFailure { code } => code,
        }
    }

    #[verifier::when_used_as_spec(spec_code)]
    pub fn code(self) -> (code: i32)
        ensures
            code == self.spec_code(),
    {
        match self {
            SpdkError::SetupFailure { code } => code,
            SpdkError::OperationFailure { code } => code,
        }
    }

    /// Reads the status that a native call returned: zero is success, anything
    /// else is a failure that carries the status.
    pub fn from_retval(retval: i32) -> (res: Result<(), SpdkError>)
        ensures
            res == status_outcome(retval, ()),
    {
        if retval == 0 {
            Ok(())
        } else {
            Err(SpdkError::OperationFailure { code: retval })
        }
    }

    /// Reads a native answer that only tells success from failure, such as a
    /// handle that may be null: a failure carries `GENERIC_FAILURE`.
    pub fn from_success(success: bool) -> (res: Result<(), SpdkError>)
        ensures
            res == flag_outcome(success, ()),
    {
        if success {
            Ok(())
        } else {
            Err(SpdkError::OperationFailure { code: GENERIC_FAILURE })
        }
    }
}

/// What a native status code and the value reported with it mean: status zero
/// is success with that value, any other status a failure that carries it.
pub open spec fn status_outcome<T>(status: i32, value: T) -> Result<T, SpdkError> {
    if status == 0 {
        Ok(value)
    } else {
        Err(SpdkError::OperationFailure { code: status })
    }
}

/// What a native success flag and the value reported with it mean.
pub open spec fn flag_outcome<T>(success: bool, value: T) -> Result<T, SpdkError> {
    if success {
        Ok(value)
    } else {
        Err(SpdkError::OperationFailure { code: GENERIC_FAILURE })
    }
}

} // verus!
