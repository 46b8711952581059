//! Status and error codes of the driver interface.

#![allow(non_upper_case_globals)]

use vstd::prelude::*;

verus! {

/// A status code returned by a driver call: success, or one of the [`VAError`] codes.
///
/// The wrapped value is the code the driver interface uses; the associated
/// constants name the known codes.
#[derive(Clone, Copy, Debug, PartialEq, Eq, Structural)]
pub struct VAStatus(pub i32);

impl VAStatus {
    pub const SUCCESS: i32 = 0x00000000;
}

/// An error code returned by *libva*.
///
/// The wrapped value is the code the driver interface uses; the associated
/// constants name the known codes.
#[derive(Clone, Copy, Debug, PartialEq, Eq, Structural)]
pub struct VAError(pub i32);

impl VAError {
    pub const ERROR_OPERATION_FAILED: i32 = 0x00000001;
    pub const ERROR_ALLOCATION_FAILED: i32 = 0x00000002;
    pub const ERROR_INVALID_DISPLAY: i32 = 0x00000003;
    pub const ERROR_INVALID_CONFIG: i32 = 0x00000004;
    pub const ERROR_INVALID_CONTEXT: i32 = 0x00000005;
    pub const ERROR_INVALID_SURFACE: i32 = 0x00000006;
    pub const ERROR_INVALID_BUFFER: i32 = 0x00000007;
    pub const ERROR_INVALID_IMAGE: i32 = 0x00000008;
    pub const ERROR_INVALID_SUBPICTURE: i32 = 0x00000009;
    pub const ERROR_ATTR_NOT_SUPPORTED: i32 = 0x0000000a;
    pub const ERROR_MAX_NUM_EXCEEDED: i32 = 0x0000000b;
    pub const ERROR_UNSUPPORTED_PROFILE: i32 = 0x0000000c;
    pub const ERROR_UNSUPPORTED_ENTRYPOINT: i32 = 0x0000000d;
    pub const ERROR_UNSUPPORTED_RT_FORMAT: i32 = 0x0000000e;
    pub const ERROR_UNSUPPORTED_BUFFERTYPE: i32 = 0x0000000f;
    pub const ERROR_SURFACE_BUSY: i32 = 0x00000010;
    pub const ERROR_FLAG_NOT_SUPPORTED: i32 = 0x00000011;
    pub const ERROR_INVALID_PARAMETER: i32 = 0x00000012;
    pub const ERROR_RESOLUTION_NOT_SUPPORTED: i32 = 0x00000013;
    pub const ERROR_UNIMPLEMENTED: i32 = 0x00000014;
    pub const ERROR_SURFACE_IN_DISPLAYING: i32 = 0x00000015;
    pub const ERROR_INVALID_IMAGE_FORMAT: i32 = 0x00000016;
    pub const ERROR_DECODING_ERROR: i32 = 0x00000017;
    pub const ERROR_ENCODING_ERROR: i32 = 0x00000018;
    pub const ERROR_INVALID_VALUE: i32 = 0x00000019;
    pub const ERROR_UNSUPPORTED_FILTER: i32 = 0x00000020;
    pub const ERROR_INVALID_FILTER_CHAIN: i32 = 0x00000021;
    pub const ERROR_HW_BUSY: i32 = 0x00000022;
    pub const ERROR_UNSUPPORTED_MEMORY_TYPE: i32 = 0x00000024;
    pub const ERROR_NOT_ENOUGH_BUFFER: i32 = 0x00000025;
    pub const ERROR_TIMEDOUT: i32 = 0x00000026;
    pub const ERROR_UNKNOWN: i32 = -1;

    /// The name of a code, if the code is a known one.
    pub open spec fn name_of(code: i32) -> Option<&'static str> {
        if code == VAError::ERROR_OPERATION_FAILED {
            Some("ERROR_OPERATION_FAILED")
        } else if code == VAError::ERROR_ALLOCATION_FAILED {
            Some("ERROR_ALLOCATION_FAILED")
        } else if code == VAError::ERROR_INVALID_DISPLAY {
            Some("ERROR_INVALID_DISPLAY")
        } else if code == VAError::ERROR_INVALID_CONFIG {
            Some("ERROR_INVALID_CONFIG")
        } else if code == VAError::ERROR_INVALID_CONTEXT {
            Some("ERROR_INVALID_CONTEXT")
        } else if code == VAError::ERROR_INVALID_SURFACE {
            Some("ERROR_INVALID_SURFACE")
        } else if code == VAError::ERROR_INVALID_BUFFER {
            Some("ERROR_INVALID_BUFFER")
        } else if code == VAError::ERROR_INVALID_IMAGE {
            Some("ERROR_INVALID_IMAGE")
        } else if code == VAError::ERROR_INVALID_SUBPICTURE {
            Some("ERROR_INVALID_SUBPICTURE")
        } else if code == VAError::ERROR_ATTR_NOT_SUPPORTED {
            Some("ERROR_ATTR_NOT_SUPPORTED")
        } else if code == VAError::ERROR_MAX_NUM_EXCEEDED {
            Some("ERROR_MAX_NUM_EXCEEDED")
        } else if code == VAError::ERROR_UNSUPPORTED_PROFILE {
            Some("ERROR_UNSUPPORTED_PROFILE")
        } else if code == VAError::ERROR_UNSUPPORTED_ENTRYPOINT {
            Some("ERROR_UNSUPPORTED_ENTRYPOINT")
        } else if code == VAError::ERROR_UNSUPPORTED_RT_FORMAT {
            Some("ERROR_UNSUPPORTED_RT_FORMAT")
        } else if code == VAError::ERROR_UNSUPPORTED_BUFFERTYPE {
            Some("ERROR_UNSUPPORTED_BUFFERTYPE")
        } else if code == VAError::ERROR_SURFACE_BUSY {
            Some("ERROR_SURFACE_BUSY")
        } else if code == VAError::ERROR_FLAG_NOT_SUPPORTED {
            Some("ERROR_FLAG_NOT_SUPPORTED")
        } else if code == VAError::ERROR_INVALID_PARAMETER {
            Some("ERROR_INVALID_PARAMETER")
        } else if code == VAError::ERROR_RESOLUTION_NOT_SUPPORTED {
            Some("ERROR_RESOLUTION_NOT_SUPPORTED")
        } else if code == VAError::ERROR_UNIMPLEMENTED {
            Some("ERROR_UNIMPLEMENTED")
        } else if code == VAError::ERROR_SURFACE_IN_DISPLAYING {
            Some("ERROR_SURFACE_IN_DISPLAYING")
        } else if code == VAError::ERROR_INVALID_IMAGE_FORMAT {
            Some("ERROR_INVALID_IMAGE_FORMAT")
        } else if code == VAError::ERROR_DECODING_ERROR {
            Some("ERROR_DECODING_ERROR")
        } else if code == VAError::ERROR_ENCODING_ERROR {
            Some("ERROR_ENCODING_ERROR")
        } else if code == VAError::ERROR_INVALID_VALUE {
            Some("ERROR_INVALID_VALUE")
        } else if code == VAError::ERROR_UNSUPPORTED_FILTER {
            Some("ERROR_UNSUPPORTED_FILTER")
        } else if code == VAError::ERROR_INVALID_FILTER_CHAIN {
            Some("ERROR_INVALID_FILTER_CHAIN")
        } else if code == VAError::ERROR_HW_BUSY {
            Some("ERROR_HW_BUSY")
        } else if code == VAError::ERROR_UNSUPPORTED_MEMORY_TYPE {
            Some("ERROR_UNSUPPORTED_MEMORY_TYPE")
        } else if code == VAError::ERROR_NOT_ENOUGH_BUFFER {
            Some("ERROR_NOT_ENOUGH_BUFFER")
        } else if code == VAError::ERROR_TIMEDOUT {
            Some("ERROR_TIMEDOUT")
        } else if code == VAError::ERROR_UNKNOWN {
            Some("ERROR_UNKNOWN")
        } else {
            None
        }
    }

    /// The name of the code, if it is a known one.
    pub fn name(&self) -> (r: Option<&'static str>)
        ensures
            r == VAError::name_of(self.0),
    {
        if self.0 == VAError::ERROR_OPERATION_FAILED {
            Some("ERROR_OPERATION_FAILED")
        } else if self.0 == VAError::ERROR_ALLOCATION_FAILED {
            Some("ERROR_ALLOCATION_FAILED")
        } else if self.0 == VAError::ERROR_INVALID_DISPLAY {
            Some("ERROR_INVALID_DISPLAY")
        } else if self.0 == VAError::ERROR_INVALID_CONFIG {
            Some("ERROR_INVALID_CONFIG")
        } else if self.0 == VAError::ERROR_INVALID_CONTEXT {
            Some("ERROR_INVALID_CONTEXT")
        } else if self.0 == VAError::ERROR_INVALID_SURFACE {
            Some("ERROR_INVALID_SURFACE")
        } else if self.0 == VAError::ERROR_INVALID_BUFFER {
            Some("ERROR_INVALID_BUFFER")
        } else if self.0 == VAError::ERROR_INVALID_IMAGE {
            Some("ERROR_INVALID_IMAGE")
        } else if self.0 == VAError::ERROR_INVALID_SUBPICTURE {
            Some("ERROR_INVALID_SUBPICTURE")
        } else if self.0 == VAError::ERROR_ATTR_NOT_SUPPORTED {
            Some("ERROR_ATTR_NOT_SUPPORTED")
        } else if self.0 == VAError::ERROR_MAX_NUM_EXCEEDED {
            Some("ERROR_MAX_NUM_EXCEEDED")
        } else if self.0 == VAError::ERROR_UNSUPPORTED_PROFILE {
            Some("ERROR_UNSUPPORTED_PROFILE")
        } else if self.0 == VAError::ERROR_UNSUPPORTED_ENTRYPOINT {
            Some("ERROR_UNSUPPORTED_ENTRYPOINT")
        } else if self.0 == VAError::ERROR_UNSUPPORTED_RT_FORMAT {
            Some("ERROR_UNSUPPORTED_RT_FORMAT")
        } else if self.0 == VAError::ERROR_UNSUPPORTED_BUFFERTYPE {
            Some("ERROR_UNSUPPORTED_BUFFERTYPE")
        } else if self.0 == VAError::ERROR_SURFACE_BUSY {
            Some("ERROR_SURFACE_BUSY")
        } else if self.0 == VAError::ERROR_FLAG_NOT_SUPPORTED {
            Some("ERROR_FLAG_NOT_SUPPORTED")
        } else if self.0 == VAError::ERROR_INVALID_PARAMETER {
            Some("ERROR_INVALID_PARAMETER")
        } else if self.0 == VAError::ERROR_RESOLUTION_NOT_SUPPORTED {
            Some("ERROR_RESOLUTION_NOT_SUPPORTED")
        } else if self.0 == VAError::ERROR_UNIMPLEMENTED {
            Some("ERROR_UNIMPLEMENTED")
        } else if self.0 == VAError::ERROR_SURFACE_IN_DISPLAYING {
            Some("ERROR_SURFACE_IN_DISPLAYING")
        } else if self.0 == VAError::ERROR_INVALID_IMAGE_FORMAT {
            Some("ERROR_INVALID_IMAGE_FORMAT")
        } else if self.0 == VAError::ERROR_DECODING_ERROR {
            Some("ERROR_DECODING_ERROR")
        } else if self.0 == VAError::ERROR_ENCODING_ERROR {
            Some("ERROR_ENCODING_ERROR")
        } else if self.0 == VAError::ERROR_INVALID_VALUE {
            Some("ERROR_INVALID_VALUE")
        } else if self.0 == VAError::ERROR_UNSUPPORTED_FILTER {
            Some("ERROR_UNSUPPORTED_FILTER")
        } else if self.0 == VAError::ERROR_INVALID_FILTER_CHAIN {
            Some("ERROR_INVALID_FILTER_CHAIN")
        } else if self.0 == VAError::ERROR_HW_BUSY {
            Some("ERROR_HW_BUSY")
        } else if self.0 == VAError::ERROR_UNSUPPORTED_MEMORY_TYPE {
            Some("ERROR_UNSUPPORTED_MEMORY_TYPE")
        } else if self.0 == VAError::ERROR_NOT_ENOUGH_BUFFER {
            Some("ERROR_NOT_ENOUGH_BUFFER")
        } else if self.0 == VAError::ERROR_TIMEDOUT {
            Some("ERROR_TIMEDOUT")
        } else if self.0 == VAError::ERROR_UNKNOWN {
            Some("ERROR_UNKNOWN")
        } else {
            None
        }
    }
}

impl VAStatus {
    /// Whether the status is the success code.
    pub fn is_success(&self) -> (r: bool)
        ensures
            r == (self.0 == VAStatus::SUCCESS),
    {
        self.0 == VAStatus::SUCCESS
    }
}

impl From<VAError> for VAStatus {
    #[inline]
    fn from(e: VAError) -> (r: Self) {
        VAStatus(e.0)
    }
}

impl vstd::std_specs::convert::FromSpecImpl<VAError> for VAStatus {
    open spec fn obeys_from_spec() -> bool {
        true
    }

    open spec fn from_spec(e: VAError) -> Self {
        VAStatus(e.0)
    }
}

/// A failed driver call: where it was made and the code it returned.
#[derive(Clone, Copy, Debug, PartialEq, Eq)]
pub struct CallError {
    /// The name of the driver function that failed.
    pub location: &'static str,
    /// The error code the function returned.
    pub error: VAError,
}

/// Turns the status of a driver call that asks how many items there are
/// into a result: besides the success code, the code that says that there
/// are more items than fit is `Ok` too.
pub fn check_count(location: &'static str, status: VAStatus) -> (r: Result<(), CallError>)
    ensures
        r == (if status.0 == VAStatus::SUCCESS || status.0 == VAError::ERROR_MAX_NUM_EXCEEDED {
            Ok::<(), CallError>(())
        } else {
            Err::<(), CallError>(CallError { location, error: VAError(status.0) })
        }),
{
    if status.0 == VAError::ERROR_MAX_NUM_EXCEEDED {
        Ok(())
    } else {
        check(location, status)
    }
}

/// Turns the status of a driver call made at `location` into a result:
/// the success code is `Ok`, every other code an error that carries it.
pub fn check(location: &'static str, status: VAStatus) -> (r: Result<(), CallError>)
    ensures
        r == (if status.0 == VAStatus::SUCCESS {
            Ok::<(), CallError>(())
        } else {
            Err::<(), CallError>(CallError { location, error: VAError(status.0) })
        }),
{
    if status.is_success() {
        Ok(())
    } else {
        Err(CallError { location, error: VAError(status.0) })
    }
}

} // verus!
