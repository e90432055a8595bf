//! Native status codes and the library's error type.
use vstd::prelude::*;

verus! {

/// Status returned by a native call that succeeded.
pub const STATUS_OK: u32 = 0;

/// Status returned by a native call whose deadline passed.
pub const STATUS_TIMEOUT: u32 = 3;

/// Status returned when the native layer does not support a request.
pub const STATUS_UNSUPPORTED: u32 = 20;

/// Status returned when a channel is read before a device is attached.
pub const STATUS_NOT_ATTACHED: u32 = 52;

/// What can go wrong on a channel.
#[derive(Debug, Clone, Copy, PartialEq, Eq, Structural)]
pub enum ChannelError {
    /// A native call failed with this status.
    NativeStatus(u32),
    /// Waiting for attachment exceeded its deadline.
    Timeout,
    /// A value was read while no device was attached.
    NotAttached,
    /// A payload handed in by the native layer had the wrong length.
    PayloadShape { expected: usize, found: usize },
    /// The request is not supported for this channel kind.
    Unsupported,
}

/// The error that a failing native status stands for.
pub open spec fn status_error(code: u32) -> ChannelError {
    if code == STATUS_TIMEOUT {
        ChannelError::Timeout
    } else if code == STATUS_NOT_ATTACHED {
        ChannelError::NotAttached
    } else if code == STATUS_UNSUPPORTED {
        ChannelError::Unsupported
    } else {
        ChannelError::NativeStatus(code)
    }
}

/// The numeric status an error carries, if it came from the native layer.
pub open spec fn error_code(e: ChannelError) -> Option<u32> {
    match e {
        ChannelError::NativeStatus(c) => Some(c),
        ChannelError::Timeout => Some(STATUS_TIMEOUT),
        ChannelError::NotAttached => Some(STATUS_NOT_ATTACHED),
        ChannelError::Unsupported => Some(STATUS_UNSUPPORTED),
        ChannelError::PayloadShape { .. } => None,
    }
}

/// Translates a native status into a result.
pub fn check_ret(code: u32) -> (r: Result<(), ChannelError>)
    ensures
        code == STATUS_OK <==> r is Ok,
        code != STATUS_OK ==> r == Err::<(), ChannelError>(status_error(code)),
{
    if code == STATUS_OK {
        Ok(())
    } else if code == STATUS_TIMEOUT {
        Err(ChannelError::Timeout)
    } else if code == STATUS_NOT_ATTACHED {
        Err(ChannelError::NotAttached)
    } else if code == STATUS_UNSUPPORTED {
        Err(ChannelError::Unsupported)
    } else {
        Err(ChannelError::NativeStatus(code))
    }
}

impl ChannelError {
    /// The numeric native status behind this error, if there is one.
    pub fn code(&self) -> (r: Option<u32>)
        ensures
            r == error_code(*self),
    {
        match self {
            ChannelError::NativeStatus(c) => Some(*c),
            ChannelError::Timeout => Some(STATUS_TIMEOUT),
            ChannelError::NotAttached => Some(STATUS_NOT_ATTACHED),
            ChannelError::Unsupported => Some(STATUS_UNSUPPORTED),
            ChannelError::PayloadShape { .. } => None,
        }
    }
}

/// Round trip: a failing status translates to an error that carries it.
pub proof fn lemma_status_code_kept(code: u32)
    requires
        code != STATUS_OK,
    ensures
        error_code(status_error(code)) == Some(code),
{
}

} // verus!
