//! The transport error model: the faults a bus can report, and the two-tier
//! classification that callers of a socket see.

use vstd::prelude::*;

verus! {

/// A fault reported by the USB bus.
#[derive(Clone, Copy, Debug, PartialEq, Eq, Structural)]
pub enum UsbError {
    /// Input/output error.
    Io,
    /// Invalid parameter, such as an endpoint of the wrong direction.
    InvalidParam,
    /// Access denied.
    Access,
    /// No such device; it may have been disconnected.
    NoDevice,
    /// Entity not found.
    NotFound,
    /// Resource busy.
    Busy,
    /// The operation timed out.
    Timeout,
    /// The device offered more data than the buffer could take.
    Overflow,
    /// The endpoint halted.
    Pipe,
    /// A system call was interrupted.
    Interrupted,
    /// Insufficient memory.
    NoMem,
    /// The operation is not supported on this platform.
    NotSupported,
    /// The device returned a malformed descriptor.
    BadDescriptor,
    /// Any other fault.
    Other,
}

/// What a failure means for the channel. A receive can fail either way; a
/// send only fatally.
#[derive(Clone, Copy, Debug, PartialEq, Eq, Structural)]
pub enum ConnectionError {
    /// Nothing was received, but the channel is intact: the caller may retry.
    TryAgain(UsbError),
    /// The channel must be treated as broken.
    Other(UsbError),
}

impl UsbError {
    /// The faults after which a receive may simply be tried again: a timeout
    /// and an overflow. Every other fault is fatal.
    pub open spec fn is_transient(self) -> bool {
        self == UsbError::Timeout || self == UsbError::Overflow
    }

    /// The fault of this library that stands for a fault reported by the bus:
    /// the one of the same name.
    pub open spec fn of_native(native: rusb::Error) -> UsbError {
        match native {
            rusb::Error::Io => UsbError::Io,
            rusb::Error::InvalidParam => UsbError::InvalidParam,
            rusb::Error::Access => UsbError::Access,
            rusb::Error::NoDevice => UsbError::NoDevice,
            rusb::Error::NotFound => UsbError::NotFound,
            rusb::Error::Busy => UsbError::Busy,
            rusb::Error::Timeout => UsbError::Timeout,
            rusb::Error::Overflow => UsbError::Overflow,
            rusb::Error::Pipe => UsbError::Pipe,
            rusb::Error::Interrupted => UsbError::Interrupted,
            rusb::Error::NoMem => UsbError::NoMem,
            rusb::Error::NotSupported => UsbError::NotSupported,
            rusb::Error::BadDescriptor => UsbError::BadDescriptor,
            rusb::Error::Other => UsbError::Other,
        }
    }

    /// Takes a fault reported by the bus into this library's terms. This is
    /// the one place where a fault of the bus's own type is looked at.
    pub fn from_native(native: rusb::Error) -> (r: UsbError)
        ensures
            r == Self::of_native(native),
    {
        match native {
            rusb::Error::Io => UsbError::Io,
            rusb::Error::InvalidParam => UsbError::InvalidParam,
            rusb::Error::Access => UsbError::Access,
            rusb::Error::NoDevice => UsbError::NoDevice,
            rusb::Error::NotFound => UsbError::NotFound,
            rusb::Error::Busy => UsbError::Busy,
            rusb::Error::Timeout => UsbError::Timeout,
            rusb::Error::Overflow => UsbError::Overflow,
            rusb::Error::Pipe => UsbError::Pipe,
            rusb::Error::Interrupted => UsbError::Interrupted,
            rusb::Error::NoMem => UsbError::NoMem,
            rusb::Error::NotSupported => UsbError::NotSupported,
            rusb::Error::BadDescriptor => UsbError::BadDescriptor,
            rusb::Error::Other => UsbError::Other,
        }
    }

    /// Tells whether a receive that met this fault may be retried.
    pub fn transient(self) -> (r: bool)
        ensures
            r == self.is_transient(),
    {
        match self {
            UsbError::Timeout => true,
            UsbError::Overflow => true,
            _ => false,
        }
    }
}

impl ConnectionError {
    /// The classification of a fault met while receiving.
    pub open spec fn classify(cause: UsbError) -> ConnectionError {
        if cause.is_transient() {
            ConnectionError::TryAgain(cause)
        } else {
            ConnectionError::Other(cause)
        }
    }

    /// The fault behind this error.
    pub open spec fn spec_cause(self) -> UsbError {
        match self {
            ConnectionError::TryAgain(c) => c,
            ConnectionError::Other(c) => c,
        }
    }

    /// Classifies a fault met while receiving: transient for a timeout or an
    /// overflow, fatal for everything else.
    pub fn from_recv_fault(cause: UsbError) -> (r: ConnectionError)
        ensures
            r == Self::classify(cause),
    {
        if cause.transient() {
            ConnectionError::TryAgain(cause)
        } else {
            ConnectionError::Other(cause)
        }
    }

    /// Tells whether the operation may be retried on the same channel.
    pub fn is_try_again(&self) -> (r: bool)
        ensures
            r == (*self is TryAgain),
    {
        match self {
            ConnectionError::TryAgain(_) => true,
            ConnectionError::Other(_) => false,
        }
    }

    /// The fault behind this error.
    #[verifier::when_used_as_spec(spec_cause)]
    pub fn cause(self) -> (r: UsbError)
        ensures
            r == self.spec_cause(),
    {
        match self {
            ConnectionError::TryAgain(c) => c,
            ConnectionError::Other(c) => c,
        }
    }
}

} // verus!
