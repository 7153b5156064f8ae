//! Datagram-style transport over USB bulk endpoints, with the error taxonomy
//! and the channel state that make it interchangeable with other backends,
//! and the decisions of the release packaging.

pub mod bus;
pub mod channel;
pub mod error;
pub mod laws;
pub mod packaging;
pub mod usb;
