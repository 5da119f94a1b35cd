//! Control-protocol layer for the pan/tilt/zoom (PTZ) controls of UVC video
//! capture devices: per-selector wire-format codecs, unit and node addressing,
//! and the read-modify-write coordination that compound pan/tilt controls need.

use vstd::prelude::*;

pub mod channel;
pub mod codec;
pub mod coordinator;
pub mod device;
pub mod link;
pub mod mock;
pub mod resolver;
pub mod selector;
pub mod usb;

verus! {

/// Failure kinds of the control core.
///
/// Every operation of the library returns one of these on failure; no error is
/// swallowed inside the core.
#[derive(Clone, Copy, Debug, PartialEq, Eq, Structural)]
pub enum Error {
    /// The device gave no response within the channel's bounded timeout.
    Timeout,
    /// A low-level I/O or host-API failure.
    TransportError,
    /// The device rejected or stalled the request.
    Unsupported,
    /// No suitable video-control interface was located at open time.
    InterfaceNotFound,
    /// Node or unit probing was exhausted without a success.
    AddressNotFound,
}

/// Capability set of one logical axis: minimum, maximum, resolution (step)
/// and default, as signed 32-bit logical values.
#[derive(Clone, Copy, Debug, PartialEq, Eq, Structural)]
pub struct Caps {
    pub min: i32,
    pub max: i32,
    pub res: i32,
    pub def: i32,
}

/// The sub-transaction of a control: one request kind per wire request code.
#[derive(Clone, Copy, Debug, PartialEq, Eq, Structural)]
pub enum Request {
    SetCur,
    GetCur,
    GetMin,
    GetMax,
    GetRes,
    GetLen,
    GetInfo,
    GetDef,
}

impl Request {
    /// The wire request code of this request kind.
    pub open spec fn code_spec(self) -> u8 {
        match self {
            Request::SetCur => 0x01,
            Request::GetCur => 0x81,
            Request::GetMin => 0x82,
            Request::GetMax => 0x83,
            Request::GetRes => 0x84,
            Request::GetLen => 0x85,
            Request::GetInfo => 0x86,
            Request::GetDef => 0x87,
        }
    }

    pub fn code(self) -> (r: u8)
        ensures
            r == self.code_spec(),
    {
        match self {
            Request::SetCur => 0x01,
            Request::GetCur => 0x81,
            Request::GetMin => 0x82,
            Request::GetMax => 0x83,
            Request::GetRes => 0x84,
            Request::GetLen => 0x85,
            Request::GetInfo => 0x86,
            Request::GetDef => 0x87,
        }
    }
}

} // verus!
