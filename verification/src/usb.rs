//! The USB control-transfer variant of the control channel: class-specific
//! interface requests on an opened device's default control endpoint.
//!
//! The two blocking transfer calls are the only trusted surface here; the
//! request addressing (wValue and wIndex packing) and the history keeping
//! around them are verified.

use vstd::prelude::*;
use crate::Error;
use crate::Request;
use crate::channel::{get_tx, set_tx, Address, ControlChannel, Tx};
use crate::selector::Selector;

verus! {

/// Milliseconds one control transfer may wait before the channel reports
/// `Timeout`: the bounded round-trip time of every get and set.
pub const TIMEOUT_MS: u32 = 1000;

#[verifier::external_type_specification]
#[verifier::external_body]
pub struct ExDevice(nusb::Device);

/// Relies on nusb::Device::control_in_blocking: one blocking IN transfer of a
/// class-specific interface request on the default control endpoint. The
/// buffer handed back is the `width`-byte buffer allocated here; a short
/// transfer leaves its tail zeroed, as the transferred count is not
/// inspected. The Linux backend reports a lapsed timeout as
/// `TransferError::Cancelled` and a device stall as `TransferError::Stall`;
/// it panics on lengths over `u16::MAX`, which the precondition rules out.
#[verifier::external_body]
fn usb_control_in(
    dev: &nusb::Device,
    request: u8,
    value: u16,
    index: u16,
    width: usize,
    timeout_ms: u32,
) -> (r: Result<Vec<u8>, Error>)
    requires
        width <= 0xffff,
    ensures
        r matches Ok(b) ==> b@.len() == width,
        r matches Err(e) ==> e == Error::Timeout || e == Error::Unsupported || e
            == Error::TransportError,
{
    let mut data = vec![0u8; width];
    let control = nusb::transfer::Control {
        control_type: nusb::transfer::ControlType::Class,
        recipient: nusb::transfer::Recipient::Interface,
        request,
        value,
        index,
    };
    let timeout = std::time::Duration::from_millis(timeout_ms as u64);
    match dev.control_in_blocking(control, &mut data, timeout) {
        Ok(_) => Ok(data),
        Err(nusb::transfer::TransferError::Cancelled) => Err(Error::Timeout),
        Err(nusb::transfer::TransferError::Stall) => Err(Error::Unsupported),
        Err(_) => Err(Error::TransportError),
    }
}

/// Relies on nusb::Device::control_out_blocking: one blocking OUT transfer of
/// a class-specific interface request carrying `data` on the default control
/// endpoint. Error mapping and the length precondition are as for the IN
/// transfer above.
#[verifier::external_body]
fn usb_control_out(
    dev: &nusb::Device,
    request: u8,
    value: u16,
    index: u16,
    data: &[u8],
    timeout_ms: u32,
) -> (r: Result<(), Error>)
    requires
        data@.len() <= 0xffff,
    ensures
        r matches Err(e) ==> e == Error::Timeout || e == Error::Unsupported || e
            == Error::TransportError,
{
    let control = nusb::transfer::Control {
        control_type: nusb::transfer::ControlType::Class,
        recipient: nusb::transfer::Recipient::Interface,
        request,
        value,
        index,
    };
    let timeout = std::time::Duration::from_millis(timeout_ms as u64);
    match dev.control_out_blocking(control, data, timeout) {
        Ok(_) => Ok(()),
        Err(nusb::transfer::TransferError::Cancelled) => Err(Error::Timeout),
        Err(nusb::transfer::TransferError::Stall) => Err(Error::Unsupported),
        Err(_) => Err(Error::TransportError),
    }
}

/// A control channel over an opened USB device.
///
/// Requests are routed by (unit id, interface number); this transport has no
/// GUID-addressed vendor path and no topology nodes, so vendor-extension
/// selectors and `Node` addresses are rejected without touching the wire.
pub struct UsbChannel {
    dev: nusb::Device,
    past: Ghost<Seq<Tx>>,
}

impl UsbChannel {
    /// Wrap an already-opened USB device handle; acquiring the handle itself
    /// is the discovery layer's concern.
    pub fn new(dev: nusb::Device) -> (r: Self)
        ensures
            r.hist() == Seq::<Tx>::empty(),
    {
        UsbChannel { dev, past: Ghost(Seq::empty()) }
    }

    /// The read primitive of this transport: a request routed to a `Unit`
    /// address of width at most the `wLength` field's range goes out on the
    /// wire; a vendor selector, a `Node` address or an oversize width is
    /// rejected as unsupported without touching the wire, and the rejection
    /// is still recorded as an unanswered read.
    pub fn usb_get(&mut self, kind: Request, sel: &Selector, addr: Address, width: usize) -> (r:
        Result<Vec<u8>, Error>)
        ensures
            final(self).hist() == old(self).hist().push(
                get_tx(
                    kind,
                    sel@,
                    addr,
                    width as nat,
                    match r {
                        Ok(b) => Some(b@),
                        Err(_) => None,
                    },
                ),
            ),
            r matches Ok(b) ==> b@.len() == width,
            sel@ is VendorExtension || addr is Node || width > 0xffff ==> r == Err::<
                Vec<u8>,
                Error,
            >(Error::Unsupported),
            r matches Err(e) ==> e == Error::Timeout || e == Error::Unsupported || e
                == Error::TransportError,
    {
        let r: Result<Vec<u8>, Error> = if sel.is_vendor() {
            Err(Error::Unsupported)
        } else {
            match addr {
                Address::Node { .. } => Err(Error::Unsupported),
                Address::Unit { unit, interface } => {
                    if width > 0xffff {
                        Err(Error::Unsupported)
                    } else {
                        let value: u16 = (sel.code() as u16) << 8u16;
                        let index: u16 = ((unit as u16) << 8u16) | (interface as u16);
                        usb_control_in(&self.dev, kind.code(), value, index, width, TIMEOUT_MS)
                    }
                },
            }
        };
        let ghost resp: Option<Seq<u8>> = match r {
            Ok(ref b) => Some(b@),
            Err(_) => None,
        };
        self.past = Ghost(self.past@.push(get_tx(kind, sel@, addr, width as nat, resp)));
        r
    }

    /// The write primitive, with the same routing domain as the read: only
    /// a standard selector at a `Unit` address with a payload within the
    /// `wLength` range reaches the wire; everything else is rejected as
    /// unsupported and recorded as a refused write.
    pub fn usb_set(&mut self, sel: &Selector, addr: Address, data: &[u8]) -> (r: Result<
        (),
        Error,
    >)
        ensures
            final(self).hist() == old(self).hist().push(set_tx(sel@, addr, data@, r is Ok)),
            sel@ is VendorExtension || addr is Node || data@.len() > 0xffff ==> r == Err::<
                (),
                Error,
            >(Error::Unsupported),
            r matches Err(e) ==> e == Error::Timeout || e == Error::Unsupported || e
                == Error::TransportError,
    {
        let r: Result<(), Error> = if sel.is_vendor() {
            Err(Error::Unsupported)
        } else {
            match addr {
                Address::Node { .. } => Err(Error::Unsupported),
                Address::Unit { unit, interface } => {
                    if data.len() > 0xffff {
                        Err(Error::Unsupported)
                    } else {
                        let value: u16 = (sel.code() as u16) << 8u16;
                        let index: u16 = ((unit as u16) << 8u16) | (interface as u16);
                        usb_control_out(
                            &self.dev,
                            Request::SetCur.code(),
                            value,
                            index,
                            data,
                            TIMEOUT_MS,
                        )
                    }
                },
            }
        };
        self.past = Ghost(self.past@.push(set_tx(sel@, addr, data@, r.is_ok())));
        r
    }
}

impl ControlChannel for UsbChannel {
    closed spec fn hist(&self) -> Seq<Tx> {
        self.past@
    }

    fn get(&mut self, kind: Request, sel: &Selector, addr: Address, width: usize) -> (r: Result<
        Vec<u8>,
        Error,
    >) {
        self.usb_get(kind, sel, addr, width)
    }

    fn set(&mut self, sel: &Selector, addr: Address, data: &[u8]) -> (r: Result<(), Error>) {
        self.usb_set(sel, addr, data)
    }
}

} // verus!
