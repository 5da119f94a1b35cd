//! The control-channel capability: one `get` and one `set` primitive, each a
//! single request/response exchange with the device, bounded by a timeout.
//!
//! A channel keeps a ghost history of every transaction it attempted, so the
//! layers above it can state exactly which bytes they read and wrote, and in
//! which order. Platform transports and the test mock all implement the same
//! trait; they are selected at open time, never by compile-time branching.

use vstd::prelude::*;
use crate::Error;
use crate::Request;
use crate::selector::{SelView, Selector};

verus! {

/// Backend-specific routing of a control request: a (terminal/unit id,
/// interface number) pair on USB, or a topology node id elsewhere.
#[derive(Clone, Copy, Debug, PartialEq, Eq, Structural)]
pub enum Address {
    Unit { unit: u8, interface: u8 },
    Node { node: u32 },
}

/// One attempted transaction, as recorded in a channel's ghost history.
///
/// A failed read has no response; a write records whether the device
/// acknowledged it.
pub ghost enum Tx {
    Read { kind: Request, sel: SelView, addr: Address, width: nat, resp: Option<Seq<u8>> },
    Write { sel: SelView, addr: Address, data: Seq<u8>, ok: bool },
}

/// The history entry of a read attempt.
pub open spec fn get_tx(
    kind: Request,
    sel: SelView,
    addr: Address,
    width: nat,
    resp: Option<Seq<u8>>,
) -> Tx {
    Tx::Read { kind, sel, addr, width, resp }
}

/// The history entry of a write attempt.
pub open spec fn set_tx(sel: SelView, addr: Address, data: Seq<u8>, ok: bool) -> Tx {
    Tx::Write { sel, addr, data, ok }
}

/// A blocking request/response channel to one device's control endpoint.
///
/// Each call performs exactly one exchange with the underlying transport and
/// appends exactly one entry to the history; this layer never retries.
pub trait ControlChannel: Sized {
    /// All transactions this channel has attempted, oldest first.
    spec fn hist(&self) -> Seq<Tx>;

    /// Read `width` bytes of the control's `kind` field. On success the
    /// response has exactly the requested width: the wire width is fixed per
    /// selector and never inferred from a response.
    fn get(&mut self, kind: Request, sel: &Selector, addr: Address, width: usize) -> (r: Result<
        Vec<u8>,
        Error,
    >)
        requires
            kind != Request::SetCur,
        ensures
            final(self).hist() == old(self).hist().push(
                get_tx(
                    kind,
                    sel@,
                    addr,
                    width as nat,
                    match r {
                        Ok(b) => Some(b@),
                        Err(_) => None,
                    },
                ),
            ),
            r matches Ok(b) ==> b@.len() == width,
    ;

    /// Write the control's current value. Exactly one exchange; `Ok` means
    /// the device acknowledged the write.
    fn set(&mut self, sel: &Selector, addr: Address, data: &[u8]) -> (r: Result<(), Error>)
        ensures
            final(self).hist() == old(self).hist().push(set_tx(sel@, addr, data@, r is Ok)),
    ;
}

} // verus!
