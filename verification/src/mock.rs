//! A scripted, in-memory control channel standing in for device hardware.
//!
//! The mock keeps a byte store per (request kind, selector code), acts as a
//! topology of `Node`-addressed vendor-extension endpoints of which at most
//! one accepts, and can be switched to a mode that never answers (every call
//! times out) or whose transport is broken. Every attempted transaction is
//! recorded in an execution-visible log as well as in the ghost history.

use vstd::prelude::*;
use crate::Error;
use crate::Request;
use crate::channel::{get_tx, set_tx, Address, ControlChannel, Tx};
use crate::selector::{SelView, Selector};

verus! {

/// How the mock answers: normally, not at all, or with a transport fault.
#[derive(Clone, Copy, Debug, PartialEq, Eq, Structural)]
pub enum MockMode {
    Normal,
    Silent,
    Broken,
}

/// One stored response: the bytes the mock returns for a request kind on a
/// standard selector code.
pub struct MockSlot {
    pub kind: Request,
    pub code: u8,
    pub data: Vec<u8>,
}

/// Ghost model of a `MockSlot`.
pub ghost struct SlotModel {
    pub kind: Request,
    pub code: u8,
    pub data: Seq<u8>,
}

/// One attempted transaction, as tests observe it at run time.
pub struct MockEvent {
    pub is_write: bool,
    pub kind: Request,
    pub code: u8,
    pub addr: Address,
    pub data: Vec<u8>,
    pub ok: bool,
}

/// The ghost view of a slot sequence.
pub open spec fn slots_view(slots: Seq<MockSlot>) -> Seq<SlotModel> {
    slots.map(|i: int, s: MockSlot| SlotModel { kind: s.kind, code: s.code, data: s.data@ })
}

/// The first stored response for (kind, code), newest first.
pub open spec fn find_slot(slots: Seq<SlotModel>, kind: Request, code: u8) -> Option<Seq<u8>>
    decreases slots.len(),
{
    if slots.len() == 0 {
        None
    } else if slots[0].kind == kind && slots[0].code == code {
        Some(slots[0].data)
    } else {
        find_slot(slots.drop_first(), kind, code)
    }
}

pub struct MockChannel {
    pub mode: MockMode,
    pub slots: Vec<MockSlot>,
    pub accept_node: Option<u32>,
    pub xu_data: Vec<u8>,
    pub log: Vec<MockEvent>,
    pub past: Ghost<Seq<Tx>>,
}

impl MockChannel {
    /// The slot store as tests and contracts see it.
    pub open spec fn store(self) -> Seq<SlotModel> {
        slots_view(self.slots@)
    }

    /// Whether a vendor-extension request routed to `addr` is accepted.
    pub open spec fn accepts_node(self, addr: Address) -> bool {
        match addr {
            Address::Node { node } => self.accept_node == Some(node),
            Address::Unit { .. } => false,
        }
    }

    /// What a read returns, as a function of the mock's state alone.
    pub open spec fn response_spec(
        self,
        kind: Request,
        sel: SelView,
        addr: Address,
        width: nat,
    ) -> Result<Seq<u8>, Error> {
        match self.mode {
            MockMode::Silent => Err(Error::Timeout),
            MockMode::Broken => Err(Error::TransportError),
            MockMode::Normal => match sel {
                SelView::VendorExtension { .. } => if self.accepts_node(addr)
                    && self.xu_data@.len() == width {
                    Ok(self.xu_data@)
                } else {
                    Err(Error::Unsupported)
                },
                _ => match find_slot(self.store(), kind, sel.code_spec()) {
                    Some(d) => if d.len() == width {
                        Ok(d)
                    } else {
                        Err(Error::Unsupported)
                    },
                    None => Err(Error::Unsupported),
                },
            },
        }
    }

    /// Whether a write is acknowledged, as a function of the mock's state.
    pub open spec fn write_result_spec(self, sel: SelView, addr: Address) -> Result<(), Error> {
        match self.mode {
            MockMode::Silent => Err(Error::Timeout),
            MockMode::Broken => Err(Error::TransportError),
            MockMode::Normal => match sel {
                SelView::VendorExtension { .. } => if self.accepts_node(addr) {
                    Ok(())
                } else {
                    Err(Error::Unsupported)
                },
                _ => Ok(()),
            },
        }
    }

    /// An empty mock that answers normally: no stored responses, no
    /// accepting vendor node, nothing logged.
    pub fn new() -> (r: Self)
        ensures
            r.mode == MockMode::Normal,
            r.store() == Seq::<SlotModel>::empty(),
            r.accept_node is None,
            r.xu_data@ == Seq::<u8>::empty(),
            r.log@ == Seq::<MockEvent>::empty(),
            r.hist() == Seq::<Tx>::empty(),
    {
        let r = MockChannel {
            mode: MockMode::Normal,
            slots: Vec::new(),
            accept_node: None,
            xu_data: Vec::new(),
            log: Vec::new(),
            past: Ghost(Seq::empty()),
        };
        proof {
            assert(r.store() =~= Seq::<SlotModel>::empty());
        }
        r
    }

    /// Store a response: later reads of (kind, code) will return `data`.
    pub fn seed(&mut self, kind: Request, code: u8, data: Vec<u8>)
        ensures
            final(self).store() == seq![SlotModel { kind, code, data: data@ }] + old(self).store(),
            final(self).mode == old(self).mode,
            final(self).accept_node == old(self).accept_node,
            final(self).xu_data@ == old(self).xu_data@,
            final(self).log@ == old(self).log@,
            final(self).hist() == old(self).hist(),
    {
        let ghost d: Seq<u8> = data@;
        self.slots.insert(0, MockSlot { kind, code, data });
        proof {
            assert(self.store() =~= seq![SlotModel { kind, code, data: d }] + old(self).store());
        }
    }

    /// Clone the first stored response for (kind, code), if any.
    fn lookup(&self, kind: Request, code: u8) -> (r: Option<Vec<u8>>)
        ensures
            match r {
                Some(d) => find_slot(self.store(), kind, code) == Some(d@),
                None => find_slot(self.store(), kind, code) is None,
            },
    {
        let mut i: usize = 0;
        proof {
            assert(self.store().skip(0) =~= self.store());
        }
        while i < self.slots.len()
            invariant
                i <= self.slots@.len(),
                find_slot(self.store(), kind, code) == find_slot(
                    self.store().skip(i as int),
                    kind,
                    code,
                ),
            decreases self.slots@.len() - i,
        {
            let s = &self.slots[i];
            if s.kind == kind && s.code == code {
                proof {
                    assert(self.store().skip(i as int)[0] == SlotModel {
                        kind: s.kind,
                        code: s.code,
                        data: s.data@,
                    });
                }
                return Some(vstd::slice::slice_to_vec(s.data.as_slice()));
            }
            proof {
                assert(self.store().skip(i as int).drop_first() =~= self.store().skip(i + 1));
            }
            i = i + 1;
        }
        None
    }

    /// The read primitive: answers from the mock's state, changes nothing of
    /// the scripted store, and records the attempt.
    pub fn mock_get(&mut self, kind: Request, sel: &Selector, addr: Address, width: usize) -> (r:
        Result<Vec<u8>, Error>)
        ensures
            (match r {
                Ok(b) => Ok(b@),
                Err(e) => Err(e),
            }) == old(self).response_spec(kind, sel@, addr, width as nat),
            r matches Ok(b) ==> b@.len() == width,
            final(self).mode == old(self).mode,
            final(self).store() == old(self).store(),
            final(self).accept_node == old(self).accept_node,
            final(self).xu_data@ == old(self).xu_data@,
            final(self).log@.len() == old(self).log@.len() + 1,
            final(self).log@.drop_last() == old(self).log@,
            ({
                let e = final(self).log@.last();
                &&& e.is_write == false
                &&& e.kind == kind
                &&& e.code == sel@.code_spec()
                &&& e.addr == addr
                &&& e.data@ == Seq::<u8>::empty()
                &&& e.ok == (r is Ok)
            }),
            final(self).hist() == old(self).hist().push(
                get_tx(
                    kind,
                    sel@,
                    addr,
                    width as nat,
                    match r {
                        Ok(b) => Some(b@),
                        Err(_) => None,
                    },
                ),
            ),
    {
        let code = sel.code();
        let r: Result<Vec<u8>, Error> = match self.mode {
            MockMode::Silent => Err(Error::Timeout),
            MockMode::Broken => Err(Error::TransportError),
            MockMode::Normal => {
                if sel.is_vendor() {
                    let accepted = match (addr, self.accept_node) {
                        (Address::Node { node }, Some(a)) => node == a,
                        _ => false,
                    };
                    if accepted && self.xu_data.len() == width {
                        Ok(vstd::slice::slice_to_vec(self.xu_data.as_slice()))
                    } else {
                        Err(Error::Unsupported)
                    }
                } else {
                    match self.lookup(kind, code) {
                        Some(d) => if d.len() == width {
                            Ok(d)
                        } else {
                            Err(Error::Unsupported)
                        },
                        None => Err(Error::Unsupported),
                    }
                }
            },
        };
        let ok = r.is_ok();
        self.log.push(MockEvent { is_write: false, kind, code, addr, data: Vec::new(), ok });
        let ghost resp: Option<Seq<u8>> = match r {
            Ok(ref b) => Some(b@),
            Err(_) => None,
        };
        self.past = Ghost(self.past@.push(get_tx(kind, sel@, addr, width as nat, resp)));
        proof {
            assert(self.log@.drop_last() =~= old(self).log@);
        }
        r
    }

    /// The write primitive: in normal mode a standard write becomes the
    /// stored current value of its selector code, an accepted vendor write
    /// replaces the extension data; the attempt is recorded either way.
    pub fn mock_set(&mut self, sel: &Selector, addr: Address, data: &[u8]) -> (r: Result<
        (),
        Error,
    >)
        ensures
            r == old(self).write_result_spec(sel@, addr),
            final(self).mode == old(self).mode,
            final(self).accept_node == old(self).accept_node,
            final(self).store() == (if old(self).mode == MockMode::Normal && !(sel@
                is VendorExtension) {
                seq![
                    SlotModel { kind: Request::GetCur, code: sel@.code_spec(), data: data@ },
                ] + old(self).store()
            } else {
                old(self).store()
            }),
            final(self).xu_data@ == (if old(self).mode == MockMode::Normal && sel@
                is VendorExtension && old(self).accepts_node(addr) {
                data@
            } else {
                old(self).xu_data@
            }),
            final(self).log@.len() == old(self).log@.len() + 1,
            final(self).log@.drop_last() == old(self).log@,
            ({
                let e = final(self).log@.last();
                &&& e.is_write == true
                &&& e.code == sel@.code_spec()
                &&& e.addr == addr
                &&& e.data@ == data@
                &&& e.ok == (r is Ok)
            }),
            final(self).hist() == old(self).hist().push(set_tx(sel@, addr, data@, r is Ok)),
    {
        let code = sel.code();
        let r: Result<(), Error> = match self.mode {
            MockMode::Silent => Err(Error::Timeout),
            MockMode::Broken => Err(Error::TransportError),
            MockMode::Normal => {
                if sel.is_vendor() {
                    let accepted = match (addr, self.accept_node) {
                        (Address::Node { node }, Some(a)) => node == a,
                        _ => false,
                    };
                    if accepted {
                        self.xu_data = vstd::slice::slice_to_vec(data);
                        Ok(())
                    } else {
                        Err(Error::Unsupported)
                    }
                } else {
                    self.slots.insert(
                        0,
                        MockSlot {
                            kind: Request::GetCur,
                            code,
                            data: vstd::slice::slice_to_vec(data),
                        },
                    );
                    proof {
                        assert(self.store() =~= seq![
                            SlotModel { kind: Request::GetCur, code, data: data@ },
                        ] + old(self).store());
                    }
                    Ok(())
                }
            },
        };
        let ok = r.is_ok();
        self.log.push(MockEvent {
            is_write: true,
            kind: Request::SetCur,
            code,
            addr,
            data: vstd::slice::slice_to_vec(data),
            ok,
        });
        self.past = Ghost(self.past@.push(set_tx(sel@, addr, data@, ok)));
        proof {
            assert(self.log@.drop_last() =~= old(self).log@);
        }
        r
    }
}

impl ControlChannel for MockChannel {
    open spec fn hist(&self) -> Seq<Tx> {
        self.past@
    }

    fn get(&mut self, kind: Request, sel: &Selector, addr: Address, width: usize) -> (r: Result<
        Vec<u8>,
        Error,
    >) {
        self.mock_get(kind, sel, addr, width)
    }

    fn set(&mut self, sel: &Selector, addr: Address, data: &[u8]) -> (r: Result<(), Error>) {
        self.mock_set(sel, addr, data)
    }
}

} // verus!
