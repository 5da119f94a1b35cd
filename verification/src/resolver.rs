//! Unit resolution: which physical unit, terminal or topology node each
//! logical control must address.
//!
//! Two strategies, per the backend's addressing model:
//! - a static descriptor scan, done once at open time: the first
//!   Input-Terminal descriptor and the first Processing-Unit descriptor win,
//!   later duplicates are ignored;
//! - dynamic node probing, done per call for vendor-extension controls:
//!   node ids are tried in order and the first one that accepts wins.

use vstd::prelude::*;
use crate::Error;
use crate::Request;
use crate::channel::{get_tx, set_tx, Address, ControlChannel, Tx};
use crate::selector::{SelView, Selector};

verus! {

/// Descriptor type of a class-specific interface descriptor.
pub const CS_INTERFACE: u8 = 0x24;

/// Class-specific descriptor subtype of a video-control Input Terminal.
pub const VC_INPUT_TERMINAL: u8 = 0x02;

/// Class-specific descriptor subtype of a video-control Processing Unit.
pub const VC_PROCESSING_UNIT: u8 = 0x05;

/// USB interface class of a video device.
pub const USB_CLASS_VIDEO: u8 = 0x0e;

/// USB interface subclass of the video-control interface.
pub const USB_SUBCLASS_VIDEO_CONTROL: u8 = 0x01;

/// The unit ids the static scan resolves at open time, held for the
/// lifetime of the handle. `0` means no descriptor of that type was seen.
#[derive(Clone, Copy, Debug, PartialEq, Eq, Structural)]
pub struct UnitIds {
    pub it_unit: u8,
    pub pu_unit: u8,
}

/// Whether a raw descriptor is a class-specific interface descriptor of the
/// given subtype, long enough to carry a unit id.
pub open spec fn is_unit_desc(d: Seq<u8>, subtype: u8) -> bool {
    d.len() >= 4 && d[1] == CS_INTERFACE && d[2] == subtype
}

/// The unit id carried by the first matching descriptor, or `0` when none
/// matches: first match wins, later duplicates are ignored.
pub open spec fn first_unit_id(descs: Seq<Vec<u8>>, subtype: u8) -> u8
    decreases descs.len(),
{
    if descs.len() == 0 {
        0
    } else if is_unit_desc(descs[0]@, subtype) {
        descs[0]@[3]
    } else {
        first_unit_id(descs.drop_first(), subtype)
    }
}

/// Scan the descriptor stream once for the first descriptor of `subtype` and
/// hand back its unit id, or `0` when there is none.
pub fn find_first_unit(descs: &Vec<Vec<u8>>, subtype: u8) -> (r: u8)
    ensures
        r == first_unit_id(descs@, subtype),
{
    let mut i: usize = 0;
    proof {
        assert(descs@.skip(0) =~= descs@);
    }
    while i < descs.len()
        invariant
            i <= descs@.len(),
            first_unit_id(descs@, subtype) == first_unit_id(descs@.skip(i as int), subtype),
        decreases descs@.len() - i,
    {
        let d = &descs[i];
        if d.len() >= 4 && d[1] == CS_INTERFACE && d[2] == subtype {
            proof {
                assert(descs@.skip(i as int)[0] == descs@[i as int]);
            }
            return d[3];
        }
        proof {
            assert(descs@.skip(i as int).drop_first() =~= descs@.skip(i + 1));
        }
        i = i + 1;
    }
    0
}

/// Resolve the unit addressing from a device's advertised descriptors, once
/// at open time: the first Input-Terminal descriptor names the unit for the
/// zoom and pan/tilt controls, the first Processing-Unit descriptor the unit
/// for controls routed there.
pub fn resolve_units(descs: &Vec<Vec<u8>>) -> (r: UnitIds)
    ensures
        r.it_unit == first_unit_id(descs@, VC_INPUT_TERMINAL),
        r.pu_unit == first_unit_id(descs@, VC_PROCESSING_UNIT),
{
    UnitIds {
        it_unit: find_first_unit(descs, VC_INPUT_TERMINAL),
        pu_unit: find_first_unit(descs, VC_PROCESSING_UNIT),
    }
}

/// One advertised interface alt-setting, reduced to the three fields
/// interface selection reads.
#[derive(Clone, Copy, Debug, PartialEq, Eq, Structural)]
pub struct InterfaceInfo {
    pub class: u8,
    pub subclass: u8,
    pub number: u8,
}

/// Whether an alt-setting is a video-control interface.
pub open spec fn is_video_control(inf: InterfaceInfo) -> bool {
    inf.class == USB_CLASS_VIDEO && inf.subclass == USB_SUBCLASS_VIDEO_CONTROL
}

/// The interface number of the first video-control alt-setting, if any.
pub open spec fn first_video_control(infs: Seq<InterfaceInfo>) -> Option<u8>
    decreases infs.len(),
{
    if infs.len() == 0 {
        None
    } else if is_video_control(infs[0]) {
        Some(infs[0].number)
    } else {
        first_video_control(infs.drop_first())
    }
}

/// Pick the interface a control channel must claim: the first video-control
/// alt-setting wins; a device without one has no compatible control surface.
pub fn select_video_control_interface(infs: &Vec<InterfaceInfo>) -> (r: Result<u8, Error>)
    ensures
        r == (match first_video_control(infs@) {
            Some(n) => Ok::<u8, Error>(n),
            None => Err(Error::InterfaceNotFound),
        }),
{
    let mut i: usize = 0;
    proof {
        assert(infs@.skip(0) =~= infs@);
    }
    while i < infs.len()
        invariant
            i <= infs@.len(),
            first_video_control(infs@) == first_video_control(infs@.skip(i as int)),
        decreases infs@.len() - i,
    {
        let inf = &infs[i];
        if inf.class == USB_CLASS_VIDEO && inf.subclass == USB_SUBCLASS_VIDEO_CONTROL {
            proof {
                assert(infs@.skip(i as int)[0] == infs@[i as int]);
            }
            return Ok(inf.number);
        }
        proof {
            assert(infs@.skip(i as int).drop_first() =~= infs@.skip(i + 1));
        }
        i = i + 1;
    }
    Err(Error::InterfaceNotFound)
}

/// A history extension of `n` read attempts at nodes `0 .. n`, all refused.
pub open spec fn failed_probe_reads(h0: Seq<Tx>, h1: Seq<Tx>, sel: SelView, width: nat, n: int) -> bool {
    &&& h1.len() == h0.len() + n
    &&& h1.subrange(0, h0.len() as int) == h0
    &&& forall|i: int|
        0 <= i < n ==> #[trigger] h1[h0.len() + i] == get_tx(
            Request::GetCur,
            sel,
            Address::Node { node: i as u32 },
            width,
            None,
        )
}

/// A history extension of `n` write attempts at nodes `0 .. n`, all refused.
pub open spec fn failed_probe_writes(
    h0: Seq<Tx>,
    h1: Seq<Tx>,
    sel: SelView,
    data: Seq<u8>,
    n: int,
) -> bool {
    &&& h1.len() == h0.len() + n
    &&& h1.subrange(0, h0.len() as int) == h0
    &&& forall|i: int|
        0 <= i < n ==> #[trigger] h1[h0.len() + i] == set_tx(
            sel,
            Address::Node { node: i as u32 },
            data,
            false,
        )
}

/// What probing a read over `0 .. num_nodes` leaves behind: the nodes
/// before the first answering one each refused once, the answering node
/// answered once and nothing was tried after it; or every node refused and
/// the probe is exhausted.
pub open spec fn probed_read_post(
    h0: Seq<Tx>,
    h1: Seq<Tx>,
    sel: SelView,
    width: nat,
    num_nodes: int,
    r: Result<Vec<u8>, Error>,
) -> bool {
    match r {
        Ok(b) => b@.len() == width && exists|k: int|
            #![auto]
            0 <= k < num_nodes && failed_probe_reads(h0, h1.drop_last(), sel, width, k)
                && h1.last() == get_tx(
                Request::GetCur,
                sel,
                Address::Node { node: k as u32 },
                width,
                Some(b@),
            ) && h1.len() == h0.len() + k + 1,
        Err(e) => e == Error::AddressNotFound && failed_probe_reads(h0, h1, sel, width, num_nodes),
    }
}

/// What probing a write over `0 .. num_nodes` leaves behind: exactly one
/// accepted attempt at the first accepting node and no attempt after it; or
/// every node refused and the probe is exhausted.
pub open spec fn probed_write_post(
    h0: Seq<Tx>,
    h1: Seq<Tx>,
    sel: SelView,
    data: Seq<u8>,
    num_nodes: int,
    r: Result<(), Error>,
) -> bool {
    match r {
        Ok(_) => exists|k: int|
            #![auto]
            0 <= k < num_nodes && failed_probe_writes(h0, h1.drop_last(), sel, data, k)
                && h1.last() == set_tx(sel, Address::Node { node: k as u32 }, data, true)
                && h1.len() == h0.len() + k + 1,
        Err(e) => e == Error::AddressNotFound && failed_probe_writes(h0, h1, sel, data, num_nodes),
    }
}

/// Probe a read over topology nodes `0 .. num_nodes` in order and stop at
/// the first node that answers: a pure search whose result is the first
/// success, or `AddressNotFound` when the probe is exhausted. No node after
/// the accepting one is attempted.
pub fn probe_get<C: ControlChannel>(
    chan: &mut C,
    sel: &Selector,
    num_nodes: u32,
    width: usize,
) -> (r: Result<Vec<u8>, Error>)
    ensures
        probed_read_post(
            old(chan).hist(),
            final(chan).hist(),
            sel@,
            width as nat,
            num_nodes as int,
            r,
        ),
{
    let ghost h0: Seq<Tx> = chan.hist();
    let mut node: u32 = 0;
    proof {
        assert(chan.hist().subrange(0, h0.len() as int) =~= h0);
    }
    while node < num_nodes
        invariant
            node <= num_nodes,
            h0 == old(chan).hist(),
            failed_probe_reads(h0, chan.hist(), sel@, width as nat, node as int),
        decreases num_nodes - node,
    {
        let ghost hprev: Seq<Tx> = chan.hist();
        let attempt = chan.get(Request::GetCur, sel, Address::Node { node }, width);
        proof {
            assert(chan.hist().drop_last() =~= hprev);
            assert(chan.hist().subrange(0, h0.len() as int) =~= h0);
        }
        match attempt {
            Ok(b) => {
                proof {
                    assert(failed_probe_reads(
                        h0,
                        chan.hist().drop_last(),
                        sel@,
                        width as nat,
                        node as int,
                    ));
                    assert(chan.hist().last() == get_tx(
                        Request::GetCur,
                        sel@,
                        Address::Node { node },
                        width as nat,
                        Some(b@),
                    ));
                }
                return Ok(b);
            },
            Err(_) => {
                proof {
                    assert(forall|i: int|
                        0 <= i < node + 1 ==> #[trigger] chan.hist()[h0.len() + i] == get_tx(
                            Request::GetCur,
                            sel@,
                            Address::Node { node: i as u32 },
                            width as nat,
                            None,
                        ));
                }
            },
        }
        node = node + 1;
    }
    Err(Error::AddressNotFound)
}

/// Probe a write over topology nodes `0 .. num_nodes` in order and stop at
/// the first node that acknowledges it: exactly one accepted attempt, no
/// further attempts after it, `AddressNotFound` when no node accepts.
pub fn probe_set<C: ControlChannel>(
    chan: &mut C,
    sel: &Selector,
    num_nodes: u32,
    data: &[u8],
) -> (r: Result<u32, Error>)
    ensures
        (match r {
            Ok(k) => 0 <= k < num_nodes && failed_probe_writes(
                old(chan).hist(),
                final(chan).hist().drop_last(),
                sel@,
                data@,
                k as int,
            ) && final(chan).hist().last() == set_tx(
                sel@,
                Address::Node { node: k },
                data@,
                true,
            ) && final(chan).hist().len() == old(chan).hist().len() + k + 1,
            Err(e) => e == Error::AddressNotFound && failed_probe_writes(
                old(chan).hist(),
                final(chan).hist(),
                sel@,
                data@,
                num_nodes as int,
            ),
        }),
{
    let ghost h0: Seq<Tx> = chan.hist();
    let mut node: u32 = 0;
    proof {
        assert(chan.hist().subrange(0, h0.len() as int) =~= h0);
    }
    while node < num_nodes
        invariant
            node <= num_nodes,
            h0 == old(chan).hist(),
            failed_probe_writes(h0, chan.hist(), sel@, data@, node as int),
        decreases num_nodes - node,
    {
        let ghost hprev: Seq<Tx> = chan.hist();
        let attempt = chan.set(sel, Address::Node { node }, data);
        proof {
            assert(chan.hist().drop_last() =~= hprev);
            assert(chan.hist().subrange(0, h0.len() as int) =~= h0);
        }
        match attempt {
            Ok(_) => {
                proof {
                    assert(failed_probe_writes(
                        h0,
                        chan.hist().drop_last(),
                        sel@,
                        data@,
                        node as int,
                    ));
                    assert(chan.hist().last() == set_tx(
                        sel@,
                        Address::Node { node },
                        data@,
                        true,
                    ));
                }
                return Ok(node);
            },
            Err(_) => {
                proof {
                    assert(forall|i: int|
                        0 <= i < node + 1 ==> #[trigger] chan.hist()[h0.len() + i] == set_tx(
                            sel@,
                            Address::Node { node: i as u32 },
                            data@,
                            false,
                        ));
                }
            },
        }
        node = node + 1;
    }
    Err(Error::AddressNotFound)
}

} // verus!
