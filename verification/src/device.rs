//! The device-handle facade: one operation per axis and mode, each
//! delegating to the compound coordinator or directly to the codec and
//! channel, depending on whether the selector shares its wire transaction
//! between two axes on this backend.
//!
//! No control value is cached: every get and set below is a live exchange,
//! visible as such in the channel history. All operations are synchronous
//! and may block for up to the channel's timeout.

use vstd::prelude::*;
use crate::{Caps, Error, Request};
use crate::channel::{get_tx, set_tx, Address, ControlChannel, Tx};
use crate::codec::{
    decode_caps, encode_auto_focus, encode_axis_rel, encode_i32_le, encode_zoom_abs,
    encode_zoom_rel, auto_focus_byte, axis_rel_bytes, field_min_len, field_val, le16_of, le32_of,
    read_field, zoom_rel_bytes, Field,
};
use crate::coordinator::{
    compound_abs_set, compound_abs_set_post, compound_rel_set, compound_rel_set_post,
};
use crate::resolver::{failed_probe_writes, probe_get, probe_set, probed_read_post, probed_write_post};
use vstd::string::StringExecFns;
use crate::selector::{Axis, RelativeCommand, SelView, Selector};

verus! {

/// The request kind of the i-th transaction of a capability query.
pub open spec fn caps_kind(i: int) -> Request {
    if i == 0 {
        Request::GetMin
    } else if i == 1 {
        Request::GetMax
    } else if i == 2 {
        Request::GetRes
    } else {
        Request::GetDef
    }
}

/// Whether a history entry is a read of the given shape, answered or not.
pub open spec fn is_read_of(t: Tx, kind: Request, sel: SelView, addr: Address, width: nat) -> bool {
    match t {
        Tx::Read { kind: k, sel: s, addr: a, width: w, resp: _ } => k == kind && s == sel && a
            == addr && w == width,
        Tx::Write { .. } => false,
    }
}

/// Whether a history entry is a read that got no answer.
pub open spec fn read_failed(t: Tx) -> bool {
    match t {
        Tx::Read { resp, .. } => resp is None,
        Tx::Write { .. } => false,
    }
}

/// What a current-value query does to the channel history: exactly one read
/// of the control's current field, decoded on success.
pub open spec fn cur_query_post(
    h0: Seq<Tx>,
    h1: Seq<Tx>,
    sel: SelView,
    addr: Address,
    width: nat,
    f: Field,
    r: Result<i32, Error>,
) -> bool {
    match r {
        Ok(v) => exists|b: Seq<u8>|
            #![auto]
            b.len() == width && h1 == h0.push(get_tx(Request::GetCur, sel, addr, width, Some(b)))
                && v == field_val(f, b),
        Err(_) => h1 == h0.push(get_tx(Request::GetCur, sel, addr, width, None)),
    }
}

/// What a capability query does to the channel history: four reads (min,
/// max, resolution, default), each decoded field by field — the bounds and
/// the default with one decode, the resolution with its own; a partial
/// failure short-circuits the whole query, after only reads and with the
/// failed read last.
pub open spec fn caps_query_post(
    h0: Seq<Tx>,
    h1: Seq<Tx>,
    sel: SelView,
    addr: Address,
    width: nat,
    fb: Field,
    fr: Field,
    r: Result<Caps, Error>,
) -> bool {
    match r {
        Ok(c) => exists|bmin: Seq<u8>, bmax: Seq<u8>, bres: Seq<u8>, bdef: Seq<u8>|
            #![auto]
            bmin.len() == width && bmax.len() == width && bres.len() == width && bdef.len() == width
                && h1 == h0.push(get_tx(Request::GetMin, sel, addr, width, Some(bmin))).push(
                get_tx(Request::GetMax, sel, addr, width, Some(bmax)),
            ).push(get_tx(Request::GetRes, sel, addr, width, Some(bres))).push(
                get_tx(Request::GetDef, sel, addr, width, Some(bdef)),
            ) && c.min == field_val(fb, bmin) && c.max == field_val(fb, bmax) && c.res == field_val(
                fr,
                bres,
            ) && c.def == field_val(fb, bdef),
        Err(_) => h0.len() < h1.len() <= h0.len() + 4 && h1.subrange(0, h0.len() as int) == h0 && (
        forall|i: int|
            h0.len() <= i < h1.len() ==> is_read_of(
                #[trigger] h1[i],
                caps_kind(i - h0.len()),
                sel,
                addr,
                width,
            )) && (forall|i: int|
            h0.len() <= i < h1.len() - 1 ==> !read_failed(#[trigger] h1[i])) && read_failed(
            h1.last(),
        ),
    }
}

/// What a direct single-transaction set does to the channel history.
pub open spec fn direct_set_post(
    h0: Seq<Tx>,
    h1: Seq<Tx>,
    sel: SelView,
    addr: Address,
    data: Seq<u8>,
    r: Result<(), Error>,
) -> bool {
    h1 == h0.push(set_tx(sel, addr, data, r is Ok))
}

/// The wire buffer of a relative set whose step was read from the
/// resolution field: zoom relative carries a fixed middle byte, a
/// single-axis relative control does not.
pub open spec fn rel_wire_bytes(sel: SelView, cmd: RelativeCommand, step: u8) -> Seq<u8> {
    if sel == SelView::ZoomRelative {
        zoom_rel_bytes(cmd, step)
    } else {
        axis_rel_bytes(cmd, step)
    }
}

/// What a relative set does to the channel history when the selector is not
/// compound on this backend: one read of the resolution field for the step,
/// then one write of the direction and step; a failed read short-circuits.
pub open spec fn stepped_rel_set_post(
    h0: Seq<Tx>,
    h1: Seq<Tx>,
    sel: SelView,
    addr: Address,
    width: nat,
    cmd: RelativeCommand,
    r: Result<(), Error>,
) -> bool {
    match r {
        Ok(_) => exists|res: Seq<u8>|
            #![auto]
            res.len() == width && h1 == h0.push(
                get_tx(Request::GetRes, sel, addr, width, Some(res)),
            ).push(set_tx(sel, addr, rel_wire_bytes(sel, cmd, res[0]), true)),
        Err(_) => h1 == h0.push(get_tx(Request::GetRes, sel, addr, width, None)) || exists|
            res: Seq<u8>,
        |
            #![auto]
            res.len() == width && h1 == h0.push(
                get_tx(Request::GetRes, sel, addr, width, Some(res)),
            ).push(set_tx(sel, addr, rel_wire_bytes(sel, cmd, res[0]), false)),
    }
}

/// Read one control's current value and decode its field.
fn read_cur<C: ControlChannel>(
    chan: &mut C,
    sel: &Selector,
    addr: Address,
    width: usize,
    f: Field,
) -> (r: Result<i32, Error>)
    requires
        width >= field_min_len(f),
    ensures
        cur_query_post(old(chan).hist(), final(chan).hist(), sel@, addr, width as nat, f, r),
{
    match chan.get(Request::GetCur, sel, addr, width) {
        Ok(b) => Ok(read_field(f, &b)),
        Err(e) => Err(e),
    }
}

/// Query one control's capability set: four independent wire transactions,
/// decoded field by field; any sub-failure fails the whole query.
fn read_caps<C: ControlChannel>(
    chan: &mut C,
    sel: &Selector,
    addr: Address,
    width: usize,
    fb: Field,
    fr: Field,
) -> (r: Result<Caps, Error>)
    requires
        width >= field_min_len(fb),
        width >= field_min_len(fr),
    ensures
        caps_query_post(old(chan).hist(), final(chan).hist(), sel@, addr, width as nat, fb, fr, r),
{
    let ghost h0: Seq<Tx> = chan.hist();
    let bmin = match chan.get(Request::GetMin, sel, addr, width) {
        Ok(b) => b,
        Err(e) => {
            proof {
                assert(chan.hist().subrange(0, h0.len() as int) =~= h0);
            }
            return Err(e);
        },
    };
    let bmax = match chan.get(Request::GetMax, sel, addr, width) {
        Ok(b) => b,
        Err(e) => {
            proof {
                assert(chan.hist().subrange(0, h0.len() as int) =~= h0);
            }
            return Err(e);
        },
    };
    let bres = match chan.get(Request::GetRes, sel, addr, width) {
        Ok(b) => b,
        Err(e) => {
            proof {
                assert(chan.hist().subrange(0, h0.len() as int) =~= h0);
            }
            return Err(e);
        },
    };
    let bdef = match chan.get(Request::GetDef, sel, addr, width) {
        Ok(b) => b,
        Err(e) => {
            proof {
                assert(chan.hist().subrange(0, h0.len() as int) =~= h0);
            }
            return Err(e);
        },
    };
    Ok(decode_caps(fb, fr, &bmin, &bmax, &bres, &bdef))
}


/// A handle on one opened device: the resolved addressing, the per-backend
/// compound-capability flags for the pan/tilt selectors, and the control
/// channel, owned exclusively for the lifetime of the handle.
pub struct DeviceHandle<C: ControlChannel> {
    pub chan: C,
    pub addr: Address,
    pub num_nodes: u32,
    pub pan_tilt_abs_compound: bool,
    pub pan_tilt_rel_compound: bool,
}

impl<C: ControlChannel> DeviceHandle<C> {
    /// The addressing and capability configuration, which no operation
    /// changes after open time.
    pub open spec fn setup(self) -> (Address, u32, bool, bool) {
        (self.addr, self.num_nodes, self.pan_tilt_abs_compound, self.pan_tilt_rel_compound)
    }

    /// Compose a handle from an opened channel and the addressing resolved
    /// at open time.
    pub fn new(
        chan: C,
        addr: Address,
        num_nodes: u32,
        pan_tilt_abs_compound: bool,
        pan_tilt_rel_compound: bool,
    ) -> (r: Self)
        ensures
            r.chan == chan,
            r.addr == addr,
            r.num_nodes == num_nodes,
            r.pan_tilt_abs_compound == pan_tilt_abs_compound,
            r.pan_tilt_rel_compound == pan_tilt_rel_compound,
    {
        DeviceHandle { chan, addr, num_nodes, pan_tilt_abs_compound, pan_tilt_rel_compound }
    }

    // ---------------------------------------------------------------- zoom

    pub fn zoom_abs_caps(&mut self) -> (r: Result<Caps, Error>)
        ensures
            final(self).setup() == old(self).setup(),
            caps_query_post(
                old(self).chan.hist(),
                final(self).chan.hist(),
                SelView::ZoomAbsolute,
                old(self).addr,
                2,
                Field::U16Le,
                Field::U16Le,
                r,
            ),
    {
        let addr = self.addr;
        read_caps(&mut self.chan, &Selector::ZoomAbsolute, addr, 2, Field::U16Le, Field::U16Le)
    }

    pub fn zoom_abs(&mut self) -> (r: Result<i32, Error>)
        ensures
            final(self).setup() == old(self).setup(),
            cur_query_post(
                old(self).chan.hist(),
                final(self).chan.hist(),
                SelView::ZoomAbsolute,
                old(self).addr,
                2,
                Field::U16Le,
                r,
            ),
    {
        let addr = self.addr;
        read_cur(&mut self.chan, &Selector::ZoomAbsolute, addr, 2, Field::U16Le)
    }

    /// Set the absolute zoom. The wire field is unsigned 16-bit, so only
    /// values of that range can be encoded.
    pub fn zoom_abs_set(&mut self, value: i32) -> (r: Result<(), Error>)
        requires
            0 <= value <= 0xffff,
        ensures
            final(self).setup() == old(self).setup(),
            direct_set_post(
                old(self).chan.hist(),
                final(self).chan.hist(),
                SelView::ZoomAbsolute,
                old(self).addr,
                le16_of(value as int),
                r,
            ),
    {
        let addr = self.addr;
        let data = encode_zoom_abs(value);
        self.chan.set(&Selector::ZoomAbsolute, addr, data.as_slice())
    }

    pub fn zoom_rel_caps(&mut self) -> (r: Result<Caps, Error>)
        ensures
            final(self).setup() == old(self).setup(),
            caps_query_post(
                old(self).chan.hist(),
                final(self).chan.hist(),
                SelView::ZoomRelative,
                old(self).addr,
                3,
                Field::I8Byte0,
                Field::Byte0,
                r,
            ),
    {
        let addr = self.addr;
        read_caps(&mut self.chan, &Selector::ZoomRelative, addr, 3, Field::I8Byte0, Field::Byte0)
    }

    pub fn zoom_rel(&mut self) -> (r: Result<i32, Error>)
        ensures
            final(self).setup() == old(self).setup(),
            cur_query_post(
                old(self).chan.hist(),
                final(self).chan.hist(),
                SelView::ZoomRelative,
                old(self).addr,
                3,
                Field::I8Byte0,
                r,
            ),
    {
        let addr = self.addr;
        read_cur(&mut self.chan, &Selector::ZoomRelative, addr, 3, Field::I8Byte0)
    }

    /// Command relative zoom motion: the step is freshly read from the
    /// control's resolution field, the direction comes from the caller.
    pub fn zoom_rel_set(&mut self, cmd: RelativeCommand) -> (r: Result<(), Error>)
        ensures
            final(self).setup() == old(self).setup(),
            stepped_rel_set_post(
                old(self).chan.hist(),
                final(self).chan.hist(),
                SelView::ZoomRelative,
                old(self).addr,
                3,
                cmd,
                r,
            ),
    {
        let addr = self.addr;
        let res = match self.chan.get(Request::GetRes, &Selector::ZoomRelative, addr, 3) {
            Ok(b) => b,
            Err(e) => {
                return Err(e);
            },
        };
        let data = encode_zoom_rel(cmd, res[0]);
        self.chan.set(&Selector::ZoomRelative, addr, data.as_slice())
    }

    // ----------------------------------------------------------------- pan

    pub fn pan_abs_caps(&mut self) -> (r: Result<Caps, Error>)
        ensures
            final(self).setup() == old(self).setup(),
            caps_query_post(
                old(self).chan.hist(),
                final(self).chan.hist(),
                SelView::PanTiltAbsolute,
                old(self).addr,
                if old(self).pan_tilt_abs_compound { 8nat } else { 4nat },
                Field::I32First,
                Field::I32First,
                r,
            ),
    {
        let addr = self.addr;
        if self.pan_tilt_abs_compound {
            read_caps(
                &mut self.chan,
                &Selector::PanTiltAbsolute,
                addr,
                8,
                Field::I32First,
                Field::I32First,
            )
        } else {
            read_caps(
                &mut self.chan,
                &Selector::PanTiltAbsolute,
                addr,
                4,
                Field::I32First,
                Field::I32First,
            )
        }
    }

    pub fn pan_abs(&mut self) -> (r: Result<i32, Error>)
        ensures
            final(self).setup() == old(self).setup(),
            cur_query_post(
                old(self).chan.hist(),
                final(self).chan.hist(),
                SelView::PanTiltAbsolute,
                old(self).addr,
                if old(self).pan_tilt_abs_compound { 8nat } else { 4nat },
                Field::I32First,
                r,
            ),
    {
        let addr = self.addr;
        if self.pan_tilt_abs_compound {
            read_cur(&mut self.chan, &Selector::PanTiltAbsolute, addr, 8, Field::I32First)
        } else {
            read_cur(&mut self.chan, &Selector::PanTiltAbsolute, addr, 4, Field::I32First)
        }
    }

    /// Set the absolute pan. On a compound backend the coordinator reads
    /// the current tilt and writes both axes together; otherwise the value
    /// is written alone.
    pub fn pan_abs_set(&mut self, value: i32) -> (r: Result<(), Error>)
        ensures
            final(self).setup() == old(self).setup(),
            old(self).pan_tilt_abs_compound ==> compound_abs_set_post(
                old(self).chan.hist(),
                final(self).chan.hist(),
                old(self).addr,
                Axis::Pan,
                value as int,
                r,
            ),
            !old(self).pan_tilt_abs_compound ==> direct_set_post(
                old(self).chan.hist(),
                final(self).chan.hist(),
                SelView::PanTiltAbsolute,
                old(self).addr,
                le32_of(value as int),
                r,
            ),
    {
        let addr = self.addr;
        if self.pan_tilt_abs_compound {
            compound_abs_set(&mut self.chan, addr, Axis::Pan, value)
        } else {
            let data = encode_i32_le(value);
            self.chan.set(&Selector::PanTiltAbsolute, addr, data.as_slice())
        }
    }

    pub fn pan_rel_caps(&mut self) -> (r: Result<Caps, Error>)
        ensures
            final(self).setup() == old(self).setup(),
            caps_query_post(
                old(self).chan.hist(),
                final(self).chan.hist(),
                SelView::PanTiltRelative,
                old(self).addr,
                if old(self).pan_tilt_rel_compound { 4nat } else { 2nat },
                Field::I8Byte0,
                Field::Byte0,
                r,
            ),
    {
        let addr = self.addr;
        if self.pan_tilt_rel_compound {
            read_caps(
                &mut self.chan,
                &Selector::PanTiltRelative,
                addr,
                4,
                Field::I8Byte0,
                Field::Byte0,
            )
        } else {
            read_caps(
                &mut self.chan,
                &Selector::PanTiltRelative,
                addr,
                2,
                Field::I8Byte0,
                Field::Byte0,
            )
        }
    }

    pub fn pan_rel(&mut self) -> (r: Result<i32, Error>)
        ensures
            final(self).setup() == old(self).setup(),
            cur_query_post(
                old(self).chan.hist(),
                final(self).chan.hist(),
                SelView::PanTiltRelative,
                old(self).addr,
                if old(self).pan_tilt_rel_compound { 4nat } else { 2nat },
                Field::I8Byte0,
                r,
            ),
    {
        let addr = self.addr;
        if self.pan_tilt_rel_compound {
            read_cur(&mut self.chan, &Selector::PanTiltRelative, addr, 4, Field::I8Byte0)
        } else {
            read_cur(&mut self.chan, &Selector::PanTiltRelative, addr, 2, Field::I8Byte0)
        }
    }

    /// Command relative pan motion. On a compound backend the coordinator
    /// reads both steps and the current tilt direction and writes the whole
    /// word; otherwise one direction and step are written alone.
    pub fn pan_rel_set(&mut self, cmd: RelativeCommand) -> (r: Result<(), Error>)
        ensures
            final(self).setup() == old(self).setup(),
            old(self).pan_tilt_rel_compound ==> compound_rel_set_post(
                old(self).chan.hist(),
                final(self).chan.hist(),
                old(self).addr,
                Axis::Pan,
                cmd.byte_spec(),
                r,
            ),
            !old(self).pan_tilt_rel_compound ==> stepped_rel_set_post(
                old(self).chan.hist(),
                final(self).chan.hist(),
                SelView::PanTiltRelative,
                old(self).addr,
                2,
                cmd,
                r,
            ),
    {
        let addr = self.addr;
        if self.pan_tilt_rel_compound {
            compound_rel_set(&mut self.chan, addr, Axis::Pan, cmd)
        } else {
            let res = match self.chan.get(Request::GetRes, &Selector::PanTiltRelative, addr, 2) {
                Ok(b) => b,
                Err(e) => {
                    return Err(e);
                },
            };
            let data = encode_axis_rel(cmd, res[0]);
            self.chan.set(&Selector::PanTiltRelative, addr, data.as_slice())
        }
    }

    // ---------------------------------------------------------------- tilt

    pub fn tilt_abs_caps(&mut self) -> (r: Result<Caps, Error>)
        ensures
            final(self).setup() == old(self).setup(),
            caps_query_post(
                old(self).chan.hist(),
                final(self).chan.hist(),
                SelView::PanTiltAbsolute,
                old(self).addr,
                if old(self).pan_tilt_abs_compound { 8nat } else { 4nat },
                if old(self).pan_tilt_abs_compound { Field::I32Second } else { Field::I32First },
                if old(self).pan_tilt_abs_compound { Field::I32Second } else { Field::I32First },
                r,
            ),
    {
        let addr = self.addr;
        if self.pan_tilt_abs_compound {
            read_caps(
                &mut self.chan,
                &Selector::PanTiltAbsolute,
                addr,
                8,
                Field::I32Second,
                Field::I32Second,
            )
        } else {
            read_caps(
                &mut self.chan,
                &Selector::PanTiltAbsolute,
                addr,
                4,
                Field::I32First,
                Field::I32First,
            )
        }
    }

    pub fn tilt_abs(&mut self) -> (r: Result<i32, Error>)
        ensures
            final(self).setup() == old(self).setup(),
            cur_query_post(
                old(self).chan.hist(),
                final(self).chan.hist(),
                SelView::PanTiltAbsolute,
                old(self).addr,
                if old(self).pan_tilt_abs_compound { 8nat } else { 4nat },
                if old(self).pan_tilt_abs_compound { Field::I32Second } else { Field::I32First },
                r,
            ),
    {
        let addr = self.addr;
        if self.pan_tilt_abs_compound {
            read_cur(&mut self.chan, &Selector::PanTiltAbsolute, addr, 8, Field::I32Second)
        } else {
            read_cur(&mut self.chan, &Selector::PanTiltAbsolute, addr, 4, Field::I32First)
        }
    }

    /// Set the absolute tilt. On a compound backend the coordinator reads
    /// the current pan and writes both axes together; otherwise the value
    /// is written alone.
    pub fn tilt_abs_set(&mut self, value: i32) -> (r: Result<(), Error>)
        ensures
            final(self).setup() == old(self).setup(),
            old(self).pan_tilt_abs_compound ==> compound_abs_set_post(
                old(self).chan.hist(),
                final(self).chan.hist(),
                old(self).addr,
                Axis::Tilt,
                value as int,
                r,
            ),
            !old(self).pan_tilt_abs_compound ==> direct_set_post(
                old(self).chan.hist(),
                final(self).chan.hist(),
                SelView::PanTiltAbsolute,
                old(self).addr,
                le32_of(value as int),
                r,
            ),
    {
        let addr = self.addr;
        if self.pan_tilt_abs_compound {
            compound_abs_set(&mut self.chan, addr, Axis::Tilt, value)
        } else {
            let data = encode_i32_le(value);
            self.chan.set(&Selector::PanTiltAbsolute, addr, data.as_slice())
        }
    }

    pub fn tilt_rel_caps(&mut self) -> (r: Result<Caps, Error>)
        ensures
            final(self).setup() == old(self).setup(),
            caps_query_post(
                old(self).chan.hist(),
                final(self).chan.hist(),
                SelView::PanTiltRelative,
                old(self).addr,
                if old(self).pan_tilt_rel_compound { 4nat } else { 2nat },
                if old(self).pan_tilt_rel_compound { Field::I8Byte2 } else { Field::I8Byte0 },
                if old(self).pan_tilt_rel_compound { Field::Byte2 } else { Field::Byte0 },
                r,
            ),
    {
        let addr = self.addr;
        if self.pan_tilt_rel_compound {
            read_caps(
                &mut self.chan,
                &Selector::PanTiltRelative,
                addr,
                4,
                Field::I8Byte2,
                Field::Byte2,
            )
        } else {
            read_caps(
                &mut self.chan,
                &Selector::PanTiltRelative,
                addr,
                2,
                Field::I8Byte0,
                Field::Byte0,
            )
        }
    }

    pub fn tilt_rel(&mut self) -> (r: Result<i32, Error>)
        ensures
            final(self).setup() == old(self).setup(),
            cur_query_post(
                old(self).chan.hist(),
                final(self).chan.hist(),
                SelView::PanTiltRelative,
                old(self).addr,
                if old(self).pan_tilt_rel_compound { 4nat } else { 2nat },
                if old(self).pan_tilt_rel_compound { Field::I8Byte2 } else { Field::I8Byte0 },
                r,
            ),
    {
        let addr = self.addr;
        if self.pan_tilt_rel_compound {
            read_cur(&mut self.chan, &Selector::PanTiltRelative, addr, 4, Field::I8Byte2)
        } else {
            read_cur(&mut self.chan, &Selector::PanTiltRelative, addr, 2, Field::I8Byte0)
        }
    }

    /// Command relative tilt motion, the mirror image of `pan_rel_set`.
    pub fn tilt_rel_set(&mut self, cmd: RelativeCommand) -> (r: Result<(), Error>)
        ensures
            final(self).setup() == old(self).setup(),
            old(self).pan_tilt_rel_compound ==> compound_rel_set_post(
                old(self).chan.hist(),
                final(self).chan.hist(),
                old(self).addr,
                Axis::Tilt,
                cmd.byte_spec(),
                r,
            ),
            !old(self).pan_tilt_rel_compound ==> stepped_rel_set_post(
                old(self).chan.hist(),
                final(self).chan.hist(),
                SelView::PanTiltRelative,
                old(self).addr,
                2,
                cmd,
                r,
            ),
    {
        let addr = self.addr;
        if self.pan_tilt_rel_compound {
            compound_rel_set(&mut self.chan, addr, Axis::Tilt, cmd)
        } else {
            let res = match self.chan.get(Request::GetRes, &Selector::PanTiltRelative, addr, 2) {
                Ok(b) => b,
                Err(e) => {
                    return Err(e);
                },
            };
            let data = encode_axis_rel(cmd, res[0]);
            self.chan.set(&Selector::PanTiltRelative, addr, data.as_slice())
        }
    }

    // ---------------------------------------------------------- auto-focus

    pub fn auto_focus_caps(&mut self) -> (r: Result<Caps, Error>)
        ensures
            final(self).setup() == old(self).setup(),
            caps_query_post(
                old(self).chan.hist(),
                final(self).chan.hist(),
                SelView::AutoFocus,
                old(self).addr,
                1,
                Field::Byte0,
                Field::Byte0,
                r,
            ),
    {
        let addr = self.addr;
        read_caps(&mut self.chan, &Selector::AutoFocus, addr, 1, Field::Byte0, Field::Byte0)
    }

    /// Switch automatic focus on or off: a direct one-byte write.
    pub fn auto_focus_set(&mut self, on: bool) -> (r: Result<(), Error>)
        ensures
            final(self).setup() == old(self).setup(),
            direct_set_post(
                old(self).chan.hist(),
                final(self).chan.hist(),
                SelView::AutoFocus,
                old(self).addr,
                seq![auto_focus_byte(on)],
                r,
            ),
    {
        let addr = self.addr;
        let data = encode_auto_focus(on);
        self.chan.set(&Selector::AutoFocus, addr, data.as_slice())
    }

    // ----------------------------------------------------- vendor extension

    /// Read a vendor-extension property: the node ids of the topology are
    /// probed in order and the first one that answers wins.
    pub fn get_xu(&mut self, set: &str, id: u32, width: usize) -> (r: Result<Vec<u8>, Error>)
        ensures
            final(self).setup() == old(self).setup(),
            probed_read_post(
                old(self).chan.hist(),
                final(self).chan.hist(),
                SelView::VendorExtension { set: set@, id },
                width as nat,
                old(self).num_nodes as int,
                r,
            ),
    {
        let num_nodes = self.num_nodes;
        let sel = Selector::VendorExtension { set: String::from_str(set), id };
        probe_get(&mut self.chan, &sel, num_nodes, width)
    }

    /// Write a vendor-extension property: the node ids of the topology are
    /// probed in order and the write stops at the first node that accepts
    /// it; `AddressNotFound` when none does.
    pub fn set_xu(&mut self, set: &str, id: u32, data: &[u8]) -> (r: Result<(), Error>)
        ensures
            final(self).setup() == old(self).setup(),
            probed_write_post(
                old(self).chan.hist(),
                final(self).chan.hist(),
                SelView::VendorExtension { set: set@, id },
                data@,
                old(self).num_nodes as int,
                r,
            ),
    {
        let num_nodes = self.num_nodes;
        let sel = Selector::VendorExtension { set: String::from_str(set), id };
        match probe_set(&mut self.chan, &sel, num_nodes, data) {
            Ok(k) => {
                proof {
                    assert(failed_probe_writes(
                        old(self).chan.hist(),
                        self.chan.hist().drop_last(),
                        sel@,
                        data@,
                        k as int,
                    ));
                }
                Ok(())
            },
            Err(e) => Err(e),
        }
    }
}

} // verus!
