//! Compound-axis coordination: making a single-axis set correct against a
//! control whose wire transaction carries both pan and tilt.
//!
//! The sequence is read-modify-write over a shared control word: the sibling
//! axis is freshly read, then the whole compound buffer is written. The
//! device offers no compare-and-swap for the word, so a writer that changes
//! the sibling between the two steps is silently overwritten
//! (last-writer-wins). Local callers cannot race each other here: the
//! coordinator holds the channel exclusively (`&mut`) for the whole
//! sequence, which is the critical section the protocol requires.
//!
//! A failed sibling read fails the whole compound set: the coordinator never
//! writes with a stale or default sibling value, and never retries.

use vstd::prelude::*;
use crate::Error;
use crate::Request;
use crate::channel::{get_tx, set_tx, Address, ControlChannel, Tx};
use crate::codec::{
    encode_pan_tilt_abs, encode_pan_tilt_rel, field_val, pan_tilt_abs_bytes, pan_tilt_rel_bytes,
    read_field, Field,
};
use crate::selector::{Axis, RelativeCommand, SelView, Selector};

verus! {

/// The compound absolute buffer written for a commanded `axis` value, given
/// the 8-byte current word `cur` the sibling was read from.
pub open spec fn compound_abs_data(axis: Axis, value: int, cur: Seq<u8>) -> Seq<u8> {
    match axis {
        Axis::Pan => pan_tilt_abs_bytes(value, field_val(Field::I32Second, cur)),
        Axis::Tilt => pan_tilt_abs_bytes(field_val(Field::I32First, cur), value),
    }
}

/// The compound relative buffer written for a commanded `axis` direction
/// byte, given the 4-byte resolution word `res` (each axis's step) and the
/// 4-byte current word `cur` (the sibling's direction byte).
pub open spec fn compound_rel_data(axis: Axis, dir: u8, res: Seq<u8>, cur: Seq<u8>) -> Seq<u8> {
    match axis {
        Axis::Pan => pan_tilt_rel_bytes(dir, res[0], cur[2], res[2]),
        Axis::Tilt => pan_tilt_rel_bytes(cur[0], res[0], dir, res[2]),
    }
}

/// What a compound absolute set does to the channel history: one read of the
/// compound current word, then one write carrying the commanded value and
/// the just-read sibling value; a failed read short-circuits the set.
pub open spec fn compound_abs_set_post(
    h0: Seq<Tx>,
    h1: Seq<Tx>,
    addr: Address,
    axis: Axis,
    value: int,
    r: Result<(), Error>,
) -> bool {
    match r {
        Ok(_) => exists|cur: Seq<u8>|
            #![auto]
            cur.len() == 8 && h1 == h0.push(
                get_tx(Request::GetCur, SelView::PanTiltAbsolute, addr, 8, Some(cur)),
            ).push(set_tx(SelView::PanTiltAbsolute, addr, compound_abs_data(axis, value, cur), true)),
        Err(_) => h1 == h0.push(get_tx(Request::GetCur, SelView::PanTiltAbsolute, addr, 8, None))
            || exists|cur: Seq<u8>|
            #![auto]
            cur.len() == 8 && h1 == h0.push(
                get_tx(Request::GetCur, SelView::PanTiltAbsolute, addr, 8, Some(cur)),
            ).push(
                set_tx(SelView::PanTiltAbsolute, addr, compound_abs_data(axis, value, cur), false),
            ),
    }
}

/// What a compound relative set does to the channel history: one read of
/// each axis's step, one read of the compound current word, then one write
/// carrying the commanded direction, the steps, and the sibling's just-read
/// direction byte; a failed read short-circuits the set.
pub open spec fn compound_rel_set_post(
    h0: Seq<Tx>,
    h1: Seq<Tx>,
    addr: Address,
    axis: Axis,
    dir: u8,
    r: Result<(), Error>,
) -> bool {
    match r {
        Ok(_) => exists|res: Seq<u8>, cur: Seq<u8>|
            #![auto]
            res.len() == 4 && cur.len() == 4 && h1 == h0.push(
                get_tx(Request::GetRes, SelView::PanTiltRelative, addr, 4, Some(res)),
            ).push(get_tx(Request::GetCur, SelView::PanTiltRelative, addr, 4, Some(cur))).push(
                set_tx(SelView::PanTiltRelative, addr, compound_rel_data(axis, dir, res, cur), true),
            ),
        Err(_) => h1 == h0.push(get_tx(Request::GetRes, SelView::PanTiltRelative, addr, 4, None))
            || (exists|res: Seq<u8>|
            #![auto]
            res.len() == 4 && h1 == h0.push(
                get_tx(Request::GetRes, SelView::PanTiltRelative, addr, 4, Some(res)),
            ).push(get_tx(Request::GetCur, SelView::PanTiltRelative, addr, 4, None))) || (exists|
            res: Seq<u8>,
            cur: Seq<u8>,
        |
            #![auto]
            res.len() == 4 && cur.len() == 4 && h1 == h0.push(
                get_tx(Request::GetRes, SelView::PanTiltRelative, addr, 4, Some(res)),
            ).push(get_tx(Request::GetCur, SelView::PanTiltRelative, addr, 4, Some(cur))).push(
                set_tx(
                    SelView::PanTiltRelative,
                    addr,
                    compound_rel_data(axis, dir, res, cur),
                    false,
                ),
            )),
    }
}

/// Set one axis of the compound pan/tilt absolute control: read the current
/// compound word, keep the sibling's fresh value, write both together.
pub fn compound_abs_set<C: ControlChannel>(
    chan: &mut C,
    addr: Address,
    axis: Axis,
    value: i32,
) -> (r: Result<(), Error>)
    ensures
        compound_abs_set_post(old(chan).hist(), final(chan).hist(), addr, axis, value as int, r),
{
    let cur = match chan.get(Request::GetCur, &Selector::PanTiltAbsolute, addr, 8) {
        Ok(b) => b,
        Err(e) => {
            return Err(e);
        },
    };
    let data = match axis {
        Axis::Pan => {
            let tilt_cur = read_field(Field::I32Second, &cur);
            encode_pan_tilt_abs(value, tilt_cur)
        },
        Axis::Tilt => {
            let pan_cur = read_field(Field::I32First, &cur);
            encode_pan_tilt_abs(pan_cur, value)
        },
    };
    let r = chan.set(&Selector::PanTiltAbsolute, addr, data.as_slice());
    proof {
        assert(data@ == compound_abs_data(axis, value as int, cur@));
    }
    r
}

/// Set one axis of the compound pan/tilt relative control: read both axes'
/// steps and the sibling's current direction byte, then write the whole
/// compound word together.
pub fn compound_rel_set<C: ControlChannel>(
    chan: &mut C,
    addr: Address,
    axis: Axis,
    cmd: RelativeCommand,
) -> (r: Result<(), Error>)
    ensures
        compound_rel_set_post(
            old(chan).hist(),
            final(chan).hist(),
            addr,
            axis,
            cmd.byte_spec(),
            r,
        ),
{
    let res = match chan.get(Request::GetRes, &Selector::PanTiltRelative, addr, 4) {
        Ok(b) => b,
        Err(e) => {
            return Err(e);
        },
    };
    let cur = match chan.get(Request::GetCur, &Selector::PanTiltRelative, addr, 4) {
        Ok(b) => b,
        Err(e) => {
            return Err(e);
        },
    };
    let data = match axis {
        Axis::Pan => encode_pan_tilt_rel(cmd.byte(), res[0], cur[2], res[2]),
        Axis::Tilt => encode_pan_tilt_rel(cur[0], res[0], cmd.byte(), res[2]),
    };
    let r = chan.set(&Selector::PanTiltRelative, addr, data.as_slice());
    proof {
        assert(data@ == compound_rel_data(axis, cmd.byte_spec(), res@, cur@));
    }
    r
}

} // verus!
