//! Pure, stateless wire-format codecs: the only place in the system where
//! numeric values are turned into bytes and back.
//!
//! Layouts (little endian, matching the device's native order here):
//! - zoom absolute: 2 bytes, unsigned 16-bit;
//! - zoom relative: 3 bytes `[direction, 1, step]`;
//! - pan/tilt absolute: 8 bytes `[pan: i32, tilt: i32]`, written together;
//! - pan/tilt relative: 4 bytes `[pan dir, pan step, tilt dir, tilt step]`;
//! - single-axis variants for backends whose pan and tilt are independent:
//!   4 bytes `[axis: i32]` and 2 bytes `[dir, step]`;
//! - auto-focus: 1 byte.

use vstd::prelude::*;
use crate::Caps;
use crate::selector::RelativeCommand;

verus! {

// ---------------------------------------------------------------------------
// Byte-level models
// ---------------------------------------------------------------------------

/// The unsigned value of two little-endian bytes.
pub open spec fn u16_of_le(b0: u8, b1: u8) -> int {
    b0 + 0x100 * b1
}

/// The unsigned value of four little-endian bytes.
pub open spec fn u32_of_le(b0: u8, b1: u8, b2: u8, b3: u8) -> int {
    b0 + 0x100 * b1 + 0x10000 * b2 + 0x1000000 * b3
}

/// The signed (two's complement) value of four little-endian bytes.
pub open spec fn i32_of_le(b0: u8, b1: u8, b2: u8, b3: u8) -> int {
    let n = u32_of_le(b0, b1, b2, b3);
    if n < 0x8000_0000 {
        n
    } else {
        n - 0x1_0000_0000
    }
}

/// The two little-endian bytes of a value in `0 .. 0x10000`.
pub open spec fn le16_of(v: int) -> Seq<u8> {
    seq![(v % 0x100) as u8, ((v / 0x100) % 0x100) as u8]
}

/// The four little-endian bytes of a value in `0 .. 0x1_0000_0000`.
pub open spec fn le32_of_unsigned(n: int) -> Seq<u8> {
    seq![
        (n % 0x100) as u8,
        ((n / 0x100) % 0x100) as u8,
        ((n / 0x10000) % 0x100) as u8,
        ((n / 0x1000000) % 0x100) as u8,
    ]
}

/// The four little-endian bytes of a signed 32-bit value, two's complement.
pub open spec fn le32_of(v: int) -> Seq<u8> {
    le32_of_unsigned(if v >= 0 { v } else { v + 0x1_0000_0000 })
}

// ---------------------------------------------------------------------------
// 16-bit absolute (zoom)
// ---------------------------------------------------------------------------

/// Encode a zoom-absolute value into its 2-byte wire form.
pub fn encode_zoom_abs(v: i32) -> (r: Vec<u8>)
    requires
        0 <= v <= 0xffff,
    ensures
        r@ == le16_of(v as int),
        r@.len() == 2,
{
    let b0: u8 = (v % 0x100) as u8;
    let b1: u8 = ((v / 0x100) % 0x100) as u8;
    let mut r: Vec<u8> = Vec::new();
    r.push(b0);
    r.push(b1);
    proof {
        assert(r@ =~= le16_of(v as int));
    }
    r
}

/// Decode a 2-byte zoom-absolute response; any other length fails.
pub fn decode_zoom_abs(b: &[u8]) -> (r: Option<i32>)
    ensures
        b@.len() == 2 ==> r == Some((u16_of_le(b@[0], b@[1]) as i32)),
        b@.len() != 2 ==> r is None,
{
    if b.len() == 2 {
        Some(b[0] as i32 + 0x100 * (b[1] as i32))
    } else {
        None
    }
}

/// A 16-bit encode and decode are mutually inverse: every in-range value
/// round-trips through its 2-byte wire form.
pub proof fn lemma_zoom_abs_round_trip(v: int)
    requires
        0 <= v <= 0xffff,
    ensures
        u16_of_le(le16_of(v)[0], le16_of(v)[1]) == v,
{
    assert(v % 0x100 + 0x100 * ((v / 0x100) % 0x100) == v) by (nonlinear_arith)
        requires 0 <= v <= 0xffff;
}

// ---------------------------------------------------------------------------
// 32-bit absolute (pan, tilt)
// ---------------------------------------------------------------------------

/// Encode a signed 32-bit value into its 4-byte little-endian wire form.
pub fn encode_i32_le(v: i32) -> (r: Vec<u8>)
    ensures
        r@ == le32_of(v as int),
        r@.len() == 4,
{
    let n: u32 = if v >= 0 {
        v as u32
    } else {
        ((v as i64) + 0x1_0000_0000i64) as u32
    };
    let b0: u8 = (n % 0x100) as u8;
    let b1: u8 = ((n / 0x100) % 0x100) as u8;
    let b2: u8 = ((n / 0x10000) % 0x100) as u8;
    let b3: u8 = ((n / 0x1000000) % 0x100) as u8;
    let mut r: Vec<u8> = Vec::new();
    r.push(b0);
    r.push(b1);
    r.push(b2);
    r.push(b3);
    proof {
        assert(r@ =~= le32_of(v as int));
    }
    r
}

/// Decode four little-endian bytes as a signed 32-bit value.
pub fn decode_i32_le(b0: u8, b1: u8, b2: u8, b3: u8) -> (r: i32)
    ensures
        r == i32_of_le(b0, b1, b2, b3),
{
    let n: u32 = b0 as u32 + 0x100 * (b1 as u32) + 0x10000 * (b2 as u32) + 0x1000000 * (b3 as u32);
    if n <= 0x7fff_ffff {
        n as i32
    } else {
        ((n as i64) - 0x1_0000_0000i64) as i32
    }
}

/// Every signed 32-bit value round-trips through its 4-byte wire form.
pub proof fn lemma_i32_le_round_trip(v: int)
    requires
        -0x8000_0000 <= v < 0x8000_0000,
    ensures
        i32_of_le(le32_of(v)[0], le32_of(v)[1], le32_of(v)[2], le32_of(v)[3]) == v,
{
    let n = if v >= 0 { v } else { v + 0x1_0000_0000 };
    lemma_u32_le_round_trip(n);
}

/// Every value in `0 .. 0x1_0000_0000` is recovered from its four bytes.
pub proof fn lemma_u32_le_round_trip(n: int)
    requires
        0 <= n < 0x1_0000_0000,
    ensures
        u32_of_le(
            le32_of_unsigned(n)[0],
            le32_of_unsigned(n)[1],
            le32_of_unsigned(n)[2],
            le32_of_unsigned(n)[3],
        ) == n,
{
    assert(n % 0x100 + 0x100 * ((n / 0x100) % 0x100) + 0x10000 * ((n / 0x10000) % 0x100)
        + 0x1000000 * ((n / 0x1000000) % 0x100) == n) by (nonlinear_arith)
        requires 0 <= n < 0x1_0000_0000;
}

// ---------------------------------------------------------------------------
// Relative controls
// ---------------------------------------------------------------------------

/// The 3-byte zoom-relative wire form `[direction, 1, step]`.
pub open spec fn zoom_rel_bytes(cmd: RelativeCommand, step: u8) -> Seq<u8> {
    seq![cmd.byte_spec(), 1u8, step]
}

/// Encode a zoom-relative command with the control's configured step.
pub fn encode_zoom_rel(cmd: RelativeCommand, step: u8) -> (r: Vec<u8>)
    ensures
        r@ == zoom_rel_bytes(cmd, step),
        r@.len() == 3,
{
    let mut r: Vec<u8> = Vec::new();
    r.push(cmd.byte());
    r.push(1u8);
    r.push(step);
    proof {
        assert(r@ =~= zoom_rel_bytes(cmd, step));
    }
    r
}

/// Decode a 3-byte zoom-relative buffer back into `(direction, step)`.
///
/// Fails on a wrong length, a direction byte outside {-1, 0, 1}, or a fixed
/// byte other than 1.
pub fn decode_zoom_rel(b: &[u8]) -> (r: Option<(RelativeCommand, u8)>)
    ensures
        r matches Some(p) ==> b@.len() == 3 && b@[1] == 1 && zoom_rel_bytes(p.0, p.1) == b@,
        b@.len() == 3 && b@[1] == 1 ==> r == (match crate::selector::rel_of_byte(b@[0]) {
            Some(cmd) => Some((cmd, b@[2])),
            None => None,
        }),
        !(b@.len() == 3 && b@[1] == 1) ==> r is None,
{
    if b.len() == 3 && b[1] == 1 {
        match crate::selector::decode_relative_command(b[0]) {
            Some(cmd) => {
                proof {
                    assert(zoom_rel_bytes(cmd, b@[2]) =~= b@);
                }
                Some((cmd, b[2]))
            },
            None => None,
        }
    } else {
        None
    }
}

/// The direction byte of every relative command sign-extends back to its
/// logical value in {-1, 0, 1}.
pub proof fn lemma_direction_byte_value(cmd: RelativeCommand)
    ensures
        i8_of(cmd.byte_spec()) == cmd.value_spec(),
{
}

/// Every zoom-relative command and step round-trips through the wire form.
pub proof fn lemma_zoom_rel_round_trip(cmd: RelativeCommand, step: u8)
    ensures
        zoom_rel_bytes(cmd, step).len() == 3,
        crate::selector::rel_of_byte(zoom_rel_bytes(cmd, step)[0]) == Some(cmd),
        zoom_rel_bytes(cmd, step)[1] == 1,
        zoom_rel_bytes(cmd, step)[2] == step,
{
}

/// The 8-byte pan/tilt absolute wire form: both axes written together.
pub open spec fn pan_tilt_abs_bytes(pan: int, tilt: int) -> Seq<u8> {
    le32_of(pan) + le32_of(tilt)
}

/// Encode a compound pan/tilt absolute buffer from the commanded value of one
/// axis and the current value of its sibling.
pub fn encode_pan_tilt_abs(pan: i32, tilt: i32) -> (r: Vec<u8>)
    ensures
        r@ == pan_tilt_abs_bytes(pan as int, tilt as int),
        r@.len() == 8,
{
    let mut r = encode_i32_le(pan);
    let mut t = encode_i32_le(tilt);
    r.append(&mut t);
    proof {
        assert(r@ =~= pan_tilt_abs_bytes(pan as int, tilt as int));
    }
    r
}

/// Decode an 8-byte pan/tilt absolute response into `(pan, tilt)`.
pub fn decode_pan_tilt_abs(b: &[u8]) -> (r: Option<(i32, i32)>)
    ensures
        b@.len() == 8 ==> (r matches Some(p)
            && p.0 == i32_of_le(b@[0], b@[1], b@[2], b@[3])
            && p.1 == i32_of_le(b@[4], b@[5], b@[6], b@[7])),
        b@.len() != 8 ==> r is None,
{
    if b.len() == 8 {
        let pan = decode_i32_le(b[0], b[1], b[2], b[3]);
        let tilt = decode_i32_le(b[4], b[5], b[6], b[7]);
        Some((pan, tilt))
    } else {
        None
    }
}

/// Every pan/tilt pair round-trips through the 8-byte compound wire form.
pub proof fn lemma_pan_tilt_abs_round_trip(pan: int, tilt: int)
    requires
        -0x8000_0000 <= pan < 0x8000_0000,
        -0x8000_0000 <= tilt < 0x8000_0000,
    ensures
        ({
            let b = pan_tilt_abs_bytes(pan, tilt);
            &&& b.len() == 8
            &&& i32_of_le(b[0], b[1], b[2], b[3]) == pan
            &&& i32_of_le(b[4], b[5], b[6], b[7]) == tilt
        }),
{
    lemma_i32_le_round_trip(pan);
    lemma_i32_le_round_trip(tilt);
}

/// The 4-byte pan/tilt relative wire form, in wire order:
/// `[pan direction, pan step, tilt direction, tilt step]`.
pub open spec fn pan_tilt_rel_bytes(pan_dir: u8, pan_step: u8, tilt_dir: u8, tilt_step: u8) -> Seq<
    u8,
> {
    seq![pan_dir, pan_step, tilt_dir, tilt_step]
}

/// Encode a compound pan/tilt relative buffer. The commanded axis supplies
/// its direction byte; the sibling's direction byte is its freshly read
/// current value; each step comes from that axis's resolution field.
pub fn encode_pan_tilt_rel(pan_dir: u8, pan_step: u8, tilt_dir: u8, tilt_step: u8) -> (r: Vec<u8>)
    ensures
        r@ == pan_tilt_rel_bytes(pan_dir, pan_step, tilt_dir, tilt_step),
        r@.len() == 4,
{
    let mut r: Vec<u8> = Vec::new();
    r.push(pan_dir);
    r.push(pan_step);
    r.push(tilt_dir);
    r.push(tilt_step);
    proof {
        assert(r@ =~= pan_tilt_rel_bytes(pan_dir, pan_step, tilt_dir, tilt_step));
    }
    r
}

/// Decode a 4-byte pan/tilt relative buffer into its four fields.
pub fn decode_pan_tilt_rel(b: &[u8]) -> (r: Option<(u8, u8, u8, u8)>)
    ensures
        b@.len() == 4 ==> r == Some((b@[0], b@[1], b@[2], b@[3])),
        b@.len() != 4 ==> r is None,
{
    if b.len() == 4 {
        Some((b[0], b[1], b[2], b[3]))
    } else {
        None
    }
}

/// Every pan/tilt relative field quadruple round-trips through the wire form.
pub proof fn lemma_pan_tilt_rel_round_trip(pan_dir: u8, pan_step: u8, tilt_dir: u8, tilt_step: u8)
    ensures
        ({
            let b = pan_tilt_rel_bytes(pan_dir, pan_step, tilt_dir, tilt_step);
            &&& b.len() == 4
            &&& b[0] == pan_dir
            &&& b[1] == pan_step
            &&& b[2] == tilt_dir
            &&& b[3] == tilt_step
        }),
{
}

// ---------------------------------------------------------------------------
// Single-axis variants (backends with independent pan and tilt controls)
// ---------------------------------------------------------------------------

/// The 2-byte single-axis relative wire form `[direction, step]`.
pub open spec fn axis_rel_bytes(cmd: RelativeCommand, step: u8) -> Seq<u8> {
    seq![cmd.byte_spec(), step]
}

/// Encode a single-axis relative command for a backend whose pan and tilt
/// occupy independent wire transactions.
pub fn encode_axis_rel(cmd: RelativeCommand, step: u8) -> (r: Vec<u8>)
    ensures
        r@ == axis_rel_bytes(cmd, step),
        r@.len() == 2,
{
    let mut r: Vec<u8> = Vec::new();
    r.push(cmd.byte());
    r.push(step);
    proof {
        assert(r@ =~= axis_rel_bytes(cmd, step));
    }
    r
}

/// Every single-axis relative command and step round-trips through the
/// wire form.
pub proof fn lemma_axis_rel_round_trip(cmd: RelativeCommand, step: u8)
    ensures
        axis_rel_bytes(cmd, step).len() == 2,
        crate::selector::rel_of_byte(axis_rel_bytes(cmd, step)[0]) == Some(cmd),
        axis_rel_bytes(cmd, step)[1] == step,
{
}

/// Decode a 2-byte single-axis relative buffer into `(direction, step)`.
pub fn decode_axis_rel(b: &[u8]) -> (r: Option<(RelativeCommand, u8)>)
    ensures
        r matches Some(p) ==> b@.len() == 2 && axis_rel_bytes(p.0, p.1) == b@,
        b@.len() == 2 ==> r == (match crate::selector::rel_of_byte(b@[0]) {
            Some(cmd) => Some((cmd, b@[1])),
            None => None,
        }),
        b@.len() != 2 ==> r is None,
{
    if b.len() == 2 {
        match crate::selector::decode_relative_command(b[0]) {
            Some(cmd) => {
                proof {
                    assert(axis_rel_bytes(cmd, b@[1]) =~= b@);
                }
                Some((cmd, b[1]))
            },
            None => None,
        }
    } else {
        None
    }
}

/// The 1-byte auto-focus wire form.
pub open spec fn auto_focus_byte(on: bool) -> u8 {
    if on {
        1u8
    } else {
        0u8
    }
}

/// Encode the auto-focus switch.
pub fn encode_auto_focus(on: bool) -> (r: Vec<u8>)
    ensures
        r@ == seq![auto_focus_byte(on)],
        r@.len() == 1,
{
    let mut r: Vec<u8> = Vec::new();
    r.push(if on { 1u8 } else { 0u8 });
    proof {
        assert(r@ =~= seq![auto_focus_byte(on)]);
    }
    r
}

/// Every auto-focus state round-trips through its single wire byte.
pub proof fn lemma_auto_focus_round_trip(on: bool)
    ensures
        (auto_focus_byte(on) != 0) == on,
{
}

// ---------------------------------------------------------------------------
// Field extraction from response buffers
// ---------------------------------------------------------------------------

/// The signed (two's complement) value of one byte.
pub open spec fn i8_of(b: u8) -> int {
    if b < 0x80 {
        b as int
    } else {
        b - 0x100
    }
}

/// How one logical field sits in a response buffer: a 16-bit value, a single
/// byte read unsigned (a step) or signed (a direction), or one of the two
/// 32-bit halves of a compound buffer.
#[derive(Clone, Copy, Debug, PartialEq, Eq, Structural)]
pub enum Field {
    U16Le,
    Byte0,
    Byte2,
    I8Byte0,
    I8Byte2,
    I32First,
    I32Second,
}

/// The least buffer length a field can be read from.
pub open spec fn field_min_len(f: Field) -> nat {
    match f {
        Field::U16Le => 2,
        Field::Byte0 => 1,
        Field::Byte2 => 3,
        Field::I8Byte0 => 1,
        Field::I8Byte2 => 3,
        Field::I32First => 4,
        Field::I32Second => 8,
    }
}

/// The logical value of a field in a buffer of sufficient length.
pub open spec fn field_val(f: Field, b: Seq<u8>) -> int {
    match f {
        Field::U16Le => u16_of_le(b[0], b[1]),
        Field::Byte0 => b[0] as int,
        Field::Byte2 => b[2] as int,
        Field::I8Byte0 => i8_of(b[0]),
        Field::I8Byte2 => i8_of(b[2]),
        Field::I32First => i32_of_le(b[0], b[1], b[2], b[3]),
        Field::I32Second => i32_of_le(b[4], b[5], b[6], b[7]),
    }
}

/// Sign-extend one wire byte.
fn read_i8(b: u8) -> (r: i32)
    ensures
        r == i8_of(b),
{
    if b < 0x80 {
        b as i32
    } else {
        (b as i32) - 0x100
    }
}

/// Read one logical field out of a response buffer.
pub fn read_field(f: Field, b: &Vec<u8>) -> (r: i32)
    requires
        b@.len() >= field_min_len(f),
    ensures
        r == field_val(f, b@),
{
    match f {
        Field::U16Le => b[0] as i32 + 0x100 * (b[1] as i32),
        Field::Byte0 => b[0] as i32,
        Field::Byte2 => b[2] as i32,
        Field::I8Byte0 => read_i8(b[0]),
        Field::I8Byte2 => read_i8(b[2]),
        Field::I32First => decode_i32_le(b[0], b[1], b[2], b[3]),
        Field::I32Second => decode_i32_le(b[4], b[5], b[6], b[7]),
    }
}

/// Decode a capability set from the four field responses, each field from
/// its own independent wire transaction; a missing one must fail the whole
/// query before this decode is reached, never yield a partially filled
/// result. The bounds and the default share one decode; the resolution has
/// its own, because a relative control's min, max and default live in the
/// signed direction column while its resolution is an unsigned step.
pub fn decode_caps(
    fb: Field,
    fr: Field,
    min: &Vec<u8>,
    max: &Vec<u8>,
    res: &Vec<u8>,
    def: &Vec<u8>,
) -> (r: Caps)
    requires
        min@.len() >= field_min_len(fb),
        max@.len() >= field_min_len(fb),
        res@.len() >= field_min_len(fr),
        def@.len() >= field_min_len(fb),
    ensures
        r.min == field_val(fb, min@),
        r.max == field_val(fb, max@),
        r.res == field_val(fr, res@),
        r.def == field_val(fb, def@),
{
    Caps {
        min: read_field(fb, min),
        max: read_field(fb, max),
        res: read_field(fr, res),
        def: read_field(fb, def),
    }
}

} // verus!
