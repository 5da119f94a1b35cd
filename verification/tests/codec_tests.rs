use uvc_control::codec::{
    decode_axis_rel, decode_i32_le, decode_pan_tilt_abs, decode_pan_tilt_rel, decode_zoom_abs,
    decode_zoom_rel, encode_auto_focus, encode_axis_rel, encode_i32_le, encode_pan_tilt_abs,
    encode_pan_tilt_rel, encode_zoom_abs, encode_zoom_rel, read_field, Field,
};
use uvc_control::selector::{decode_relative_command, RelativeCommand};

#[test]
fn zoom_abs_literal_bytes_decode_to_sixteen() {
    assert_eq!(decode_zoom_abs(&[0x10, 0x00]), Some(16));
}

#[test]
fn zoom_abs_encode_sixteen() {
    assert_eq!(encode_zoom_abs(16), vec![0x10, 0x00]);
}

#[test]
fn zoom_abs_round_trip_representative_values() {
    for v in [0, 1, 16, 255, 256, 0x1234, 0xfffe, 0xffff] {
        let bytes = encode_zoom_abs(v);
        assert_eq!(decode_zoom_abs(&bytes), Some(v));
    }
}

#[test]
fn zoom_abs_decode_rejects_wrong_width() {
    assert_eq!(decode_zoom_abs(&[1]), None);
    assert_eq!(decode_zoom_abs(&[1, 2, 3]), None);
}

#[test]
fn i32_encode_is_little_endian_twos_complement() {
    assert_eq!(encode_i32_le(1), vec![1, 0, 0, 0]);
    assert_eq!(encode_i32_le(-1), vec![0xff, 0xff, 0xff, 0xff]);
    assert_eq!(encode_i32_le(0x01020304), vec![4, 3, 2, 1]);
}

#[test]
fn i32_round_trip_representative_values() {
    for v in [i32::MIN, -123456, -1, 0, 1, 16, 123456, i32::MAX] {
        let b = encode_i32_le(v);
        assert_eq!(decode_i32_le(b[0], b[1], b[2], b[3]), v);
    }
}

#[test]
fn zoom_rel_positive_with_step_three() {
    assert_eq!(
        encode_zoom_rel(RelativeCommand::Positive, 3),
        vec![1, 1, 3]
    );
}

#[test]
fn zoom_rel_stop_with_step_three() {
    assert_eq!(encode_zoom_rel(RelativeCommand::Stop, 3), vec![0, 1, 3]);
}

#[test]
fn zoom_rel_negative_uses_twos_complement_direction() {
    assert_eq!(
        encode_zoom_rel(RelativeCommand::Negative, 7),
        vec![0xff, 1, 7]
    );
}

#[test]
fn zoom_rel_round_trip() {
    for cmd in [
        RelativeCommand::Negative,
        RelativeCommand::Stop,
        RelativeCommand::Positive,
    ] {
        for step in [0u8, 1, 3, 255] {
            let b = encode_zoom_rel(cmd, step);
            assert_eq!(decode_zoom_rel(&b), Some((cmd, step)));
        }
    }
}

#[test]
fn zoom_rel_decode_rejects_bad_buffers() {
    assert_eq!(decode_zoom_rel(&[1, 1]), None);
    assert_eq!(decode_zoom_rel(&[5, 1, 3]), None); // direction outside the domain
    assert_eq!(decode_zoom_rel(&[1, 0, 3]), None); // fixed byte must be 1
}

#[test]
fn pan_tilt_abs_round_trip() {
    for (pan, tilt) in [(0, 0), (1, -1), (-36000, 36000), (i32::MIN, i32::MAX)] {
        let b = encode_pan_tilt_abs(pan, tilt);
        assert_eq!(b.len(), 8);
        assert_eq!(decode_pan_tilt_abs(&b), Some((pan, tilt)));
    }
}

#[test]
fn pan_tilt_abs_is_pan_then_tilt() {
    let b = encode_pan_tilt_abs(1, 2);
    assert_eq!(b, vec![1, 0, 0, 0, 2, 0, 0, 0]);
}

#[test]
fn pan_tilt_rel_round_trip() {
    let b = encode_pan_tilt_rel(0xff, 2, 1, 4);
    assert_eq!(b, vec![0xff, 2, 1, 4]);
    assert_eq!(decode_pan_tilt_rel(&b), Some((0xff, 2, 1, 4)));
    assert_eq!(decode_pan_tilt_rel(&[1, 2, 3]), None);
}

#[test]
fn axis_rel_round_trip() {
    let b = encode_axis_rel(RelativeCommand::Positive, 9);
    assert_eq!(b, vec![1, 9]);
    assert_eq!(decode_axis_rel(&b), Some((RelativeCommand::Positive, 9)));
    assert_eq!(decode_axis_rel(&[7, 9]), None);
}

#[test]
fn auto_focus_bytes() {
    assert_eq!(encode_auto_focus(true), vec![1]);
    assert_eq!(encode_auto_focus(false), vec![0]);
}

#[test]
fn relative_command_decode_covers_the_domain() {
    assert_eq!(decode_relative_command(0xff), Some(RelativeCommand::Negative));
    assert_eq!(decode_relative_command(0), Some(RelativeCommand::Stop));
    assert_eq!(decode_relative_command(1), Some(RelativeCommand::Positive));
    assert_eq!(decode_relative_command(2), None);
}

#[test]
fn capability_fields_decode_to_the_literal_integers_encoded() {
    // each capability field is decoded independently, with the selector's
    // field decode
    assert_eq!(read_field(Field::U16Le, &vec![0x10, 0x00]), 16);
    assert_eq!(read_field(Field::Byte0, &vec![3, 1, 7]), 3);
    assert_eq!(read_field(Field::Byte2, &vec![3, 1, 7, 9]), 7);
    assert_eq!(
        read_field(Field::I32First, &vec![4, 3, 2, 1, 0, 0, 0, 0x80]),
        0x01020304
    );
    assert_eq!(
        read_field(Field::I32Second, &vec![4, 3, 2, 1, 0, 0, 0, 0x80]),
        i32::MIN
    );
}

#[test]
fn direction_fields_decode_sign_extended() {
    // the direction columns of a relative control are i8: 0xff is -1
    assert_eq!(read_field(Field::I8Byte0, &vec![0xff, 1, 3]), -1);
    assert_eq!(read_field(Field::I8Byte0, &vec![0x01, 1, 3]), 1);
    assert_eq!(read_field(Field::I8Byte0, &vec![0x80, 1, 3]), -128);
    assert_eq!(read_field(Field::I8Byte2, &vec![0, 2, 0xff, 4]), -1);
    assert_eq!(read_field(Field::I8Byte2, &vec![0, 2, 0x7f, 4]), 127);
}

#[test]
fn relative_command_logical_values() {
    assert_eq!(RelativeCommand::Negative.value(), -1);
    assert_eq!(RelativeCommand::Stop.value(), 0);
    assert_eq!(RelativeCommand::Positive.value(), 1);
}
