use uvc_control::channel::Address;
use uvc_control::codec::encode_pan_tilt_abs;
use uvc_control::device::DeviceHandle;
use uvc_control::mock::{MockChannel, MockMode};
use uvc_control::selector::{RelativeCommand, Selector};
use uvc_control::{Caps, Error, Request};

const ADDR: Address = Address::Unit { unit: 1, interface: 0 };

const ZOOM_ABS: u8 = 0x0b;
const ZOOM_REL: u8 = 0x0c;
const PAN_TILT_ABS: u8 = 0x0d;
const PAN_TILT_REL: u8 = 0x0e;

fn compound_handle(chan: MockChannel) -> DeviceHandle<MockChannel> {
    DeviceHandle::new(chan, ADDR, 4, true, true)
}

#[test]
fn zoom_abs_get_decodes_the_stored_word() {
    let mut chan = MockChannel::new();
    chan.seed(Request::GetCur, ZOOM_ABS, vec![0x10, 0x00]);
    let mut dev = compound_handle(chan);
    assert_eq!(dev.zoom_abs(), Ok(16));
}

#[test]
fn zoom_abs_set_writes_the_two_byte_word() {
    let chan = MockChannel::new();
    let mut dev = compound_handle(chan);
    assert_eq!(dev.zoom_abs_set(0x1234), Ok(()));
    let log = &dev.chan.log;
    assert_eq!(log.len(), 1);
    assert!(log[0].is_write);
    assert_eq!(log[0].code, ZOOM_ABS);
    assert_eq!(log[0].data, vec![0x34, 0x12]);
}

#[test]
fn zoom_abs_caps_reads_four_fields() {
    let mut chan = MockChannel::new();
    chan.seed(Request::GetMin, ZOOM_ABS, vec![0, 0]);
    chan.seed(Request::GetMax, ZOOM_ABS, vec![0xff, 0xff]);
    chan.seed(Request::GetRes, ZOOM_ABS, vec![1, 0]);
    chan.seed(Request::GetDef, ZOOM_ABS, vec![0x10, 0]);
    let mut dev = compound_handle(chan);
    assert_eq!(
        dev.zoom_abs_caps(),
        Ok(Caps { min: 0, max: 0xffff, res: 1, def: 16 })
    );
    assert_eq!(dev.chan.log.len(), 4);
}

#[test]
fn caps_query_short_circuits_on_a_missing_field() {
    let mut chan = MockChannel::new();
    chan.seed(Request::GetMin, ZOOM_ABS, vec![0, 0]);
    chan.seed(Request::GetMax, ZOOM_ABS, vec![0xff, 0xff]);
    // no resolution or default stored: the third read fails
    let mut dev = compound_handle(chan);
    assert_eq!(dev.zoom_abs_caps(), Err(Error::Unsupported));
    assert_eq!(dev.chan.log.len(), 3);
    assert!(!dev.chan.log[2].ok);
}

#[test]
fn zoom_rel_set_reads_the_step_and_writes_direction_one_step() {
    // capability step 3: Positive encodes to [1, 1, 3]
    let mut chan = MockChannel::new();
    chan.seed(Request::GetRes, ZOOM_REL, vec![3, 0, 0]);
    let mut dev = compound_handle(chan);
    assert_eq!(dev.zoom_rel_set(RelativeCommand::Positive), Ok(()));
    let log = &dev.chan.log;
    assert_eq!(log.len(), 2);
    assert!(!log[0].is_write);
    assert_eq!(log[0].kind, Request::GetRes);
    assert!(log[1].is_write);
    assert_eq!(log[1].data, vec![1, 1, 3]);
}

#[test]
fn zoom_rel_set_stop_writes_zero_direction() {
    let mut chan = MockChannel::new();
    chan.seed(Request::GetRes, ZOOM_REL, vec![3, 0, 0]);
    let mut dev = compound_handle(chan);
    assert_eq!(dev.zoom_rel_set(RelativeCommand::Stop), Ok(()));
    assert_eq!(dev.chan.log[1].data, vec![0, 1, 3]);
}

#[test]
fn pan_set_preserves_a_fresh_tilt_reading() {
    // prior state: pan 100, tilt 7
    let mut chan = MockChannel::new();
    chan.seed(Request::GetCur, PAN_TILT_ABS, encode_pan_tilt_abs(100, 7));
    let mut dev = compound_handle(chan);

    assert_eq!(dev.pan_abs_set(25), Ok(()));

    // the compound write carried the commanded pan and the just-read tilt
    let log = &dev.chan.log;
    assert_eq!(log.len(), 2);
    assert!(!log[0].is_write);
    assert!(log[1].is_write);
    assert_eq!(log[1].data, encode_pan_tilt_abs(25, 7));

    // a subsequent tilt read still sees the old tilt value
    assert_eq!(dev.tilt_abs(), Ok(7));
    assert_eq!(dev.pan_abs(), Ok(25));
}

#[test]
fn unserialized_compound_writers_lose_a_concurrent_tilt_change() {
    // the documented race: a writer that changes tilt between the
    // coordinator's read and write, without holding the channel for the
    // whole sequence, is silently overwritten (last-writer-wins)
    let mut chan = MockChannel::new();
    chan.seed(Request::GetCur, PAN_TILT_ABS, encode_pan_tilt_abs(100, 7));
    let mut dev = compound_handle(chan);

    // step 1 of a hand-rolled compound set: read the sibling
    let stale_tilt = dev.tilt_abs().unwrap();
    assert_eq!(stale_tilt, 7);

    // a concurrent writer changes tilt to 99 in between
    assert_eq!(dev.tilt_abs_set(99), Ok(()));
    assert_eq!(dev.tilt_abs(), Ok(99));

    // step 3: the first writer completes its compound write with the stale
    // tilt it read in step 1
    let stale_word = encode_pan_tilt_abs(25, stale_tilt);
    dev.chan
        .mock_set(&Selector::PanTiltAbsolute, ADDR, stale_word.as_slice())
        .unwrap();

    // the concurrent change is gone: the old tilt was written back
    assert_eq!(dev.tilt_abs(), Ok(7));
}

#[test]
fn tilt_set_preserves_a_fresh_pan_reading() {
    let mut chan = MockChannel::new();
    chan.seed(Request::GetCur, PAN_TILT_ABS, encode_pan_tilt_abs(100, 7));
    let mut dev = compound_handle(chan);
    assert_eq!(dev.tilt_abs_set(-3), Ok(()));
    assert_eq!(dev.chan.log[1].data, encode_pan_tilt_abs(100, -3));
    assert_eq!(dev.pan_abs(), Ok(100));
}

#[test]
fn compound_set_fails_rather_than_write_a_stale_sibling() {
    // the sibling read fails: the whole compound set fails and nothing is
    // written
    let chan = MockChannel::new();
    let mut dev = compound_handle(chan);
    assert_eq!(dev.pan_abs_set(25), Err(Error::Unsupported));
    assert_eq!(dev.chan.log.len(), 1);
    assert!(!dev.chan.log[0].is_write);
}

#[test]
fn compound_relative_set_combines_steps_and_sibling_direction() {
    let mut chan = MockChannel::new();
    chan.seed(Request::GetRes, PAN_TILT_REL, vec![2, 0, 4, 0]);
    chan.seed(Request::GetCur, PAN_TILT_REL, vec![0, 0, 0xff, 0]);
    let mut dev = compound_handle(chan);
    assert_eq!(dev.pan_rel_set(RelativeCommand::Positive), Ok(()));
    let log = &dev.chan.log;
    assert_eq!(log.len(), 3);
    assert_eq!(log[2].data, vec![1, 2, 0xff, 4]);
}

#[test]
fn tilt_relative_set_mirrors_the_pan_side() {
    let mut chan = MockChannel::new();
    chan.seed(Request::GetRes, PAN_TILT_REL, vec![2, 0, 4, 0]);
    chan.seed(Request::GetCur, PAN_TILT_REL, vec![1, 0, 0, 0]);
    let mut dev = compound_handle(chan);
    assert_eq!(dev.tilt_rel_set(RelativeCommand::Negative), Ok(()));
    assert_eq!(dev.chan.log[2].data, vec![1, 2, 0xff, 4]);
}

#[test]
fn independent_backend_writes_one_axis_alone() {
    // pan and tilt fully independent on this backend: no sibling read
    let chan = MockChannel::new();
    let mut dev = DeviceHandle::new(chan, ADDR, 0, false, false);
    assert_eq!(dev.pan_abs_set(25), Ok(()));
    let log = &dev.chan.log;
    assert_eq!(log.len(), 1);
    assert!(log[0].is_write);
    assert_eq!(log[0].data, vec![25, 0, 0, 0]);
    assert_eq!(dev.pan_abs(), Ok(25));
}

#[test]
fn independent_backend_relative_set_has_no_sibling_bytes() {
    let mut chan = MockChannel::new();
    chan.seed(Request::GetRes, PAN_TILT_REL, vec![3, 0]);
    let mut dev = DeviceHandle::new(chan, ADDR, 0, false, false);
    assert_eq!(dev.tilt_rel_set(RelativeCommand::Positive), Ok(()));
    assert_eq!(dev.chan.log[1].data, vec![1, 3]);
}

#[test]
fn relative_gets_sign_extend_the_direction_byte() {
    // a current direction of 0xff is the signed value -1, not 255
    let mut chan = MockChannel::new();
    chan.seed(Request::GetCur, ZOOM_REL, vec![0xff, 1, 3]);
    chan.seed(Request::GetCur, PAN_TILT_REL, vec![0xff, 2, 0x01, 4]);
    let mut dev = compound_handle(chan);
    assert_eq!(dev.zoom_rel(), Ok(-1));
    assert_eq!(dev.pan_rel(), Ok(-1));
    assert_eq!(dev.tilt_rel(), Ok(1));

    let mut chan = MockChannel::new();
    chan.seed(Request::GetCur, PAN_TILT_REL, vec![0x01, 2, 0xff, 4]);
    let mut dev = compound_handle(chan);
    assert_eq!(dev.pan_rel(), Ok(1));
    assert_eq!(dev.tilt_rel(), Ok(-1));
}

#[test]
fn relative_caps_sign_extend_bounds_but_not_the_step() {
    // min/max/def live in the signed direction column; res is the unsigned
    // step
    let mut chan = MockChannel::new();
    chan.seed(Request::GetMin, ZOOM_REL, vec![0xff, 1, 0]);
    chan.seed(Request::GetMax, ZOOM_REL, vec![0x01, 1, 0]);
    chan.seed(Request::GetRes, ZOOM_REL, vec![200, 1, 0]);
    chan.seed(Request::GetDef, ZOOM_REL, vec![0x00, 1, 0]);
    let mut dev = compound_handle(chan);
    assert_eq!(
        dev.zoom_rel_caps(),
        Ok(Caps { min: -1, max: 1, res: 200, def: 0 })
    );
}

#[test]
fn tilt_relative_caps_read_the_tilt_columns() {
    let mut chan = MockChannel::new();
    chan.seed(Request::GetMin, PAN_TILT_REL, vec![0, 0, 0xff, 0]);
    chan.seed(Request::GetMax, PAN_TILT_REL, vec![0, 0, 0x01, 0]);
    chan.seed(Request::GetRes, PAN_TILT_REL, vec![0, 0, 130, 0]);
    chan.seed(Request::GetDef, PAN_TILT_REL, vec![0, 0, 0, 0]);
    let mut dev = compound_handle(chan);
    assert_eq!(
        dev.tilt_rel_caps(),
        Ok(Caps { min: -1, max: 1, res: 130, def: 0 })
    );
}

#[test]
fn auto_focus_set_writes_one_byte() {
    let chan = MockChannel::new();
    let mut dev = compound_handle(chan);
    assert_eq!(dev.auto_focus_set(true), Ok(()));
    assert_eq!(dev.auto_focus_set(false), Ok(()));
    assert_eq!(dev.chan.log[0].data, vec![1]);
    assert_eq!(dev.chan.log[1].data, vec![0]);
}

#[test]
fn silent_channel_times_out_on_get_and_set() {
    let mut chan = MockChannel::new();
    chan.seed(Request::GetCur, ZOOM_ABS, vec![0x10, 0x00]);
    chan.mode = MockMode::Silent;
    let mut dev = compound_handle(chan);
    assert_eq!(dev.zoom_abs(), Err(Error::Timeout));
    assert_eq!(dev.zoom_abs_set(1), Err(Error::Timeout));
    assert_eq!(dev.pan_abs_set(1), Err(Error::Timeout));
    assert_eq!(dev.zoom_abs_caps(), Err(Error::Timeout));
}

#[test]
fn broken_transport_reports_a_transport_error() {
    let mut chan = MockChannel::new();
    chan.mode = MockMode::Broken;
    let mut dev = compound_handle(chan);
    assert_eq!(dev.zoom_abs(), Err(Error::TransportError));
    assert_eq!(dev.zoom_abs_set(1), Err(Error::TransportError));
}

#[test]
fn missing_control_is_unsupported() {
    let chan = MockChannel::new();
    let mut dev = compound_handle(chan);
    assert_eq!(dev.zoom_abs(), Err(Error::Unsupported));
}

#[test]
fn vendor_write_probe_stops_at_the_first_accepting_node() {
    // four nodes, only node 2 accepts: one accepted attempt, none after it
    let mut chan = MockChannel::new();
    chan.accept_node = Some(2);
    let mut dev = compound_handle(chan);
    assert_eq!(
        dev.set_xu("{a8bd5df2-1a98-474e-8dd0-d92672d194fa}", 2, &[2]),
        Ok(())
    );
    let log = &dev.chan.log;
    assert_eq!(log.len(), 3);
    for (node, event) in log.iter().enumerate() {
        assert!(event.is_write);
        assert_eq!(event.addr, Address::Node { node: node as u32 });
        assert_eq!(event.ok, node == 2);
    }
}

#[test]
fn vendor_read_probe_returns_the_accepting_nodes_data() {
    let mut chan = MockChannel::new();
    chan.accept_node = Some(1);
    chan.xu_data = vec![9, 9];
    let mut dev = compound_handle(chan);
    assert_eq!(
        dev.get_xu("{a8bd5df2-1a98-474e-8dd0-d92672d194fa}", 2, 2),
        Ok(vec![9, 9])
    );
    assert_eq!(dev.chan.log.len(), 2);
    assert!(!dev.chan.log[0].ok);
    assert!(dev.chan.log[1].ok);
}

#[test]
fn exhausted_probe_reports_address_not_found() {
    let chan = MockChannel::new();
    let mut dev = compound_handle(chan);
    assert_eq!(
        dev.set_xu("{a8bd5df2-1a98-474e-8dd0-d92672d194fa}", 2, &[2]),
        Err(Error::AddressNotFound)
    );
    assert_eq!(dev.chan.log.len(), 4);
    assert!(dev.chan.log.iter().all(|e| !e.ok));
}

#[test]
fn vendor_write_then_read_round_trips_through_the_node() {
    let mut chan = MockChannel::new();
    chan.accept_node = Some(0);
    let mut dev = compound_handle(chan);
    assert_eq!(dev.set_xu("{guid}", 5, &[1, 2, 3]), Ok(()));
    assert_eq!(dev.get_xu("{guid}", 5, 3), Ok(vec![1, 2, 3]));
}
