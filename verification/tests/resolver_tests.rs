use uvc_control::resolver::{resolve_units, select_video_control_interface, InterfaceInfo};
use uvc_control::Error;

fn unit_desc(subtype: u8, id: u8) -> Vec<u8> {
    vec![0x0d, 0x24, subtype, id]
}

#[test]
fn first_match_wins_later_duplicates_ignored() {
    // Input-Terminal unit 5, then 9; Processing-Unit unit 7
    let descs = vec![
        unit_desc(0x02, 5),
        unit_desc(0x02, 9),
        unit_desc(0x05, 7),
    ];
    let units = resolve_units(&descs);
    assert_eq!(units.it_unit, 5);
    assert_eq!(units.pu_unit, 7);
}

#[test]
fn missing_descriptor_type_resolves_to_zero() {
    let descs = vec![unit_desc(0x02, 5)];
    let units = resolve_units(&descs);
    assert_eq!(units.it_unit, 5);
    assert_eq!(units.pu_unit, 0);
    let units = resolve_units(&Vec::new());
    assert_eq!(units.it_unit, 0);
    assert_eq!(units.pu_unit, 0);
}

#[test]
fn non_class_specific_and_short_descriptors_are_skipped() {
    let descs = vec![
        vec![0x09, 0x04, 0x02, 33], // not a class-specific interface descriptor
        vec![0x24, 0x02],           // too short to carry a unit id
        unit_desc(0x05, 7),
        unit_desc(0x02, 6),
    ];
    let units = resolve_units(&descs);
    assert_eq!(units.it_unit, 6);
    assert_eq!(units.pu_unit, 7);
}

#[test]
fn interface_selection_takes_the_first_video_control_interface() {
    let infs = vec![
        InterfaceInfo { class: 0x0e, subclass: 0x02, number: 0 }, // video streaming
        InterfaceInfo { class: 0x0e, subclass: 0x01, number: 1 },
        InterfaceInfo { class: 0x0e, subclass: 0x01, number: 2 },
    ];
    assert_eq!(select_video_control_interface(&infs), Ok(1));
}

#[test]
fn interface_selection_fails_without_a_video_control_interface() {
    let infs = vec![
        InterfaceInfo { class: 0x03, subclass: 0x01, number: 0 },
        InterfaceInfo { class: 0x0e, subclass: 0x02, number: 1 },
    ];
    assert_eq!(
        select_video_control_interface(&infs),
        Err(Error::InterfaceNotFound)
    );
    assert_eq!(
        select_video_control_interface(&Vec::new()),
        Err(Error::InterfaceNotFound)
    );
}
