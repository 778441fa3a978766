use hid_gadget::device::{
    decode_absl_mouse, decode_keyboard, decode_rela_mouse, AbslMouseBuf, DeviceBuffer, HIDBuffer,
    KeyboardBuf, RelaMouseBuf, SinkClass,
};

#[test]
fn keyboard_scenario_key_a() {
    let k = KeyboardBuf { modifier: 0, reserved: 0, keys: [4, 0, 0, 0, 0, 0] };
    assert_eq!(k.to_vec(), vec![0x00, 0x00, 0x04, 0x00, 0x00, 0x00, 0x00, 0x00]);
}

#[test]
fn rela_mouse_scenario_up_120() {
    let m =
        RelaMouseBuf { button_status: 0, x_movement: 0, y_movement: -120, v_wheel: 0, h_wheel: 0 };
    assert_eq!(m.to_vec(), vec![0x00, 0x00, 0x88, 0x00, 0x00]);
}

#[test]
fn absl_mouse_scenario_1285() {
    let m =
        AbslMouseBuf { button_status: 0, x_position: 1285, y_position: 1285, v_wheel: 0, h_wheel: 0 };
    assert_eq!(m.to_vec(), vec![0x00, 0x05, 0x05, 0x05, 0x05, 0x00, 0x00]);
}

#[test]
fn keyboard_length_and_key_order() {
    let k = KeyboardBuf { modifier: 0x12, reserved: 0x34, keys: [1, 2, 3, 4, 5, 6] };
    let v = k.to_vec();
    assert_eq!(v.len(), 8);
    assert_eq!(v, vec![0x12, 0x34, 1, 2, 3, 4, 5, 6]);
}

#[test]
fn rela_mouse_field_order() {
    let m = RelaMouseBuf { button_status: 1, x_movement: 2, y_movement: 3, v_wheel: 4, h_wheel: 5 };
    let v = m.to_vec();
    assert_eq!(v.len(), 5);
    assert_eq!(v, vec![1, 2, 3, 4, 5]);
}

#[test]
fn absl_mouse_little_endian_positions() {
    let m = AbslMouseBuf {
        button_status: 9,
        x_position: 0x1234,
        y_position: 0xABCD,
        v_wheel: -1,
        h_wheel: 1,
    };
    let v = m.to_vec();
    assert_eq!(v.len(), 7);
    assert_eq!(v, vec![9, 0x34, 0x12, 0xCD, 0xAB, 0xFF, 1]);
}

#[test]
fn signed_deltas_use_twos_complement() {
    let m = RelaMouseBuf {
        button_status: 0,
        x_movement: -1,
        y_movement: -128,
        v_wheel: 127,
        h_wheel: 0,
    };
    assert_eq!(m.to_vec(), vec![0x00, 0xFF, 0x80, 0x7F, 0x00]);
}

#[test]
fn keyboard_round_trip() {
    let k = KeyboardBuf { modifier: 0xA5, reserved: 0x5A, keys: [4, 5, 6, 7, 8, 9] };
    assert_eq!(decode_keyboard(&k.to_vec()), k);
}

#[test]
fn rela_mouse_round_trip() {
    let m = RelaMouseBuf {
        button_status: 3,
        x_movement: -120,
        y_movement: 120,
        v_wheel: -1,
        h_wheel: 1,
    };
    assert_eq!(decode_rela_mouse(&m.to_vec()), m);
}

#[test]
fn absl_mouse_round_trip() {
    let m = AbslMouseBuf {
        button_status: 7,
        x_position: 65535,
        y_position: 256,
        v_wheel: -128,
        h_wheel: 127,
    };
    assert_eq!(decode_absl_mouse(&m.to_vec()), m);
}

#[test]
fn hid_buffer_encodes_by_tag() {
    let k = KeyboardBuf { modifier: 2, reserved: 0, keys: [4, 5, 0, 0, 0, 0] };
    let r = RelaMouseBuf { button_status: 1, x_movement: 10, y_movement: -10, v_wheel: 0, h_wheel: 0 };
    let a = AbslMouseBuf { button_status: 0, x_position: 100, y_position: 200, v_wheel: 0, h_wheel: 0 };
    assert_eq!(HIDBuffer::Keyboard(k).to_vec(), k.to_vec());
    assert_eq!(HIDBuffer::RelaMouse(r).to_vec(), r.to_vec());
    assert_eq!(HIDBuffer::AbslMouse(a).to_vec(), a.to_vec());
}

#[test]
fn hid_buffer_routes_by_tag() {
    let k = KeyboardBuf::new();
    let r = RelaMouseBuf::new();
    let a = AbslMouseBuf::new();
    assert_eq!(HIDBuffer::Keyboard(k).sink_class(), SinkClass::Keyboard);
    assert_eq!(HIDBuffer::RelaMouse(r).sink_class(), SinkClass::RelaMouse);
    assert_eq!(HIDBuffer::AbslMouse(a).sink_class(), SinkClass::AbslMouse);
}

#[test]
fn new_reports_are_all_zero() {
    assert_eq!(KeyboardBuf::new().to_vec(), vec![0u8; 8]);
    assert_eq!(RelaMouseBuf::new().to_vec(), vec![0u8; 5]);
    assert_eq!(AbslMouseBuf::new().to_vec(), vec![0u8; 7]);
    let h = HIDBuffer::new();
    assert_eq!(h.to_vec(), vec![0u8; 8]);
    assert_eq!(h.sink_class(), SinkClass::Keyboard);
}

#[test]
fn encoding_is_idempotent() {
    let m = AbslMouseBuf {
        button_status: 4,
        x_position: 513,
        y_position: 1027,
        v_wheel: 5,
        h_wheel: -5,
    };
    assert_eq!(m.to_vec(), m.to_vec());
}
