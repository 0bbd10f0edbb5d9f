use qemu_display::keyboard::{modifiers_from_bits, KeyboardModifiers};
use qemu_display::mouse::{button_from_number, MouseButton};

#[test]
fn modifier_bits_match_the_wire_encoding() {
    assert_eq!(KeyboardModifiers::Scroll.bit(), 0x1);
    assert_eq!(KeyboardModifiers::Num.bit(), 0x2);
    assert_eq!(KeyboardModifiers::Caps.bit(), 0x4);
}

#[test]
fn modifier_masks_decode_exactly() {
    assert_eq!(modifiers_from_bits(0), vec![]);
    assert_eq!(modifiers_from_bits(0x1), vec![KeyboardModifiers::Scroll]);
    assert_eq!(
        modifiers_from_bits(0x6),
        vec![KeyboardModifiers::Num, KeyboardModifiers::Caps]
    );
    assert_eq!(
        modifiers_from_bits(0x7),
        vec![KeyboardModifiers::Scroll, KeyboardModifiers::Num, KeyboardModifiers::Caps]
    );
    // Unknown bits decode to nothing.
    assert_eq!(modifiers_from_bits(0x8), vec![]);
}

#[test]
fn front_end_buttons_map_to_protocol_buttons() {
    assert_eq!(button_from_number(1), MouseButton::Left);
    assert_eq!(button_from_number(2), MouseButton::Middle);
    assert_eq!(button_from_number(3), MouseButton::Right);
    assert_eq!(button_from_number(4), MouseButton::Extra);
    assert_eq!(button_from_number(0), MouseButton::Extra);
}
