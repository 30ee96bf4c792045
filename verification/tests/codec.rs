use lankm::data::DecodeError;
use lankm::data::KeyEvent;
use lankm::data::KeyEventKind;
use lankm::data::Modifiers;

fn mods(ctrl: bool, alt: bool, shift: bool) -> Modifiers {
    Modifiers { ctrl, alt, shift }
}

#[test]
fn encode_exact_bytes() {
    let e = KeyEvent { hid: 0x1234, kind: KeyEventKind::Press, mods: mods(true, false, true) };
    assert_eq!(e.to_bytes(), [0x34, 0x12, 0, 5]);

    let e = KeyEvent { hid: 0xE0, kind: KeyEventKind::Release, mods: mods(false, true, false) };
    assert_eq!(e.to_bytes(), [0xE0, 0x00, 1, 2]);

    let e = KeyEvent { hid: 0, kind: KeyEventKind::Press, mods: mods(false, false, false) };
    assert_eq!(e.to_bytes(), [0, 0, 0, 0]);

    let e = KeyEvent { hid: 0xFFFF, kind: KeyEventKind::Release, mods: mods(true, true, true) };
    assert_eq!(e.to_bytes(), [0xFF, 0xFF, 1, 7]);
}

#[test]
fn decode_exact_events() {
    let e = KeyEvent::from_bytes([0x34, 0x12, 0, 5]).unwrap();
    assert_eq!(e, KeyEvent { hid: 0x1234, kind: KeyEventKind::Press, mods: mods(true, false, true) });

    let e = KeyEvent::from_bytes([0x2B, 0, 1, 0]).unwrap();
    assert_eq!(e, KeyEvent { hid: 0x2B, kind: KeyEventKind::Release, mods: mods(false, false, false) });
}

#[test]
fn round_trip_event_to_bytes_and_back() {
    let cases = [
        KeyEvent { hid: 0, kind: KeyEventKind::Press, mods: mods(false, false, false) },
        KeyEvent { hid: 0x2B, kind: KeyEventKind::Press, mods: mods(true, true, false) },
        KeyEvent { hid: 0xE4, kind: KeyEventKind::Release, mods: mods(false, false, true) },
        KeyEvent { hid: 0xFFFF, kind: KeyEventKind::Release, mods: mods(true, true, true) },
        KeyEvent { hid: 300, kind: KeyEventKind::Press, mods: mods(false, true, false) },
    ];
    for e in cases {
        assert_eq!(KeyEvent::from_bytes(e.to_bytes()), Ok(e));
    }
}

#[test]
fn round_trip_bytes_to_event_and_back() {
    let cases = [
        [0u8, 0, 0, 0],
        [0x34, 0x12, 0, 5],
        [0xFF, 0xFF, 1, 7],
        [0xE0, 0, 1, 0],
        [7, 1, 1, 3],
    ];
    for b in cases {
        let e = KeyEvent::from_bytes(b).unwrap();
        assert_eq!(e.to_bytes(), b);
    }
}

#[test]
fn decode_rejects_bad_kind_byte() {
    for kind_byte in [2u8, 3, 0x80, 0xFF] {
        let r = KeyEvent::from_bytes([0, 0, kind_byte, 0]);
        assert_eq!(r, Err(DecodeError::InvalidKind));
    }
}

#[test]
fn decode_rejects_bad_modifier_mask() {
    for mask in [8u8, 9, 0x10, 0xFF] {
        let r = KeyEvent::from_bytes([0, 0, 1, mask]);
        assert_eq!(r, Err(DecodeError::InvalidModifiers));
    }
}

#[test]
fn bad_kind_reported_before_bad_modifiers() {
    let r = KeyEvent::from_bytes([0, 0, 9, 9]);
    assert_eq!(r, Err(DecodeError::InvalidKind));
}

#[test]
fn kind_bytes() {
    assert_eq!(KeyEventKind::Press.byte(), 0);
    assert_eq!(KeyEventKind::Release.byte(), 1);
    assert_eq!(KeyEventKind::from_byte(0), Some(KeyEventKind::Press));
    assert_eq!(KeyEventKind::from_byte(1), Some(KeyEventKind::Release));
    assert_eq!(KeyEventKind::from_byte(2), None);
}

#[test]
fn modifier_bits() {
    assert_eq!(Modifiers::empty().bits(), 0);
    assert_eq!(mods(true, false, false).bits(), 1);
    assert_eq!(mods(false, true, false).bits(), 2);
    assert_eq!(mods(false, false, true).bits(), 4);
    assert_eq!(mods(true, true, true).bits(), 7);
    for b in 0..8u8 {
        assert_eq!(Modifiers::from_bits(b).unwrap().bits(), b);
    }
    assert_eq!(Modifiers::from_bits(8), None);
}
