use chip8::keypad::{Keypad, PhysicalKey, KEY_COUNT};

#[test]
fn new_keypad_has_no_key_pressed() {
    let keypad = Keypad::new();
    assert_eq!(KEY_COUNT, 16);
    for key in 0..16u8 {
        assert!(!keypad.is_pressed(key));
    }
    assert_eq!(keypad.get_pressed_key(), None);
}

#[test]
fn press_and_release_set_one_key() {
    let mut keypad = Keypad::new();
    keypad.press(0xA);
    for key in 0..16u8 {
        assert_eq!(keypad.is_pressed(key), key == 0xA);
    }
    keypad.press(0xA);
    assert!(keypad.is_pressed(0xA));
    keypad.release(0xA);
    assert!(!keypad.is_pressed(0xA));
    keypad.release(0xA);
    assert_eq!(keypad.get_pressed_key(), None);
}

#[test]
fn get_pressed_key_returns_the_lowest() {
    let mut keypad = Keypad::new();
    keypad.press(0xF);
    assert_eq!(keypad.get_pressed_key(), Some(0xF));
    keypad.press(0x7);
    assert_eq!(keypad.get_pressed_key(), Some(0x7));
    keypad.press(0x0);
    assert_eq!(keypad.get_pressed_key(), Some(0x0));
    keypad.release(0x0);
    assert_eq!(keypad.get_pressed_key(), Some(0x7));
    keypad.release(0x7);
    keypad.release(0xF);
    assert_eq!(keypad.get_pressed_key(), None);
}

#[test]
fn get_pressed_key_is_the_lowest_for_every_pair() {
    for a in 0..16u8 {
        for b in 0..16u8 {
            let mut keypad = Keypad::new();
            keypad.press(a);
            keypad.press(b);
            assert_eq!(keypad.get_pressed_key(), Some(a.min(b)));
        }
    }
}

#[test]
fn map_key_follows_the_conventional_layout() {
    let keypad = Keypad::new();
    let layout = [
        (PhysicalKey::Digit1, 0x1u8),
        (PhysicalKey::Digit2, 0x2),
        (PhysicalKey::Digit3, 0x3),
        (PhysicalKey::Digit4, 0xC),
        (PhysicalKey::KeyQ, 0x4),
        (PhysicalKey::KeyW, 0x5),
        (PhysicalKey::KeyE, 0x6),
        (PhysicalKey::KeyR, 0xD),
        (PhysicalKey::KeyA, 0x7),
        (PhysicalKey::KeyS, 0x8),
        (PhysicalKey::KeyD, 0x9),
        (PhysicalKey::KeyF, 0xE),
        (PhysicalKey::KeyZ, 0xA),
        (PhysicalKey::KeyX, 0x0),
        (PhysicalKey::KeyC, 0xB),
        (PhysicalKey::KeyV, 0xF),
    ];
    for (key, expected) in layout {
        assert_eq!(keypad.map_key(key), Some(expected));
    }
    assert_eq!(keypad.map_key(PhysicalKey::Other), None);
}

#[test]
fn handle_key_event_presses_and_releases() {
    let mut keypad = Keypad::new();
    keypad.handle_key_event(PhysicalKey::KeyQ, true);
    assert!(keypad.is_pressed(0x4));
    assert_eq!(keypad.get_pressed_key(), Some(0x4));
    keypad.handle_key_event(PhysicalKey::KeyX, true);
    assert!(keypad.is_pressed(0x0));
    assert_eq!(keypad.get_pressed_key(), Some(0x0));
    keypad.handle_key_event(PhysicalKey::KeyX, false);
    assert!(!keypad.is_pressed(0x0));
    assert!(keypad.is_pressed(0x4));
    keypad.handle_key_event(PhysicalKey::KeyQ, false);
    assert_eq!(keypad.get_pressed_key(), None);
}

#[test]
fn handle_key_event_ignores_other_keys() {
    let mut keypad = Keypad::new();
    keypad.press(0x3);
    keypad.handle_key_event(PhysicalKey::Other, true);
    keypad.handle_key_event(PhysicalKey::Other, false);
    for key in 0..16u8 {
        assert_eq!(keypad.is_pressed(key), key == 0x3);
    }
}
