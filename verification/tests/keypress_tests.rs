//! Tests of the raw key-report decoder, including the Caps Lock polarity
//! quirk.

use roccat_vulcan_api_rs::KeyCode;
use roccat_vulcan_api_rs::KeyPress;

#[test]
fn decode_caps_lock_inverted_polarity() {
    let pressed = KeyPress::new_from_buffer([0, 0, 10, 57, 0]);
    assert!(pressed.is_pressed());
    assert_eq!(*pressed.key_code(), KeyCode::new(10, 57));

    let released = KeyPress::new_from_buffer([0, 0, 10, 57, 1]);
    assert!(!released.is_pressed());
    assert_eq!(*released.key_code(), KeyCode::new(10, 57));
}

#[test]
fn decode_regular_key_polarity() {
    let released = KeyPress::new_from_buffer([0, 0, 5, 33, 0]);
    assert!(!released.is_pressed());
    assert_eq!(*released.key_code(), KeyCode::new(5, 33));

    let pressed = KeyPress::new_from_buffer([0, 0, 5, 33, 1]);
    assert!(pressed.is_pressed());
    assert_eq!(*pressed.key_code(), KeyCode::new(5, 33));
}

#[test]
fn decoder_is_total_over_signal_values() {
    for signal in 0..=255u8 {
        let event = KeyPress::new_from_buffer([9, 9, 200, 7, signal]);
        assert_eq!(event.is_pressed(), signal != 0);
        let caps = KeyPress::new_from_buffer([9, 9, 10, 7, signal]);
        assert_eq!(caps.is_pressed(), signal == 0);
    }
}

#[test]
fn key_event_accessors() {
    let mut event = KeyPress::new(KeyCode::new(1, 2), true);
    assert!(event.is_pressed());
    assert_eq!(event.key_code().first_u8(), 1);
    assert_eq!(event.key_code().seconde_u8(), 2);
    *event.is_pressed_mut() = false;
    assert!(!event.is_pressed());
    *event.key_code_mut() = KeyCode::new(3, 4);
    assert_eq!(*event.key_code(), KeyCode::new(3, 4));
    let mut code = KeyCode::new(5, 6);
    *code.first_u8_mut() = 7;
    *code.seconde_u8_mut() = 8;
    assert_eq!(code, KeyCode::new(7, 8));
}
