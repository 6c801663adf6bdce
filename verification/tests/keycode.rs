use easyx::keycode::KeyCode;

#[test]
fn round_trip_every_byte() {
    for b in 0..=255u8 {
        let k = KeyCode::from_raw(b);
        assert_eq!(k.to_raw(), b);
    }
}

#[test]
fn named_codes_decode_to_named_keys() {
    assert_eq!(KeyCode::from_raw(0x1B), KeyCode::Escape);
    assert_eq!(KeyCode::from_raw(0x41), KeyCode::A);
    assert_eq!(KeyCode::from_raw(0x5A), KeyCode::Z);
    assert_eq!(KeyCode::from_raw(0x20), KeyCode::Space);
    assert_eq!(KeyCode::from_raw(0x25), KeyCode::Left);
    assert_eq!(KeyCode::from_raw(0x26), KeyCode::Up);
    assert_eq!(KeyCode::from_raw(0x27), KeyCode::Right);
    assert_eq!(KeyCode::from_raw(0x28), KeyCode::Down);
    assert_eq!(KeyCode::from_raw(0x01), KeyCode::LButton);
    assert_eq!(KeyCode::from_raw(0x87), KeyCode::F24);
    assert_eq!(KeyCode::from_raw(0xFE), KeyCode::OemClear);
}

#[test]
fn unnamed_codes_decode_to_other() {
    assert_eq!(KeyCode::from_raw(0x00), KeyCode::Other(0x00));
    assert_eq!(KeyCode::from_raw(0x07), KeyCode::Other(0x07));
    assert_eq!(KeyCode::from_raw(0x0A), KeyCode::Other(0x0A));
    assert_eq!(KeyCode::from_raw(0xFF), KeyCode::Other(0xFF));
    assert_eq!(KeyCode::from_raw(0xFC), KeyCode::Other(0xFC));
}

#[test]
fn named_keys_encode_to_their_codes() {
    assert_eq!(KeyCode::Escape.to_raw(), 0x1B);
    assert_eq!(KeyCode::A.to_raw(), 0x41);
    assert_eq!(KeyCode::Space.to_raw(), 0x20);
    assert_eq!(KeyCode::Other(0xFF).to_raw(), 0xFF);
}
