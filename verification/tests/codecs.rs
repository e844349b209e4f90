use meh_asus::codec::CodecEntry;
use meh_asus::codec::CodecTableError;
use meh_asus::codec::EnumCodec;
use meh_asus::debugfs::common_hardware::fan::FanMode;
use meh_asus::debugfs::common_hardware::kbd_blacklight::KbdBrightness;
use meh_asus::debugfs::common_hardware::led_state::LedState;
use meh_asus::debugfs::config_trait::Config;
use meh_asus::debugfs::error::StateError;
use meh_asus::fan::configurations::AsusNbWmiFanMode;
use meh_asus::fan::configurations::AsusNbWmiFanModeError;

#[test]
fn led_state_round_trip() {
    for s in [LedState::Off, LedState::On] {
        assert_eq!(LedState::decode(s.raw()), Ok(s));
    }
    assert_eq!(LedState::decode(0), Ok(LedState::Off));
    assert_eq!(LedState::decode(1), Ok(LedState::On));
    assert_eq!(LedState::decode(2), Err(StateError::NotPossibleState { value: 2 }));
    assert_eq!(LedState::Off.to_config(), b"0".to_vec());
    assert_eq!(LedState::On.to_config(), b"1".to_vec());
}

#[test]
fn fan_mode_round_trip() {
    let all = [FanMode::Standard, FanMode::Whispher, FanMode::Performace, FanMode::FullSpeed];
    for (i, s) in all.iter().enumerate() {
        assert_eq!(s.raw(), i as u64);
        assert_eq!(FanMode::decode(i as u64), Ok(*s));
    }
    assert_eq!(FanMode::Performace.to_config(), b"2".to_vec());
    assert_eq!(FanMode::decode(4), Err(StateError::NotPossibleState { value: 4 }));
}

#[test]
fn integer_identity_codec() {
    assert_eq!(42u64.to_config(), b"42".to_vec());
    assert_eq!(<u64 as Config>::decode(7), Ok(7));
    assert_eq!(0u64.to_config(), b"0".to_vec());
    assert_eq!(<u8 as Config>::decode(255), Ok(255u8));
    assert_eq!(<u8 as Config>::decode(256), Err(StateError::NotPossibleState { value: 256 }));
    assert_eq!(200u8.to_config(), b"200".to_vec());
    assert_eq!(<u16 as Config>::decode(70000), Err(StateError::NotPossibleState { value: 70000 }));
    assert_eq!(<u32 as Config>::decode(70000), Ok(70000u32));
}

#[test]
fn kbd_backlight_high_bit_convention() {
    // logical 0 is the declared off label, written bare
    assert_eq!(KbdBrightness::Off.raw(), 0);
    assert_eq!(KbdBrightness::decode(0), Ok(KbdBrightness::Off));
    // logical value 1 encodes as raw 0x81, and 0x81 decodes back to it
    assert_eq!(KbdBrightness::Low.raw(), 0x81);
    assert_eq!(KbdBrightness::Low.logical(), 1);
    assert_eq!(KbdBrightness::decode(0x81), Ok(KbdBrightness::Low));
    assert_eq!(KbdBrightness::Medium.raw(), 0x82);
    assert_eq!(KbdBrightness::High.raw(), 0x83);
    // the written text is the decimal of the OR'd raw code: 0x81 == 129
    assert_eq!(KbdBrightness::Low.to_config(), b"129".to_vec());
    // bare logical values other than 0 are not declared raw codes
    assert_eq!(KbdBrightness::decode(1), Err(StateError::NotPossibleState { value: 1 }));
    assert_eq!(KbdBrightness::decode(0x84), Err(StateError::NotPossibleState { value: 0x84 }));
}

#[test]
fn table_codec_round_trip() {
    let table = vec![
        CodecEntry { label: b"off".to_vec(), raw: 0 },
        CodecEntry { label: b"on".to_vec(), raw: 1 },
        CodecEntry { label: b"blink".to_vec(), raw: 7 },
    ];
    let codec = EnumCodec::new(table).unwrap();
    assert_eq!(codec.len(), 3);
    assert_eq!(codec.label(2), &b"blink".to_vec());
    for i in 0..3usize {
        let raw = [0u64, 1, 7][i];
        assert_eq!(codec.encode(i), raw.to_string().into_bytes());
        assert_eq!(codec.decode(raw), Ok(i));
    }
    assert_eq!(codec.decode(2), Err(StateError::NotPossibleState { value: 2 }));
}

#[test]
fn table_codec_rejects_duplicates() {
    let table = vec![
        CodecEntry { label: b"a".to_vec(), raw: 3 },
        CodecEntry { label: b"b".to_vec(), raw: 4 },
        CodecEntry { label: b"c".to_vec(), raw: 3 },
    ];
    let rejected = EnumCodec::new(table);
    assert!(matches!(rejected, Err(CodecTableError::DuplicateRawValue { raw: 3 })));
}

#[test]
fn pwm_fan_mode_byte_codec() {
    assert_eq!(AsusNbWmiFanMode::try_from(b'0'), Ok(AsusNbWmiFanMode::FullSpeed));
    assert_eq!(AsusNbWmiFanMode::try_from(b'1'), Ok(AsusNbWmiFanMode::Manual));
    assert_eq!(AsusNbWmiFanMode::try_from(b'2'), Ok(AsusNbWmiFanMode::Auto));
    for m in [AsusNbWmiFanMode::FullSpeed, AsusNbWmiFanMode::Manual, AsusNbWmiFanMode::Auto] {
        assert_eq!(AsusNbWmiFanMode::try_from(m.as_byte()), Ok(m));
    }
    // a declared digit outside the set, and a non-digit byte, both fail
    assert_eq!(
        AsusNbWmiFanMode::try_from(0x39),
        Err(AsusNbWmiFanModeError::InvalidFanMode { value: 0x39 })
    );
    assert_eq!(
        AsusNbWmiFanMode::try_from(0x41),
        Err(AsusNbWmiFanModeError::NonNumericByte { value: 0x41 })
    );
}
