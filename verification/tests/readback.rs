use meh_asus::debugfs::common_hardware::fan::FanMode;
use meh_asus::debugfs::common_hardware::led_state::LedState;
use meh_asus::debugfs::config::Hardware;
use meh_asus::debugfs::error::DevsConfigFileError;
use meh_asus::debugfs::error::DstsConfigFileError;
use meh_asus::debugfs::error::HardwareError;
use meh_asus::debugfs::error::StateError;

fn dsts_unexpected(text: &[u8], dev_id: u64) -> HardwareError {
    HardwareError::DstsConfigFileError(DstsConfigFileError::UnexpectedConfigFormat {
        value: text.to_vec(),
        dev_id,
    })
}

fn devs_unexpected(text: &[u8], dev_id: u64) -> HardwareError {
    HardwareError::DevsConfigFileError(DevsConfigFileError::UnexpectedConfigFormat {
        value: text.to_vec(),
        dev_id,
    })
}

#[test]
fn dsts_parses_matching_id() {
    let hw: Hardware<FanMode> = Hardware::new(0x110019);
    assert_eq!(hw.read_dsts(b"DSTS(0x110019) = 0x2"), Ok(2));
    // trailing newline and 0x-less value are tolerated
    assert_eq!(hw.read_dsts(b"DSTS(0x110019) = 0x2\n"), Ok(2));
    assert_eq!(hw.read_dsts(b"DSTS(0x110019) = 2"), Ok(2));
    // the id tolerates both spellings
    assert_eq!(hw.read_dsts(b"DSTS(110019) = 0x2"), Ok(2));
}

#[test]
fn dsts_rejects_foreign_id() {
    let text = b"DSTS(0x110019) = 0x2";
    let hw: Hardware<LedState> = Hardware::new(0x60079);
    assert_eq!(hw.read_dsts(text), Err(dsts_unexpected(text, 0x60079)));
}

#[test]
fn dsts_tolerates_absent_id() {
    let hw: Hardware<FanMode> = Hardware::new(0x110019);
    // no parenthesized id at all: the value is still returned
    assert_eq!(hw.read_dsts(b"weird = 0x1"), Ok(1));
    // an unreadable id segment counts as absent
    assert_eq!(hw.read_dsts(b"DSTS(zz) = 0x1"), Ok(1));
}

#[test]
fn dsts_rejects_bad_value_or_format() {
    let hw: Hardware<FanMode> = Hardware::new(0x110019);
    assert_eq!(
        hw.read_dsts(b"DSTS(0x110019) = zz"),
        Err(HardwareError::DstsConfigFileError(DstsConfigFileError::InvalidHexadecimalValue {
            value: b"zz".to_vec(),
        }))
    );
    assert_eq!(
        hw.read_dsts(b"DSTS(0x110019) = "),
        Err(HardwareError::DstsConfigFileError(DstsConfigFileError::InvalidHexadecimalValue {
            value: b"".to_vec(),
        }))
    );
    let no_eq = b"DSTS(0x110019) 0x2";
    assert_eq!(hw.read_dsts(no_eq), Err(dsts_unexpected(no_eq, 0x110019)));
}

#[test]
fn devs_matching_id_is_verified_ok() {
    let hw: Hardware<LedState> = Hardware::new(0x60079);
    assert_eq!(hw.read_stale(b"DEVS(0x60079, 0x0) = 0x1"), Ok(Ok(LedState::On)));
    assert_eq!(hw.read_stale(b"DEVS(0x60079, 0x0) = 0x1\n"), Ok(Ok(LedState::On)));
    // the result is the segment after `=`; the second field is ignored
    assert_eq!(hw.read_stale(b"DEVS(0x60079, 0x3) = 0x0"), Ok(Ok(LedState::Off)));
}

#[test]
fn devs_absent_id_is_unverifiable_err() {
    let hw: Hardware<LedState> = Hardware::new(0x60079);
    // id segment stripped out: the same decoded value, in the Err slot
    assert_eq!(hw.read_stale(b"DEVS(, 0x0) = 0x1"), Ok(Err(LedState::On)));
    // an id without the 0x spelling counts as absent here
    assert_eq!(hw.read_stale(b"DEVS(60079, 0x0) = 0x1"), Ok(Err(LedState::On)));
}

#[test]
fn devs_mismatched_id_is_hard_error() {
    let text = b"DEVS(0x60079, 0x0) = 0x1";
    let hw: Hardware<LedState> = Hardware::new(0x110019);
    assert_eq!(hw.read_stale(text), Err(devs_unexpected(text, 0x110019)));
}

#[test]
fn devs_rejects_bad_value_and_undeclared_state() {
    let hw: Hardware<LedState> = Hardware::new(0x60079);
    assert_eq!(
        hw.read_stale(b"DEVS(0x60079, 0x0) = xyz"),
        Err(HardwareError::DevsConfigFileError(DevsConfigFileError::InvalidHexadecimalValue {
            value: b"xyz".to_vec(),
        }))
    );
    assert_eq!(
        hw.read_stale(b"DEVS(0x60079, 0x0) = 0x5"),
        Err(HardwareError::StateError(StateError::NotPossibleState { value: 5 }))
    );
}

#[test]
fn devs_rejects_broken_grammar() {
    let hw: Hardware<LedState> = Hardware::new(0x60079);
    for text in [
        b"DSTS(0x60079) = 0x1".as_slice(),  // wrong prefix
        b"DEVS(0x60079, 0x0) 0x1".as_slice(),  // no '='
        b"DEVS(0x60079 0x0) = 0x1".as_slice(),  // no ','
        b"DEVS(0x60079, 0x0 = 0x1".as_slice(),  // no ')'
    ] {
        assert_eq!(hw.read_stale(text), Err(devs_unexpected(text, 0x60079)));
    }
}
