use meh_asus::fan::configurations::AsusNbWmiFanMode;
use meh_asus::fan::configurations::AsusNbWmiFanModeError;
use meh_asus::pwm::pwm_enable::error::FanModeReadError;
use meh_asus::pwm::pwm_enable::error::FanModeSetError;
use meh_asus::pwm::pwm_enable::error::InputReadError;
use meh_asus::pwm::pwm_enable::error::PwmEnableError;
use meh_asus::pwm::pwm_enable::traits::PwmEnableState;
use meh_asus::pwm::pwm_enable::traits::ReadConfig;
use meh_asus::pwm::pwm_enable::traits::WriteConfig;
use meh_asus::pwm::pwm_enable::PwmEnable;
use meh_asus::pwm::pwm_enable::PwmEnableReadOnly;
use meh_asus::pwm::pwm_enable::PwmEnableReadWrite;

#[test]
fn find_hwmon_path_picks_first_existing() {
    let probed = vec![false, false, false, true, false, true, false, false, false, false];
    let path = PwmEnable::<PwmEnableReadOnly>::find_hwmon_path(1, &probed).unwrap();
    assert_eq!(path, b"hwmon3/pwm1_enable".to_vec());

    let none = vec![false; 10];
    assert_eq!(
        PwmEnable::<PwmEnableReadOnly>::find_hwmon_path(7, &none),
        Err(PwmEnableError::UnsupportedHardware { pwm_id: 7 })
    );
}

#[test]
fn sibling_paths_are_derived() {
    let base = b"/sys/devices/platform/asus-nb-wmi/hwmon/hwmon3/pwm1_enable".to_vec();
    let ro: PwmEnable<PwmEnableReadOnly> = PwmEnable::new(base.clone(), 1);
    assert_eq!(ro.get_pwm_id(), 1);
    assert_eq!(ro.get_file_path(), &base);
    assert_eq!(
        ro.label_path(),
        b"/sys/devices/platform/asus-nb-wmi/hwmon/hwmon3/fan1_label".to_vec()
    );
    assert_eq!(
        ro.input_path(),
        b"/sys/devices/platform/asus-nb-wmi/hwmon/hwmon3/fan1_input".to_vec()
    );
}

#[test]
fn read_surface_decodes_files() {
    let ro: PwmEnable<PwmEnableReadOnly> = PwmEnable::new(b"hwmon3/pwm1_enable".to_vec(), 1);
    assert_eq!(ro.get_fan_mode(b'2'), Ok(AsusNbWmiFanMode::Auto));
    assert_eq!(
        ro.get_fan_mode(b'7'),
        Err(FanModeReadError::AsusNbWmiFanModeError {
            error: AsusNbWmiFanModeError::InvalidFanMode { value: b'7' },
        })
    );
    assert_eq!(ro.get_label(b"cpu_fan\n"), b"cpu_fan".to_vec());
    assert_eq!(ro.get_label(b"cpu_fan"), b"cpu_fan".to_vec());
    assert_eq!(ro.get_input(b"2400\n"), Ok(2400));
    assert_eq!(ro.get_input(b"0"), Ok(0));
    assert_eq!(
        ro.get_input(b"24x0\n"),
        Err(InputReadError::NonNumericInputValue { value: b"24x0".to_vec() })
    );
    assert_eq!(
        ro.get_input(b"99999\n"),
        Err(InputReadError::NonNumericInputValue { value: b"99999".to_vec() })
    );
}

#[test]
fn capability_upgrade_round_trips() {
    assert!(!PwmEnableReadOnly::write_permission());
    assert!(PwmEnableReadWrite::write_permission());

    let path = b"hwmon3/pwm1_enable".to_vec();
    let ro: PwmEnable<PwmEnableReadOnly> = PwmEnable::new(path.clone(), 1);
    // the consuming upgrade keeps the identical path and id
    let rw = ro.make_writable();
    assert_eq!(rw.get_file_path(), &path);
    assert_eq!(rw.get_pwm_id(), 1);

    // setting and then getting the fan mode round-trips byte-for-byte
    for mode in [AsusNbWmiFanMode::FullSpeed, AsusNbWmiFanMode::Manual, AsusNbWmiFanMode::Auto] {
        let written = rw.set_fan_mode(mode);
        assert_eq!(rw.get_fan_mode(written), Ok(mode));
    }
    assert_eq!(rw.set_fan_mode(AsusNbWmiFanMode::Manual), b'1');
}

#[test]
fn set_failures_classified_by_os_code() {
    let rw: PwmEnable<PwmEnableReadWrite> = PwmEnable::new(b"hwmon3/pwm1_enable".to_vec(), 1);
    let mode = AsusNbWmiFanMode::Manual;
    assert_eq!(
        rw.set_fan_mode_error(mode, Some(22)),
        FanModeSetError::IllegalFanModeValue { value: mode }
    );
    assert_eq!(
        rw.set_fan_mode_error(mode, Some(5)),
        FanModeSetError::AcPowerRequired { error: Some(5) }
    );
    assert_eq!(
        rw.set_fan_mode_error(mode, Some(13)),
        FanModeSetError::UnknownError { error: Some(13) }
    );
    assert_eq!(rw.set_fan_mode_error(mode, None), FanModeSetError::UnknownError { error: None });
}
