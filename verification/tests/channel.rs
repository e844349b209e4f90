use meh_asus::debugfs::common_hardware::camera_led;
use meh_asus::debugfs::common_hardware::fan;
use meh_asus::debugfs::common_hardware::fan::FanMode;
use meh_asus::debugfs::common_hardware::mic_led;
use meh_asus::debugfs::config::Hardware;
use meh_asus::debugfs::error::HardwareError;
use meh_asus::debugfs::error::StateError;

#[test]
fn common_hardware_channels() {
    assert_eq!(camera_led::get().dev_id(), 0x60079);
    assert_eq!(mic_led::get().dev_id(), 0x40017);
    let fan_hw = fan::get();
    assert_eq!(fan_hw.dev_id(), 0x110019);
    assert!(!fan_hw.mask_known());
}

#[test]
fn apply_plans_carry_exact_texts() {
    let hw = fan::get();
    assert_eq!(hw.dev_id_text(), b"1114137".to_vec());  // 0x110019 in decimal
    let plan = hw.apply(FanMode::Performace);
    assert_eq!(plan.dev_id_text, b"1114137".to_vec());
    assert_eq!(plan.param_text, b"2".to_vec());
    let raw_plan = hw.apply_any(0u64);
    assert_eq!(raw_plan.dev_id_text, b"1114137".to_vec());
    assert_eq!(raw_plan.param_text, b"0".to_vec());
}

#[test]
fn mask_discovery_reads_through() {
    // a simulated device: true raw state 2, mask 0x120000
    let mask: u64 = 0x120000;
    let true_raw: u64 = 2;
    let mut hw = fan::get();
    assert!(!hw.mask_known());

    // first status readback comes back masked
    let r0 = true_raw ^ mask;
    // after the perturbing write of zero, the readback is the mask itself;
    // learning it yields the plan that restores the original state
    let restore = hw.learn_mask(r0, mask);
    assert!(hw.mask_known());
    assert_eq!(restore.dev_id_text, b"1114137".to_vec());
    assert_eq!(restore.param_text, b"2".to_vec());  // r0 ^ mask == true_raw

    // with the mask known, the masked readback decodes to the true state
    assert_eq!(hw.read(r0), Ok(FanMode::Performace));
}

#[test]
fn read_rejects_undeclared_state() {
    let mut hw: Hardware<FanMode> = Hardware::new(0x110019);
    let mask: u64 = 0xff00;
    let true_raw: u64 = 9;  // not a declared fan mode
    let _ = hw.learn_mask(true_raw ^ mask, mask);
    assert_eq!(
        hw.read(true_raw ^ mask),
        Err(HardwareError::StateError(StateError::NotPossibleState { value: 9 }))
    );
}
