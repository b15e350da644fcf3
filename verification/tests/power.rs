use embedded_runner::power::{power_off_plan, Port, PowerOffStep, DEEP_POWER_DOWN_OPCODE};

#[test]
fn stays_on_with_usb_power() {
    assert!(power_off_plan(true).is_empty());
}

#[test]
fn full_sequence_without_usb_power() {
    let plan = power_off_plan(false);
    assert_eq!(plan.len(), 72);
    assert_eq!(plan[0], PowerOffStep::WaitMs(10));
    assert_eq!(plan[3], PowerOffStep::ConfigurePin { port: Port::P0, pin: 25, bits: 0 });
    assert_eq!(plan[7], PowerOffStep::FlashInstruction(DEEP_POWER_DOWN_OPCODE));
    assert_eq!(plan[9], PowerOffStep::ConfigurePin { port: Port::P0, pin: 25, bits: 1 });
    assert_eq!(plan[69], PowerOffStep::SystemOff);
    assert_eq!(plan[70], PowerOffStep::WaitMs(10));
    assert_eq!(plan[71], PowerOffStep::WaitMs(10));
    assert_eq!(plan.iter().filter(|s| **s == PowerOffStep::SystemOff).count(), 1);
    assert!(plan.contains(&PowerOffStep::ClearOutputs { port: Port::P0, bits: 1 << 6 }));
    assert!(plan.contains(&PowerOffStep::ConfigurePin { port: Port::P1, pin: 9, bits: 0 }));
}
