use embedded_runner::board::{banner, gpio_irq_sources, BOARD_NAME, KEEPALIVE_PINS};

const ALL_HIGH: u32 = 0xFFFF_FFFF;

#[test]
fn no_button_low_gives_no_source() {
    assert_eq!(gpio_irq_sources(&[ALL_HIGH, ALL_HIGH]), 0);
}

#[test]
fn every_button_low_gives_all_sources() {
    assert_eq!(gpio_irq_sources(&[0, 0]), 0b1111);
    assert_eq!(gpio_irq_sources(&[0, 0, 0xFFFF]), 0b1111);
}

#[test]
fn each_button_maps_to_its_bit() {
    assert_eq!(gpio_irq_sources(&[ALL_HIGH, ALL_HIGH & !(1 << 10)]), 0b0001);
    assert_eq!(gpio_irq_sources(&[ALL_HIGH, ALL_HIGH & !(1 << 11)]), 0b0010);
    assert_eq!(gpio_irq_sources(&[ALL_HIGH & !(1 << 14), ALL_HIGH]), 0b0100);
    assert_eq!(gpio_irq_sources(&[ALL_HIGH, ALL_HIGH & !(1 << 1)]), 0b1000);
}

#[test]
fn other_pins_are_ignored() {
    assert_eq!(gpio_irq_sources(&[!(1 << 10), !(1 << 14)]), 0);
    assert_eq!(gpio_irq_sources(&[1 << 14, (1 << 10) | (1 << 11) | (1 << 1)]), 0);
}

#[test]
fn keepalive_pins_are_buttons() {
    assert_eq!(KEEPALIVE_PINS, [32 + 10, 32 + 11, 14, 32 + 1]);
}

#[test]
fn banner_line() {
    assert_eq!(
        banner("nRF52840", BOARD_NAME, "1", "2", "3"),
        "Embedded Runner (nRF52840:Proto2) using librunner 1.2.3"
    );
}
