//! Powering the board off: the order in which the external flash is put to
//! deep sleep, the board's pins are released, the peripherals are stopped
//! and the chip enters System OFF.
use vstd::prelude::*;

verus! {

/// The flash instruction that puts the external flash into deep power-down.
pub const DEEP_POWER_DOWN_OPCODE: u8 = 0xB9;

/// Milliseconds waited after each step.
pub const STEP_WAIT_MS: u32 = 10;

/// Core cycles spun after the interrupt and SPI steps.
pub const SPIN_CYCLES: u32 = 10_000_000;

/// A GPIO port of the nRF52840.
#[derive(Clone, Copy, Debug, PartialEq, Eq)]
pub enum Port {
    P0,
    P1,
}

/// One step of the power-off sequence, as the peripheral sees it.
#[derive(Clone, Copy, Debug, PartialEq, Eq)]
pub enum PowerOffStep {
    /// Wait the given number of milliseconds.
    WaitMs(u32),
    /// Busy-loop the given number of core cycles.
    Spin(u32),
    /// Write raw bits to the PIN_CNF register of a pin.
    ConfigurePin { port: Port, pin: u8, bits: u32 },
    /// Write raw bits to the OUTCLR register of a port.
    ClearOutputs { port: Port, bits: u32 },
    /// Clear the QSPI READY event.
    ClearQspiReady,
    /// Send a one-byte custom instruction to the external flash.
    FlashInstruction(u8),
    /// Write raw bits to CLOCK.TASKS_HFCLKSTOP.
    WriteHfClockStop(u32),
    /// Disable UARTE0.
    DisableUarte0,
    /// Stop TIMER0.
    StopTimer0,
    /// Stop TIMER1.
    StopTimer1,
    /// Stop RTC0.
    StopRtc0,
    /// Stop the RNG.
    StopRng,
    /// Disable the USB device.
    DisableUsbd,
    /// Disable the QSPI peripheral.
    DisableQspi,
    /// Disable the GPIOTE PORT interrupt.
    DisableGpiotePortInterrupt,
    /// Disable SPIM0.
    DisableSpim0,
    /// Enter System OFF.
    SystemOff,
}

/// Configure a pin, then wait.
pub open spec fn pin_step(port: Port, pin: u8, bits: u32) -> Seq<PowerOffStep> {
    seq![PowerOffStep::ConfigurePin { port, pin, bits }, PowerOffStep::WaitMs(STEP_WAIT_MS)]
}

/// Do something, then wait.
pub open spec fn waited(step: PowerOffStep) -> Seq<PowerOffStep> {
    seq![step, PowerOffStep::WaitMs(STEP_WAIT_MS)]
}

/// Put the external flash into deep power-down: pulse its chip select pin
/// (P0.25) and send the instruction while the pin is configured 0.
pub open spec fn flash_sleep_steps() -> Seq<PowerOffStep> {
    seq![PowerOffStep::WaitMs(STEP_WAIT_MS)] + pin_step(Port::P0, 25, 1) + pin_step(Port::P0, 25, 0)
        + waited(PowerOffStep::ClearQspiReady) + waited(
        PowerOffStep::FlashInstruction(DEEP_POWER_DOWN_OPCODE),
    ) + pin_step(Port::P0, 25, 1)
}

/// Release the pins of the flash and NFC bus, the display, the secure
/// element and the fingerprint reader.
pub open spec fn pin_release_steps() -> Seq<PowerOffStep> {
    // flash and NFC SPI bus: CLK, MISO, MOSI, flash power
    pin_step(Port::P1, 2, 1) + pin_step(Port::P1, 6, 1) + pin_step(Port::P1, 4, 1) + pin_step(
        Port::P1,
        0,
        0,
    )
    // display: backlight, power, MOSI, CLK, CS, DC, RESET
     + pin_step(Port::P0, 8, 0) + pin_step(Port::P0, 13, 0) + pin_step(Port::P0, 0, 0)
        + pin_step(Port::P0, 1, 0) + waited(
        PowerOffStep::ClearOutputs { port: Port::P0, bits: 1u32 << 6u32 },
    ) + pin_step(Port::P0, 26, 0) + pin_step(Port::P0, 4, 0)
    // secure element: SCL, SDA, power
     + pin_step(Port::P0, 22, 1) + pin_step(Port::P0, 24, 1) + pin_step(Port::P0, 20, 0)
    // fingerprint reader: TX, RX, detect, power
     + pin_step(Port::P0, 12, 0) + pin_step(Port::P0, 11, 0) + pin_step(Port::P1, 9, 0) + pin_step(
        Port::P0,
        15,
        0,
    )
}

/// Stop the clocks and peripherals, then enter System OFF.
pub open spec fn shutdown_steps() -> Seq<PowerOffStep> {
    waited(PowerOffStep::WriteHfClockStop(0)) + waited(PowerOffStep::DisableUarte0) + waited(
        PowerOffStep::StopTimer0,
    ) + waited(PowerOffStep::StopTimer1) + waited(PowerOffStep::StopRtc0) + waited(
        PowerOffStep::StopRng,
    ) + waited(PowerOffStep::DisableUsbd) + waited(PowerOffStep::DisableQspi) + seq![
        PowerOffStep::DisableGpiotePortInterrupt,
        PowerOffStep::Spin(SPIN_CYCLES),
        PowerOffStep::WaitMs(STEP_WAIT_MS),
        PowerOffStep::DisableSpim0,
        PowerOffStep::Spin(SPIN_CYCLES),
        PowerOffStep::WaitMs(STEP_WAIT_MS),
        PowerOffStep::SystemOff,
        PowerOffStep::WaitMs(STEP_WAIT_MS),
        PowerOffStep::WaitMs(STEP_WAIT_MS),
    ]
}

/// The whole power-off sequence once VBUS is known to be absent.
pub open spec fn power_off_steps() -> Seq<PowerOffStep> {
    flash_sleep_steps() + pin_release_steps() + shutdown_steps()
}

fn push_pin(plan: &mut Vec<PowerOffStep>, port: Port, pin: u8, bits: u32)
    ensures
        final(plan)@ == old(plan)@ + pin_step(port, pin, bits),
{
    plan.push(PowerOffStep::ConfigurePin { port, pin, bits });
    plan.push(PowerOffStep::WaitMs(STEP_WAIT_MS));
    assert(plan@ =~= old(plan)@ + pin_step(port, pin, bits));
}

fn push_waited(plan: &mut Vec<PowerOffStep>, step: PowerOffStep)
    ensures
        final(plan)@ == old(plan)@ + waited(step),
{
    plan.push(step);
    plan.push(PowerOffStep::WaitMs(STEP_WAIT_MS));
    assert(plan@ =~= old(plan)@ + waited(step));
}

fn push_flash_sleep(plan: &mut Vec<PowerOffStep>)
    ensures
        final(plan)@ == old(plan)@ + flash_sleep_steps(),
{
    let ghost start = plan@;
    plan.push(PowerOffStep::WaitMs(STEP_WAIT_MS));
    push_pin(plan, Port::P0, 25, 1);
    push_pin(plan, Port::P0, 25, 0);
    push_waited(plan, PowerOffStep::ClearQspiReady);
    push_waited(plan, PowerOffStep::FlashInstruction(DEEP_POWER_DOWN_OPCODE));
    push_pin(plan, Port::P0, 25, 1);
    assert(plan@ =~= start + flash_sleep_steps());
}

fn push_pin_release(plan: &mut Vec<PowerOffStep>)
    ensures
        final(plan)@ == old(plan)@ + pin_release_steps(),
{
    let ghost start = plan@;
    push_pin(plan, Port::P1, 2, 1);
    push_pin(plan, Port::P1, 6, 1);
    push_pin(plan, Port::P1, 4, 1);
    push_pin(plan, Port::P1, 0, 0);
    push_pin(plan, Port::P0, 8, 0);
    push_pin(plan, Port::P0, 13, 0);
    push_pin(plan, Port::P0, 0, 0);
    push_pin(plan, Port::P0, 1, 0);
    push_waited(plan, PowerOffStep::ClearOutputs { port: Port::P0, bits: 1u32 << 6u32 });
    push_pin(plan, Port::P0, 26, 0);
    push_pin(plan, Port::P0, 4, 0);
    push_pin(plan, Port::P0, 22, 1);
    push_pin(plan, Port::P0, 24, 1);
    push_pin(plan, Port::P0, 20, 0);
    push_pin(plan, Port::P0, 12, 0);
    push_pin(plan, Port::P0, 11, 0);
    push_pin(plan, Port::P1, 9, 0);
    push_pin(plan, Port::P0, 15, 0);
    assert(plan@ =~= start + pin_release_steps());
}

fn push_shutdown(plan: &mut Vec<PowerOffStep>)
    ensures
        final(plan)@ == old(plan)@ + shutdown_steps(),
{
    let ghost start = plan@;
    push_waited(plan, PowerOffStep::WriteHfClockStop(0));
    push_waited(plan, PowerOffStep::DisableUarte0);
    push_waited(plan, PowerOffStep::StopTimer0);
    push_waited(plan, PowerOffStep::StopTimer1);
    push_waited(plan, PowerOffStep::StopRtc0);
    push_waited(plan, PowerOffStep::StopRng);
    push_waited(plan, PowerOffStep::DisableUsbd);
    push_waited(plan, PowerOffStep::DisableQspi);
    plan.push(PowerOffStep::DisableGpiotePortInterrupt);
    plan.push(PowerOffStep::Spin(SPIN_CYCLES));
    plan.push(PowerOffStep::WaitMs(STEP_WAIT_MS));
    plan.push(PowerOffStep::DisableSpim0);
    plan.push(PowerOffStep::Spin(SPIN_CYCLES));
    plan.push(PowerOffStep::WaitMs(STEP_WAIT_MS));
    plan.push(PowerOffStep::SystemOff);
    plan.push(PowerOffStep::WaitMs(STEP_WAIT_MS));
    plan.push(PowerOffStep::WaitMs(STEP_WAIT_MS));
    assert(plan@ =~= start + shutdown_steps());
}

/// What to do after the first two waits of a power-off, once the VBUS state
/// is read: nothing while USB power is present, else the whole sequence.
pub fn power_off_plan(vbus_present: bool) -> (plan: Vec<PowerOffStep>)
    ensures
        vbus_present ==> plan@.len() == 0,
        !vbus_present ==> plan@ == power_off_steps(),
{
    let mut plan: Vec<PowerOffStep> = Vec::new();
    if vbus_present {
        return plan;
    }
    push_flash_sleep(&mut plan);
    push_pin_release(&mut plan);
    push_shutdown(&mut plan);
    assert(plan@ =~= power_off_steps());
    plan
}

/// The chip enters System OFF exactly once, and nothing but waiting
/// follows it.
pub proof fn lemma_system_off_is_last()
    ensures
        ({
            let s = power_off_steps();
            &&& s.len() == 72
            &&& forall|i: int| 0 <= i < s.len() ==> (s[i] == PowerOffStep::SystemOff <==> i == 69)
            &&& forall|i: int| 69 < i < s.len() ==> s[i] is WaitMs
        }),
{
    let f = flash_sleep_steps();
    let p = pin_release_steps();
    let d = shutdown_steps();
    assert(f.len() == 11);
    assert(p.len() == 36);
    assert(d.len() == 25);
    assert forall|i: int| 0 <= i < f.len() implies f[i] != PowerOffStep::SystemOff by {}
    assert forall|i: int| 0 <= i < p.len() implies p[i] != PowerOffStep::SystemOff by {}
    assert forall|i: int| 0 <= i < d.len() implies (d[i] == PowerOffStep::SystemOff <==> i == 22) by {}
    let s = power_off_steps();
    assert forall|i: int| 0 <= i < s.len() implies (s[i] == PowerOffStep::SystemOff <==> i == 69) by {
        if i < 11 {
            assert(s[i] == f[i]);
        } else if i < 47 {
            assert(s[i] == p[i - 11]);
        } else {
            assert(s[i] == d[i - 47]);
        }
    }
}

/// The external flash gets the deep power-down instruction, and only that
/// instruction, while its chip select pin P0.25 is configured 0: the last
/// configuration of any pin before it sets P0.25 to 0, and the first after
/// it sets P0.25 back to 1.
pub proof fn lemma_flash_sleeps_under_chip_select()
    ensures
        ({
            let s = power_off_steps();
            &&& s[7] == PowerOffStep::FlashInstruction(DEEP_POWER_DOWN_OPCODE)
            &&& forall|i: int| 0 <= i < s.len() && s[i] is FlashInstruction ==> i == 7
            &&& s[3] == PowerOffStep::ConfigurePin { port: Port::P0, pin: 25, bits: 0 }
            &&& s[9] == PowerOffStep::ConfigurePin { port: Port::P0, pin: 25, bits: 1 }
            &&& forall|i: int| 3 < i < 9 ==> !(s[i] is ConfigurePin)
        }),
{
    let f = flash_sleep_steps();
    let p = pin_release_steps();
    let d = shutdown_steps();
    assert(f.len() == 11);
    assert(p.len() == 36);
    assert forall|i: int| 0 <= i < p.len() implies !(p[i] is FlashInstruction) by {}
    assert forall|i: int| 0 <= i < d.len() implies !(d[i] is FlashInstruction) by {}
    assert forall|i: int| 0 <= i < f.len() && f[i] is FlashInstruction implies i == 7 by {}
    let s = power_off_steps();
    assert forall|i: int| 0 <= i < s.len() && s[i] is FlashInstruction implies i == 7 by {
        if i < 11 {
            assert(s[i] == f[i]);
        } else if i < 47 {
            assert(s[i] == p[i - 11]);
        } else {
            assert(s[i] == d[i - 47]);
        }
    }
    assert(s[3] == f[3]);
    assert(s[7] == f[7]);
    assert(s[9] == f[9]);
    assert forall|i: int| 3 < i < 9 implies !(s[i] is ConfigurePin) by {
        assert(s[i] == f[i]);
    }
}

/// The pin settings the power-off sequence may write: the bits the board
/// leaves on each pin it set up at start.
pub open spec fn board_pin_release(port: Port, pin: u8, bits: u32) -> bool {
    (port == Port::P0 && pin == 25 && bits == 1)
        || (port == Port::P0 && pin == 25 && bits == 0)
        || (port == Port::P1 && pin == 2 && bits == 1)
        || (port == Port::P1 && pin == 6 && bits == 1)
        || (port == Port::P1 && pin == 4 && bits == 1)
        || (port == Port::P1 && pin == 0 && bits == 0)
        || (port == Port::P0 && pin == 8 && bits == 0)
        || (port == Port::P0 && pin == 13 && bits == 0)
        || (port == Port::P0 && pin == 0 && bits == 0)
        || (port == Port::P0 && pin == 1 && bits == 0)
        || (port == Port::P0 && pin == 26 && bits == 0)
        || (port == Port::P0 && pin == 4 && bits == 0)
        || (port == Port::P0 && pin == 22 && bits == 1)
        || (port == Port::P0 && pin == 24 && bits == 1)
        || (port == Port::P0 && pin == 20 && bits == 0)
        || (port == Port::P0 && pin == 12 && bits == 0)
        || (port == Port::P0 && pin == 11 && bits == 0)
        || (port == Port::P1 && pin == 9 && bits == 0)
        || (port == Port::P0 && pin == 15 && bits == 0)
}

proof fn lemma_phase_pins()
    ensures
        forall|i: int|
            0 <= i < flash_sleep_steps().len() ==> (#[trigger] flash_sleep_steps()[i] matches PowerOffStep::ConfigurePin { port, pin, bits } ==> board_pin_release(port, pin, bits)),
        forall|i: int|
            0 <= i < pin_release_steps().len() ==> (#[trigger] pin_release_steps()[i] matches PowerOffStep::ConfigurePin { port, pin, bits } ==> board_pin_release(port, pin, bits)),
        forall|i: int|
            0 <= i < shutdown_steps().len() ==> !(#[trigger] shutdown_steps()[i] is ConfigurePin) && !(shutdown_steps()[i] is ClearOutputs),
        forall|i: int|
            0 <= i < flash_sleep_steps().len() ==> !(#[trigger] flash_sleep_steps()[i] is ClearOutputs),
        forall|i: int|
            0 <= i < pin_release_steps().len() && #[trigger] pin_release_steps()[i] is ClearOutputs ==> i == 16,
        flash_sleep_steps().len() == 11,
        pin_release_steps().len() == 36,
        shutdown_steps().len() == 25,
{
}

/// Every pin the board sets up is released before System OFF, with the bits
/// written to its PIN_CNF register: the flash chip select P0.25 (1, 0, then
/// 1), the flash and NFC bus P1.02, P1.06, P1.04 (1) and the flash power
/// P1.00 (0); the display backlight P0.08, power P0.13, MOSI P0.00, CLK P0.01,
/// DC P0.26 and RESET P0.04 (0), its chip select P0.06 cleared through OUTCLR;
/// the secure element SCL P0.22 and SDA P0.24 (1) and power P0.20 (0); the
/// fingerprint reader TX P0.12, RX P0.11, detect P1.09 and power P0.15 (0).
/// No other pin is configured, and nothing else is cleared.
#[verifier::rlimit(50)]
pub proof fn lemma_power_off_releases_board_pins()
    ensures
        ({
            let s = power_off_steps();
            &&& s[1] == PowerOffStep::ConfigurePin { port: Port::P0, pin: 25, bits: 1 }
            &&& s[3] == PowerOffStep::ConfigurePin { port: Port::P0, pin: 25, bits: 0 }
            &&& s[9] == PowerOffStep::ConfigurePin { port: Port::P0, pin: 25, bits: 1 }
            &&& s[11] == PowerOffStep::ConfigurePin { port: Port::P1, pin: 2, bits: 1 }
            &&& s[13] == PowerOffStep::ConfigurePin { port: Port::P1, pin: 6, bits: 1 }
            &&& s[15] == PowerOffStep::ConfigurePin { port: Port::P1, pin: 4, bits: 1 }
            &&& s[17] == PowerOffStep::ConfigurePin { port: Port::P1, pin: 0, bits: 0 }
            &&& s[19] == PowerOffStep::ConfigurePin { port: Port::P0, pin: 8, bits: 0 }
            &&& s[21] == PowerOffStep::ConfigurePin { port: Port::P0, pin: 13, bits: 0 }
            &&& s[23] == PowerOffStep::ConfigurePin { port: Port::P0, pin: 0, bits: 0 }
            &&& s[25] == PowerOffStep::ConfigurePin { port: Port::P0, pin: 1, bits: 0 }
            &&& s[29] == PowerOffStep::ConfigurePin { port: Port::P0, pin: 26, bits: 0 }
            &&& s[31] == PowerOffStep::ConfigurePin { port: Port::P0, pin: 4, bits: 0 }
            &&& s[33] == PowerOffStep::ConfigurePin { port: Port::P0, pin: 22, bits: 1 }
            &&& s[35] == PowerOffStep::ConfigurePin { port: Port::P0, pin: 24, bits: 1 }
            &&& s[37] == PowerOffStep::ConfigurePin { port: Port::P0, pin: 20, bits: 0 }
            &&& s[39] == PowerOffStep::ConfigurePin { port: Port::P0, pin: 12, bits: 0 }
            &&& s[41] == PowerOffStep::ConfigurePin { port: Port::P0, pin: 11, bits: 0 }
            &&& s[43] == PowerOffStep::ConfigurePin { port: Port::P1, pin: 9, bits: 0 }
            &&& s[45] == PowerOffStep::ConfigurePin { port: Port::P0, pin: 15, bits: 0 }
            &&& s[27] == PowerOffStep::ClearOutputs { port: Port::P0, bits: 0x40 }
            &&& forall|i: int|
                0 <= i < s.len() ==> (#[trigger] s[i] matches PowerOffStep::ConfigurePin { port, pin, bits } ==> board_pin_release(port, pin, bits))
            &&& forall|i: int| 0 <= i < s.len() && #[trigger] s[i] is ClearOutputs ==> i == 27
        }),
{
    let f = flash_sleep_steps();
    let p = pin_release_steps();
    let d = shutdown_steps();
    let s = power_off_steps();
    lemma_phase_pins();
    assert forall|i: int| 0 <= i < s.len() implies (#[trigger] s[i] matches PowerOffStep::ConfigurePin { port, pin, bits } ==> board_pin_release(port, pin, bits)) by {
        if i < 11 {
            assert(s[i] == f[i]);
        } else if i < 47 {
            assert(s[i] == p[i - 11]);
        } else {
            assert(s[i] == d[i - 47]);
        }
    }
    assert forall|i: int| 0 <= i < s.len() && #[trigger] s[i] is ClearOutputs implies i == 27 by {
        if i < 11 {
            assert(s[i] == f[i]);
        } else if i < 47 {
            assert(s[i] == p[i - 11]);
        } else {
            assert(s[i] == d[i - 47]);
        }
    }
    assert(s[1] == f[1]);
    assert(s[3] == f[3]);
    assert(s[9] == f[9]);
    assert(s[11] == p[0]);
    assert(s[13] == p[2]);
    assert(s[15] == p[4]);
    assert(s[17] == p[6]);
    assert(s[19] == p[8]);
    assert(s[21] == p[10]);
    assert(s[23] == p[12]);
    assert(s[25] == p[14]);
    assert(s[29] == p[18]);
    assert(s[31] == p[20]);
    assert(s[33] == p[22]);
    assert(s[35] == p[24]);
    assert(s[37] == p[26]);
    assert(s[39] == p[28]);
    assert(s[41] == p[30]);
    assert(s[43] == p[32]);
    assert(s[45] == p[34]);
    assert(s[27] == p[16]);
    assert(1u32 << 6u32 == 0x40) by (bit_vector);
}

/// Before System OFF the high-frequency clock stop register is written 0,
/// UARTE0, USBD, QSPI and SPIM0 are disabled, TIMER0, TIMER1, RTC0 and the
/// RNG are stopped and the GPIOTE port interrupt is disabled, in that order.
pub proof fn lemma_power_off_stops_peripherals()
    ensures
        ({
            let s = power_off_steps();
            &&& s[47] == PowerOffStep::WriteHfClockStop(0)
            &&& s[49] == PowerOffStep::DisableUarte0
            &&& s[51] == PowerOffStep::StopTimer0
            &&& s[53] == PowerOffStep::StopTimer1
            &&& s[55] == PowerOffStep::StopRtc0
            &&& s[57] == PowerOffStep::StopRng
            &&& s[59] == PowerOffStep::DisableUsbd
            &&& s[61] == PowerOffStep::DisableQspi
            &&& s[63] == PowerOffStep::DisableGpiotePortInterrupt
            &&& s[66] == PowerOffStep::DisableSpim0
            &&& s[69] == PowerOffStep::SystemOff
        }),
{
    let f = flash_sleep_steps();
    let p = pin_release_steps();
    let d = shutdown_steps();
    let s = power_off_steps();
    assert(f.len() == 11);
    assert(p.len() == 36);
    assert(s[47] == d[0]);
    assert(s[49] == d[2]);
    assert(s[51] == d[4]);
    assert(s[53] == d[6]);
    assert(s[55] == d[8]);
    assert(s[57] == d[10]);
    assert(s[59] == d[12]);
    assert(s[61] == d[14]);
    assert(s[63] == d[16]);
    assert(s[66] == d[19]);
    assert(s[69] == d[22]);
}

proof fn lemma_phase_waits()
    ensures
        forall|i: int|
            0 <= i < flash_sleep_steps().len() ==> (#[trigger] flash_sleep_steps()[i] matches PowerOffStep::WaitMs(ms) ==> ms == 10),
        forall|i: int|
            0 <= i < pin_release_steps().len() ==> (#[trigger] pin_release_steps()[i] matches PowerOffStep::WaitMs(ms) ==> ms == 10),
        forall|i: int|
            0 <= i < shutdown_steps().len() ==> (#[trigger] shutdown_steps()[i] matches PowerOffStep::WaitMs(ms) ==> ms == 10),
        forall|i: int|
            0 <= i < shutdown_steps().len() ==> (#[trigger] shutdown_steps()[i] matches PowerOffStep::Spin(c) ==> c == 10_000_000),
        forall|i: int|
            0 <= i < flash_sleep_steps().len() ==> !(#[trigger] flash_sleep_steps()[i] is Spin),
        forall|i: int|
            0 <= i < pin_release_steps().len() ==> !(#[trigger] pin_release_steps()[i] is Spin),
{
}

/// Every wait of the power-off sequence lasts 10 ms and every spin ten
/// million cycles.
pub proof fn lemma_power_off_waits()
    ensures
        ({
            let s = power_off_steps();
            &&& forall|i: int| 0 <= i < s.len() ==> (#[trigger] s[i] matches PowerOffStep::WaitMs(ms) ==> ms == 10)
            &&& forall|i: int| 0 <= i < s.len() ==> (#[trigger] s[i] matches PowerOffStep::Spin(c) ==> c == 10_000_000)
        }),
{
    let f = flash_sleep_steps();
    let p = pin_release_steps();
    let d = shutdown_steps();
    let s = power_off_steps();
    lemma_phase_pins();
    lemma_phase_waits();
    assert forall|i: int| 0 <= i < s.len() implies (#[trigger] s[i] matches PowerOffStep::WaitMs(ms) ==> ms == 10) by {
        if i < 11 {
            assert(s[i] == f[i]);
        } else if i < 47 {
            assert(s[i] == p[i - 11]);
        } else {
            assert(s[i] == d[i - 47]);
        }
    }
    assert forall|i: int| 0 <= i < s.len() implies (#[trigger] s[i] matches PowerOffStep::Spin(c) ==> c == 10_000_000) by {
        if i < 11 {
            assert(s[i] == f[i]);
        } else if i < 47 {
            assert(s[i] == p[i - 11]);
        } else {
            assert(s[i] == d[i - 47]);
        }
    }
}

} // verus!
