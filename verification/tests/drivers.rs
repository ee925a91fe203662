//! Tests for the driver state machines: clock, power, watchdog, serial and
//! CAN controllers.

use telematic_bootloader::can::{Can, CanError};
use telematic_bootloader::clock::Clock;
use telematic_bootloader::gpio::Gpio;
use telematic_bootloader::power::{Power, PowerMode, ResetCause};
use telematic_bootloader::serial::{Serial, SerialError};
use telematic_bootloader::watchdog::{Watchdog, WatchdogError};

#[test]
fn clock_defaults() {
    let mut clock = Clock::new();
    clock.init();
    assert_eq!(clock.get_system_clock_hz(), 16_000_000);
    assert_eq!(clock.get_xtal_freq_hz(), 16_000_000);
}

#[test]
fn gpio_port_b_reads_low() {
    let mut gpio = Gpio::new();
    gpio.init();
    assert_eq!(gpio.read_port_b(), 0);
}

#[test]
fn power_reports_reset_cause_after_init() {
    let mut power = Power::new();
    assert_eq!(power.get_reset_cause(), ResetCause::Unknown);
    power.init();
    assert_eq!(power.get_reset_cause(), ResetCause::PowerOn);
    assert_eq!(power.get_reset_cause().name(), "PowerOn");
}

#[test]
fn power_mode_transitions() {
    let mut power = Power::new();
    assert_eq!(power.get_power_mode(), PowerMode::Run);
    assert!(power.set_power_mode(PowerMode::Stop).is_ok());
    assert_eq!(power.get_power_mode(), PowerMode::Stop);
}

#[test]
fn watchdog_configuration_rules() {
    let mut wd = Watchdog::new();
    assert!(!wd.is_enabled());
    // Timeout limits are policed while disabled.
    assert!(matches!(wd.set_timeout(5), Err(WatchdogError::InvalidTimeout)));
    assert!(matches!(wd.set_timeout(20_000), Err(WatchdogError::InvalidTimeout)));
    assert!(wd.set_timeout(500).is_ok());
    wd.init();
    assert!(wd.is_enabled());
    wd.service();
    // Once running, the timeout is locked.
    assert!(matches!(wd.set_timeout(500), Err(WatchdogError::AlreadyEnabled)));
    assert!(wd.disable().is_ok());
    assert!(!wd.is_enabled());
}

#[test]
fn serial_requires_initialization() {
    let mut serial = Serial::new();
    assert!(matches!(serial.send_byte(0x55), Err(SerialError::NotInitialized)));
    assert!(matches!(serial.send(&[1, 2, 3]), Err(SerialError::NotInitialized)));
    assert!(matches!(serial.send_str("boot"), Err(SerialError::NotInitialized)));
    serial.init();
    assert!(serial.send_byte(0x55).is_ok());
    assert!(serial.send(&[1, 2, 3]).is_ok());
    assert!(serial.send_str("boot").is_ok());
    assert_eq!(serial.receive_byte(), None);
    assert!(serial.receive_timeout(50).is_none());
}

#[test]
fn can_polices_frames() {
    let mut can = Can::new();
    assert!(matches!(can.transmit(&[0x10, 0x02]), Err(CanError::NotInitialized)));
    can.init();
    assert!(can.transmit(&[0x10, 0x02]).is_ok());
    assert!(can.transmit(&[0u8; 8]).is_ok());
    assert!(matches!(can.transmit(&[0u8; 9]), Err(CanError::DataTooLong)));
    assert!(can.receive().is_none());
}
