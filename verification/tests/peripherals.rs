use idf_hal::gpio::GpioHardware;
use idf_hal::nvs::Nvs;
use idf_hal::peripherals::{OwnedPeripherals, Peripherals};
use idf_hal::uart::UartHardware;
use idf_hal::wifi::WiFiHardware;

#[test]
fn take_yields_the_tokens_once() {
    let mut registry = Peripherals::new();
    assert!(registry.take().is_some());
    assert!(registry.take().is_none());
    assert!(registry.take().is_none());
}

#[test]
fn take_stays_empty_after_many_takes() {
    let mut registry = Peripherals::new();
    let first = registry.take();
    assert!(first.is_some());
    for _ in 0..100 {
        assert!(registry.take().is_none());
    }
}

#[test]
fn owned_peripherals_split_into_their_parts() {
    let owned = Peripherals::new().take().unwrap();
    let OwnedPeripherals { wifi, gpio, uart, nvs } = owned;
    let _bank = GpioHardware::new(gpio);
    let uarts = UartHardware::new(uart);
    assert!(uarts.uart0.is_some());
    assert!(uarts.uart1.is_some());
    let storage = Nvs::init(nvs);
    assert!(!storage.is_initialized());
    let (_token, command) = WiFiHardware::new(wifi).deinitialize();
    assert_eq!(command, None);
}
