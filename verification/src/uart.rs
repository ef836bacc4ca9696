//! The UARTs: their pins, their line parameters and their lifecycle.
//!
//! A UART is wired to up to four pins of the GPIO bank. Which lines it has
//! decides what it can do: it can receive if it has an RX line, and it has
//! hardware flow control if it has CTS and RTS lines. While a UART is in
//! use it holds its pins in the bank, and it gives them back when it is
//! downgraded or when its initialization fails.
use vstd::prelude::*;
use crate::gpio::{
    captured, is_free, released, AlreadyCaptured, Claimant, Gpio1, Gpio13, Gpio15, Gpio2, Gpio3,
    GpioHardware, GpioPin, PhantomPin, PinId, NOT_CONNECTED,
    lemma_pin_numbers,
};
use crate::peripherals::UartPeripherals;
use crate::status::DriverStatus;

verus! {

/// Why a UART setting or initialization is refused
#[non_exhaustive]
#[derive(Copy, Clone, PartialEq, Eq, Structural, Debug)]
pub enum UartConfigError {
    InvalidBaudRate,
    InvalidRxThreshold,
    InvalidRxBufferSize,
    InvalidTxBufferSize,
    /// A pin of the UART is held by another peripheral
    PinAlreadyCaptured,
    /// The driver refused
    Unknown,
}

/// A pin that can serve as a line of a UART.
pub trait CaptureGpioPin: GpioPin {
    /// Captures the pin for a UART, if it is free.
    fn capture_pin(gpio_hw: &mut GpioHardware) -> (result: Result<(), AlreadyCaptured>)
        ensures
            result is Ok <==> is_free(old(gpio_hw)@, Self::PIN_NUM),
            result is Ok ==> final(gpio_hw)@ == captured(
                old(gpio_hw)@,
                Self::PIN_NUM,
                Claimant::Uart,
            ),
            result is Err ==> final(gpio_hw)@ == old(gpio_hw)@,
    {
        gpio_hw.capture::<Self>(Claimant::Uart)
    }

    /// Gives the pin back to the bank.
    fn release_pin(gpio_hw: &mut GpioHardware)
        ensures
            final(gpio_hw)@ == released(old(gpio_hw)@, Self::PIN_NUM),
    {
        gpio_hw.release::<Self>()
    }
}

impl CaptureGpioPin for Gpio1 {

}

impl CaptureGpioPin for Gpio2 {

}

impl CaptureGpioPin for Gpio3 {

}

impl CaptureGpioPin for Gpio13 {

}

impl CaptureGpioPin for Gpio15 {

}

impl CaptureGpioPin for PhantomPin {

}

/// The pins of a UART, by number. A line that is not wired has the number
/// of the placeholder.
#[derive(Copy, Clone, PartialEq, Eq, Structural, Debug)]
pub struct UartPins {
    pub tx: PinId,
    pub rx: PinId,
    pub cts: PinId,
    pub rts: PinId,
}

/// What a UART can do.
#[derive(Copy, Clone, PartialEq, Eq, Structural, Debug)]
pub struct UartCapabilities {
    pub can_read: bool,
    pub can_write: bool,
    pub hardware_flow: bool,
}

/// The capabilities of a UART follow from its lines.
pub open spec fn spec_uart_capabilities(pins: UartPins) -> UartCapabilities {
    UartCapabilities {
        can_read: pins.rx != NOT_CONNECTED,
        can_write: pins.tx != NOT_CONNECTED,
        hardware_flow: pins.cts != NOT_CONNECTED && pins.rts != NOT_CONNECTED,
    }
}

/// Derives the capabilities of a UART from its lines.
#[verifier::when_used_as_spec(spec_uart_capabilities)]
pub fn uart_capabilities(pins: UartPins) -> (set: UartCapabilities)
    ensures
        set == spec_uart_capabilities(pins),
{
    UartCapabilities {
        can_read: pins.rx != NOT_CONNECTED,
        can_write: pins.tx != NOT_CONNECTED,
        hardware_flow: pins.cts != NOT_CONNECTED && pins.rts != NOT_CONNECTED,
    }
}

/// The pin assignment of a UART.
pub trait UartGpioPins {
    type TxPin: GpioPin + CaptureGpioPin;

    type RxPin: GpioPin + CaptureGpioPin;

    type CtsPin: GpioPin + CaptureGpioPin;

    type RtsPin: GpioPin + CaptureGpioPin;
}

/// The pin numbers of the assignment `P`.
pub open spec fn spec_pins_of<P: UartGpioPins>() -> UartPins {
    UartPins {
        tx: P::TxPin::PIN_NUM,
        rx: P::RxPin::PIN_NUM,
        cts: P::CtsPin::PIN_NUM,
        rts: P::RtsPin::PIN_NUM,
    }
}

/// The pin numbers of the assignment `P`.
#[verifier::when_used_as_spec(spec_pins_of)]
pub fn pins_of<P: UartGpioPins>() -> (pins: UartPins)
    ensures
        pins == spec_pins_of::<P>(),
{
    UartPins {
        tx: P::TxPin::get_pin_id(),
        rx: P::RxPin::get_pin_id(),
        cts: P::CtsPin::get_pin_id(),
        rts: P::RtsPin::get_pin_id(),
    }
}

/// UART 0 on its own pins, with both flow control lines.
pub struct Uart0GpioPins;

impl UartGpioPins for Uart0GpioPins {
    type TxPin = Gpio1;

    type RxPin = Gpio3;

    type CtsPin = Gpio13;

    type RtsPin = Gpio15;
}

/// UART 0 moved to the pins of its flow control lines, which it then lacks.
pub struct Uart0AltGpioPins;

impl UartGpioPins for Uart0AltGpioPins {
    type TxPin = Gpio15;

    type RxPin = Gpio13;

    type CtsPin = PhantomPin;

    type RtsPin = PhantomPin;
}

/// UART 1, which can only transmit.
pub struct Uart1GpioPins;

impl UartGpioPins for Uart1GpioPins {
    type TxPin = Gpio2;

    type RxPin = PhantomPin;

    type CtsPin = PhantomPin;

    type RtsPin = PhantomPin;
}

#[derive(Copy, Clone, PartialEq, Eq, Structural, Debug)]
pub enum UartNumber {
    Uart0,
    Uart1,
}

#[derive(Copy, Clone, PartialEq, Eq, Structural, Debug)]
pub enum UartDataBits {
    B5,
    B6,
    B7,
    B8,
}

#[derive(Copy, Clone, PartialEq, Eq, Structural, Debug)]
pub enum UartParity {
    Disabled,
    Even,
    Odd,
}

#[derive(Copy, Clone, PartialEq, Eq, Structural, Debug)]
pub enum UartStopBits {
    B1,
    B1_5,
    B2,
}

#[derive(Copy, Clone, PartialEq, Eq, Structural, Debug)]
pub enum UartHwControlFlow {
    Disabled,
    Rts,
    Cts,
    CtsRts,
}

/// Witness that a UART was initialized. Only the initialization makes one.
pub struct UartInitializedMarker {
    guard: (),
}

impl UartInitializedMarker {
    fn new() -> Self {
        UartInitializedMarker { guard: () }
    }
}

/// A UART in use.
pub trait Uart: Sized {
    /// The hardware that this UART is made from.
    type Hardware;

    /// The hardware inside this UART.
    spec fn hardware(&self) -> Self::Hardware;

    /// Makes the UART from its hardware.
    fn build(_marker: UartInitializedMarker, hardware: Self::Hardware) -> (uart: Self)
        ensures
            uart.hardware() == hardware,
    ;

    /// Takes the UART apart.
    fn into_hardware(self) -> (hardware: Self::Hardware)
        ensures
            hardware == self.hardware(),
    ;
}

/// A UART that is not in use.
pub trait UartHardwareInstance: Sized {
    type Pins: UartGpioPins;

    type InitializedType: Uart<Hardware = Self>;

    const UART_PORT_NUM: UartNumber;
}

/// Marks a UART with hardware flow control. An impl has to show that the
/// UART has the lines for it.
pub trait UartHaveHardwareFlow: UartHardwareInstance {
    proof fn has_flow_lines()
        ensures
            uart_capabilities(pins_of::<Self::Pins>()).hardware_flow,
    ;
}

/// Marks a UART that can receive. An impl has to show that the UART has an
/// RX line.
pub trait UartCanRead: UartHardwareInstance {
    proof fn has_rx_line()
        ensures
            uart_capabilities(pins_of::<Self::Pins>()).can_read,
    ;
}

/// Marks a UART that can transmit. An impl has to show that the UART has a
/// TX line.
pub trait UartCanWrite: UartHardwareInstance {
    proof fn has_tx_line()
        ensures
            uart_capabilities(pins_of::<Self::Pins>()).can_write,
    ;
}

#[derive(Debug)]
pub struct Uart0Hardware {
    guard: (),
}

#[derive(Debug)]
pub struct Uart0AltHardware {
    guard: (),
}

#[derive(Debug)]
pub struct Uart1Hardware {
    guard: (),
}

#[derive(Debug)]
pub struct Uart0 {
    hardware: Uart0Hardware,
}

#[derive(Debug)]
pub struct Uart0Alt {
    hardware: Uart0AltHardware,
}

#[derive(Debug)]
pub struct Uart1 {
    hardware: Uart1Hardware,
}

impl UartHardwareInstance for Uart0Hardware {
    type Pins = Uart0GpioPins;

    type InitializedType = Uart0;

    const UART_PORT_NUM: UartNumber = UartNumber::Uart0;
}

impl UartCanWrite for Uart0Hardware {
    proof fn has_tx_line() {
        lemma_pin_numbers();
    }
}

impl UartCanRead for Uart0Hardware {
    proof fn has_rx_line() {
        lemma_pin_numbers();
    }
}

impl UartHaveHardwareFlow for Uart0Hardware {
    proof fn has_flow_lines() {
        lemma_pin_numbers();
    }
}

impl Uart0Hardware {
    fn new() -> Self {
        Uart0Hardware { guard: () }
    }

    /// Moves UART 0 to its alternative pins.
    pub fn into_alternative_mode(self) -> Uart0AltHardware {
        Uart0AltHardware::new()
    }
}

impl UartHardwareInstance for Uart0AltHardware {
    type Pins = Uart0AltGpioPins;

    type InitializedType = Uart0Alt;

    const UART_PORT_NUM: UartNumber = UartNumber::Uart0;
}

impl UartCanWrite for Uart0AltHardware {
    proof fn has_tx_line() {
        lemma_pin_numbers();
    }
}

impl UartCanRead for Uart0AltHardware {
    proof fn has_rx_line() {
        lemma_pin_numbers();
    }
}

impl Uart0AltHardware {
    fn new() -> Self {
        Uart0AltHardware { guard: () }
    }

    /// Moves UART 0 back to its own pins.
    pub fn into_normal_mode(self) -> Uart0Hardware {
        Uart0Hardware::new()
    }
}

impl UartHardwareInstance for Uart1Hardware {
    type Pins = Uart1GpioPins;

    type InitializedType = Uart1;

    const UART_PORT_NUM: UartNumber = UartNumber::Uart1;
}

impl UartCanWrite for Uart1Hardware {
    proof fn has_tx_line() {
        lemma_pin_numbers();
    }
}

impl Uart1Hardware {
    fn new() -> Self {
        Uart1Hardware { guard: () }
    }
}

impl Uart for Uart0 {
    type Hardware = Uart0Hardware;

    closed spec fn hardware(&self) -> Uart0Hardware {
        self.hardware
    }

    fn build(_marker: UartInitializedMarker, hardware: Uart0Hardware) -> (uart: Self) {
        Uart0 { hardware }
    }

    fn into_hardware(self) -> (hardware: Uart0Hardware) {
        self.hardware
    }
}

impl Uart for Uart0Alt {
    type Hardware = Uart0AltHardware;

    closed spec fn hardware(&self) -> Uart0AltHardware {
        self.hardware
    }

    fn build(_marker: UartInitializedMarker, hardware: Uart0AltHardware) -> (uart: Self) {
        Uart0Alt { hardware }
    }

    fn into_hardware(self) -> (hardware: Uart0AltHardware) {
        self.hardware
    }
}

impl Uart for Uart1 {
    type Hardware = Uart1Hardware;

    closed spec fn hardware(&self) -> Uart1Hardware {
        self.hardware
    }

    fn build(_marker: UartInitializedMarker, hardware: Uart1Hardware) -> (uart: Self) {
        Uart1 { hardware }
    }

    fn into_hardware(self) -> (hardware: Uart1Hardware) {
        self.hardware
    }
}

/// Represents all available mcu uart ports
#[derive(Debug)]
pub struct UartHardware {
    pub uart0: Option<Uart0Hardware>,
    pub uart1: Option<Uart1Hardware>,
}

impl UartHardware {
    /// The bank with both UARTs in it.
    pub fn new(_peripherals: UartPeripherals) -> (bank: Self)
        ensures
            bank.uart0 is Some,
            bank.uart1 is Some,
    {
        Self { uart0: Some(Uart0Hardware::new()), uart1: Some(Uart1Hardware::new()) }
    }
}

/// The port of each UART: UART 0 is port 0 on either set of pins.
pub proof fn lemma_uart_port_numbers()
    ensures
        Uart0Hardware::UART_PORT_NUM == UartNumber::Uart0,
        Uart0AltHardware::UART_PORT_NUM == UartNumber::Uart0,
        Uart1Hardware::UART_PORT_NUM == UartNumber::Uart1,
{
}

/// Of the three UARTs, UART 0 on its own pins can do everything, UART 0 on
/// its alternative pins lacks hardware flow control, and UART 1 can only
/// transmit.
pub proof fn lemma_uart_capability_table()
    ensures
        pins_of::<Uart0GpioPins>() == (UartPins { tx: 1, rx: 3, cts: 13, rts: 15 }),
        pins_of::<Uart0AltGpioPins>() == (UartPins { tx: 15, rx: 13, cts: 255, rts: 255 }),
        pins_of::<Uart1GpioPins>() == (UartPins { tx: 2, rx: 255, cts: 255, rts: 255 }),
        uart_capabilities(pins_of::<Uart0GpioPins>()) == (UartCapabilities {
            can_read: true,
            can_write: true,
            hardware_flow: true,
        }),
        uart_capabilities(pins_of::<Uart0AltGpioPins>()) == (UartCapabilities {
            can_read: true,
            can_write: true,
            hardware_flow: false,
        }),
        uart_capabilities(pins_of::<Uart1GpioPins>()) == (UartCapabilities {
            can_read: false,
            can_write: true,
            hardware_flow: false,
        }),
{
    assert(spec_pins_of::<Uart0GpioPins>() == (UartPins { tx: 1, rx: 3, cts: 13, rts: 15 })) by {
        lemma_pin_numbers();
    }
    assert(spec_pins_of::<Uart0AltGpioPins>() == (UartPins { tx: 15, rx: 13, cts: 255, rts: 255 }))
        by {
        lemma_pin_numbers();
    }
    assert(spec_pins_of::<Uart1GpioPins>() == (UartPins { tx: 2, rx: 255, cts: 255, rts: 255 }))
        by {
        lemma_pin_numbers();
    }
}

/// Whether a UART with the given pins can capture them all while `held`
/// are the pins in use: each pin is free when its turn comes.
pub open spec fn can_capture_all(held: Map<PinId, Claimant>, pins: UartPins) -> bool {
    &&& is_free(held, pins.tx)
    &&& is_free(captured(held, pins.tx, Claimant::Uart), pins.rx)
    &&& is_free(captured(captured(held, pins.tx, Claimant::Uart), pins.rx, Claimant::Uart), pins.cts)
    &&& is_free(
        captured(
            captured(captured(held, pins.tx, Claimant::Uart), pins.rx, Claimant::Uart),
            pins.cts,
            Claimant::Uart,
        ),
        pins.rts,
    )
}

/// The pins in use after a UART captured its pins.
pub open spec fn captured_all(held: Map<PinId, Claimant>, pins: UartPins) -> Map<PinId, Claimant> {
    captured(
        captured(
            captured(captured(held, pins.tx, Claimant::Uart), pins.rx, Claimant::Uart),
            pins.cts,
            Claimant::Uart,
        ),
        pins.rts,
        Claimant::Uart,
    )
}

/// The pins in use after a UART released its pins.
pub open spec fn released_all(held: Map<PinId, Claimant>, pins: UartPins) -> Map<PinId, Claimant> {
    released(released(released(released(held, pins.rts), pins.cts), pins.rx), pins.tx)
}

/// The line parameters of a UART as the driver takes them.
#[derive(Copy, Clone, PartialEq, Eq, Structural, Debug)]
pub struct UartConfig {
    pub baud_rate: u32,
    pub data_bits: UartDataBits,
    pub parity: UartParity,
    pub stop_bits: UartStopBits,
    pub flow_ctrl: UartHwControlFlow,
    pub rx_flow_ctrl_thresh: u8,
}

/// The settings of a UART under construction.
#[derive(Copy, Clone, PartialEq, Eq, Structural, Debug)]
pub struct UartDraft {
    pub config: UartConfig,
    /// Size of the receive buffer, 0 for a UART that cannot receive
    pub rx_buffer_size: usize,
    /// Size of the transmit buffer, 0 if the UART transmits unbuffered
    pub tx_buffer_size: usize,
}

impl UartDraft {
    /// The settings that a UART starts from: 9600 baud, 8 data bits, no
    /// parity, 1 stop bit, no flow control, no transmit buffer, and the
    /// smallest receive buffer unless it is UART 1, which has none.
    pub open spec fn initial(port: UartNumber) -> UartDraft {
        UartDraft {
            config: UartConfig {
                baud_rate: 9600,
                data_bits: UartDataBits::B8,
                parity: UartParity::Disabled,
                stop_bits: UartStopBits::B1,
                flow_ctrl: UartHwControlFlow::Disabled,
                rx_flow_ctrl_thresh: 0,
            },
            rx_buffer_size: if port == UartNumber::Uart1 {
                0
            } else {
                256
            },
            tx_buffer_size: 0,
        }
    }
}

/// Slowest baud rate.
pub const MIN_BAUD_RATE: u32 = 300;

/// Fastest baud rate.
pub const MAX_BAUD_RATE: u32 = 608000;

/// Highest fill level of the receive buffer at which RTS can be switched.
pub const MAX_RX_THRESHOLD: u8 = 127;

/// Smallest receive buffer.
pub const MIN_RX_BUFFER_SIZE: usize = 256;

/// Smallest transmit buffer, if there is one.
pub const MIN_TX_BUFFER_SIZE: usize = 256;

/// Collects the settings of a UART. Which settings are offered depends on
/// the markers of the UART.
#[derive(Debug)]
pub struct UartInitializer<UartType: UartHardwareInstance> {
    hardware: UartType,
    draft: UartDraft,
}

impl<UartType: UartHardwareInstance> View for UartInitializer<UartType> {
    type V = UartDraft;

    closed spec fn view(&self) -> UartDraft {
        self.draft
    }
}

/// A driver call of the sequence that initializes a UART.
#[derive(Copy, Clone, PartialEq, Eq, Structural, Debug)]
pub enum UartCommand {
    /// Set the line parameters.
    ParamConfig { port: UartNumber, config: UartConfig },
    /// Install the driver with its buffers.
    DriverInstall { port: UartNumber, rx_buffer_size: usize, tx_buffer_size: usize },
}

/// A UART whose initialization is under way: it holds its pins, and a
/// driver call is due.
#[derive(Debug)]
pub struct PendingUart<UartType: UartHardwareInstance> {
    initializer: UartInitializer<UartType>,
    installing: bool,
}

/// Where the initialization of a UART stands after an answer of the
/// driver.
pub enum UartProgress<UartType: UartHardwareInstance> {
    /// The call was accepted; another one is due.
    Next(PendingUart<UartType>),
    /// The last call was accepted: the UART is in use.
    Done(UartType::InitializedType),
    /// The call was refused. The pins are released, and the settings are
    /// handed back.
    Failed(UartConfigError, UartInitializer<UartType>),
}

impl<UartType: UartHardwareInstance> UartInitializer<UartType> {
    /// The hardware that the settings are for.
    pub closed spec fn hardware(&self) -> UartType {
        self.hardware
    }

    /// Starts to configure a UART. The hardware is kept until the UART is
    /// downgraded again.
    pub fn new(uart: UartType) -> (initializer: Self)
        ensures
            initializer@ == UartDraft::initial(UartType::UART_PORT_NUM),
            initializer.hardware() == uart,
    {
        Self {
            hardware: uart,
            draft: UartDraft {
                config: UartConfig {
                    baud_rate: 9600,
                    data_bits: UartDataBits::B8,
                    parity: UartParity::Disabled,
                    stop_bits: UartStopBits::B1,
                    flow_ctrl: UartHwControlFlow::Disabled,
                    rx_flow_ctrl_thresh: 0,
                },
                rx_buffer_size: if UartType::UART_PORT_NUM == UartNumber::Uart1 {
                    0
                } else {
                    256
                },
                tx_buffer_size: 0,
            },
        }
    }

    /// Gives the settings up and hands the hardware back.
    pub fn into_hardware(self) -> (hardware: UartType)
        ensures
            hardware == self.hardware(),
    {
        self.hardware
    }

    /// The settings as they stand.
    pub fn draft(&self) -> (draft: UartDraft)
        ensures
            draft == self@,
    {
        self.draft
    }

    /// Sets the baud rate, which must be between 300 and 608000.
    pub fn set_baud_rate(&mut self, baud_rate: u32) -> (result: Result<&mut Self, UartConfigError>)
        ensures
            match result {
                Ok(initializer) => {
                    &&& MIN_BAUD_RATE <= baud_rate <= MAX_BAUD_RATE
                    &&& initializer@ == (UartDraft {
                        config: UartConfig { baud_rate, ..old(self)@.config },
                        ..old(self)@
                    })
                    &&& initializer.hardware() == old(self).hardware()
                    &&& *final(self) == *final(initializer)
                },
                Err(error) => !(MIN_BAUD_RATE <= baud_rate <= MAX_BAUD_RATE) && error
                    == UartConfigError::InvalidBaudRate && *final(self) == *old(self),
            },
    {
        if baud_rate < MIN_BAUD_RATE || baud_rate > MAX_BAUD_RATE {
            Err(UartConfigError::InvalidBaudRate)
        } else {
            self.draft.config.baud_rate = baud_rate;
            Ok(self)
        }
    }

    pub fn set_data_bits(&mut self, data_bits: UartDataBits) -> (result: Result<
        &mut Self,
        UartConfigError,
    >)
        ensures
            result matches Ok(initializer) && initializer@ == (UartDraft {
                config: UartConfig { data_bits, ..old(self)@.config },
                ..old(self)@
            }) && initializer.hardware() == old(self).hardware()
                && *final(self) == *final(initializer),
    {
        self.draft.config.data_bits = data_bits;
        Ok(self)
    }

    pub fn set_parity(&mut self, parity: UartParity) -> (result: Result<
        &mut Self,
        UartConfigError,
    >)
        ensures
            result matches Ok(initializer) && initializer@ == (UartDraft {
                config: UartConfig { parity, ..old(self)@.config },
                ..old(self)@
            }) && initializer.hardware() == old(self).hardware()
                && *final(self) == *final(initializer),
    {
        self.draft.config.parity = parity;
        Ok(self)
    }

    pub fn set_stop_bits(&mut self, stop_bits: UartStopBits) -> (result: Result<
        &mut Self,
        UartConfigError,
    >)
        ensures
            result matches Ok(initializer) && initializer@ == (UartDraft {
                config: UartConfig { stop_bits, ..old(self)@.config },
                ..old(self)@
            }) && initializer.hardware() == old(self).hardware()
                && *final(self) == *final(initializer),
    {
        self.draft.config.stop_bits = stop_bits;
        Ok(self)
    }

    /// Chooses the lines of the hardware flow control. Offered only for a
    /// UART that has them.
    pub fn set_hw_control_flow(&mut self, control_flow: UartHwControlFlow) -> (result: Result<
        &mut Self,
        UartConfigError,
    >) where UartType: UartHaveHardwareFlow
        ensures
            uart_capabilities(pins_of::<UartType::Pins>()).hardware_flow,
            result matches Ok(initializer) && initializer@ == (UartDraft {
                config: UartConfig { flow_ctrl: control_flow, ..old(self)@.config },
                ..old(self)@
            }) && initializer.hardware() == old(self).hardware()
                && *final(self) == *final(initializer),
    {
        proof {
            <UartType as UartHaveHardwareFlow>::has_flow_lines();
        }
        self.draft.config.flow_ctrl = control_flow;
        Ok(self)
    }

    /// Sets the fill level of the receive buffer at which RTS is switched,
    /// which is 127 at most. Offered only for a UART that has hardware flow
    /// control and can receive.
    pub fn set_hw_control_flow_rx_threshold(&mut self, threshold: u8) -> (result: Result<
        &mut Self,
        UartConfigError,
    >) where UartType: UartHaveHardwareFlow + UartCanRead
        ensures
            uart_capabilities(pins_of::<UartType::Pins>()).hardware_flow,
            uart_capabilities(pins_of::<UartType::Pins>()).can_read,
            match result {
                Ok(initializer) => threshold <= MAX_RX_THRESHOLD && initializer@ == (UartDraft {
                    config: UartConfig { rx_flow_ctrl_thresh: threshold, ..old(self)@.config },
                    ..old(self)@
                }) && initializer.hardware() == old(self).hardware()
                    && *final(self) == *final(initializer),
                Err(error) => threshold > MAX_RX_THRESHOLD && error
                    == UartConfigError::InvalidRxThreshold && *final(self) == *old(self),
            },
    {
        proof {
            <UartType as UartHaveHardwareFlow>::has_flow_lines();
            <UartType as UartCanRead>::has_rx_line();
        }
        if threshold > MAX_RX_THRESHOLD {
            Err(UartConfigError::InvalidRxThreshold)
        } else {
            self.draft.config.rx_flow_ctrl_thresh = threshold;
            Ok(self)
        }
    }

    /// Sets the size of the receive buffer, which is 256 at least. Offered
    /// only for a UART that can receive.
    pub fn set_rx_buffer_size(&mut self, size: usize) -> (result: Result<
        &mut Self,
        UartConfigError,
    >) where UartType: UartCanRead
        ensures
            uart_capabilities(pins_of::<UartType::Pins>()).can_read,
            match result {
                Ok(initializer) => size >= MIN_RX_BUFFER_SIZE && initializer@ == (UartDraft {
                    rx_buffer_size: size,
                    ..old(self)@
                }) && initializer.hardware() == old(self).hardware()
                    && *final(self) == *final(initializer),
                Err(error) => size < MIN_RX_BUFFER_SIZE && error
                    == UartConfigError::InvalidRxBufferSize && *final(self) == *old(self),
            },
    {
        proof {
            <UartType as UartCanRead>::has_rx_line();
        }
        if size < MIN_RX_BUFFER_SIZE {
            Err(UartConfigError::InvalidRxBufferSize)
        } else {
            self.draft.rx_buffer_size = size;
            Ok(self)
        }
    }

    /// Sets the size of the transmit buffer: 256 at least, or 0 for none.
    pub fn set_tx_buffer_size(&mut self, size: usize) -> (result: Result<
        &mut Self,
        UartConfigError,
    >)
        ensures
            match result {
                Ok(initializer) => {
                    &&& size >= MIN_TX_BUFFER_SIZE || size == 0
                    &&& initializer@ == (UartDraft { tx_buffer_size: size, ..old(self)@ })
                    &&& initializer.hardware() == old(self).hardware()
                    &&& *final(self) == *final(initializer)
                },
                Err(error) => 0 < size < MIN_TX_BUFFER_SIZE && error
                    == UartConfigError::InvalidTxBufferSize && *final(self) == *old(self),
            },
    {
        if size < MIN_TX_BUFFER_SIZE && size != 0 {
            Err(UartConfigError::InvalidTxBufferSize)
        } else {
            self.draft.tx_buffer_size = size;
            Ok(self)
        }
    }

    /// Begins the initialization: captures the pins of the UART in the
    /// bank.
    ///
    /// If every pin is free, the UART holds them all and the first driver
    /// call is due: see [`PendingUart`]. If a pin is held already, the bank
    /// is left as it was and the settings are handed back.
    pub fn initialize(self, gpio_hw: &mut GpioHardware) -> (result: Result<
        PendingUart<UartType>,
        (UartConfigError, Self),
    >)
        ensures
            match result {
                Ok(pending) => can_capture_all(old(gpio_hw)@, pins_of::<UartType::Pins>())
                    && final(gpio_hw)@ == captured_all(old(gpio_hw)@, pins_of::<UartType::Pins>())
                    && pending.initializer() == self && !pending.installing(),
                Err((error, initializer)) => !can_capture_all(
                    old(gpio_hw)@,
                    pins_of::<UartType::Pins>(),
                ) && final(gpio_hw)@ == old(gpio_hw)@ && error
                    == UartConfigError::PinAlreadyCaptured && initializer == self,
            },
    {
        let ghost held = gpio_hw@;
        if <<UartType::Pins as UartGpioPins>::TxPin as CaptureGpioPin>::capture_pin(
            gpio_hw,
        ).is_err() {
            return Err((UartConfigError::PinAlreadyCaptured, self));
        }
        if <<UartType::Pins as UartGpioPins>::RxPin as CaptureGpioPin>::capture_pin(
            gpio_hw,
        ).is_err() {
            <<UartType::Pins as UartGpioPins>::TxPin as CaptureGpioPin>::release_pin(gpio_hw);
            assert(gpio_hw@ =~= held);
            return Err((UartConfigError::PinAlreadyCaptured, self));
        }
        if <<UartType::Pins as UartGpioPins>::CtsPin as CaptureGpioPin>::capture_pin(
            gpio_hw,
        ).is_err() {
            <<UartType::Pins as UartGpioPins>::RxPin as CaptureGpioPin>::release_pin(gpio_hw);
            <<UartType::Pins as UartGpioPins>::TxPin as CaptureGpioPin>::release_pin(gpio_hw);
            assert(gpio_hw@ =~= held);
            return Err((UartConfigError::PinAlreadyCaptured, self));
        }
        if <<UartType::Pins as UartGpioPins>::RtsPin as CaptureGpioPin>::capture_pin(
            gpio_hw,
        ).is_err() {
            <<UartType::Pins as UartGpioPins>::CtsPin as CaptureGpioPin>::release_pin(gpio_hw);
            <<UartType::Pins as UartGpioPins>::RxPin as CaptureGpioPin>::release_pin(gpio_hw);
            <<UartType::Pins as UartGpioPins>::TxPin as CaptureGpioPin>::release_pin(gpio_hw);
            assert(gpio_hw@ =~= held);
            return Err((UartConfigError::PinAlreadyCaptured, self));
        }
        Ok(PendingUart { initializer: self, installing: false })
    }
}

/// Releases the four pins of the assignment `P`.
fn release_pins<P: UartGpioPins>(gpio_hw: &mut GpioHardware)
    ensures
        final(gpio_hw)@ == released_all(old(gpio_hw)@, pins_of::<P>()),
{
    <P::RtsPin as CaptureGpioPin>::release_pin(gpio_hw);
    <P::CtsPin as CaptureGpioPin>::release_pin(gpio_hw);
    <P::RxPin as CaptureGpioPin>::release_pin(gpio_hw);
    <P::TxPin as CaptureGpioPin>::release_pin(gpio_hw);
}

impl<UartType: UartHardwareInstance> PendingUart<UartType> {
    /// The settings that are being committed.
    pub closed spec fn initializer(&self) -> UartInitializer<UartType> {
        self.initializer
    }

    /// Whether the line parameters are set and the driver is being
    /// installed.
    pub closed spec fn installing(&self) -> bool {
        self.installing
    }

    /// The driver call that is due: the line parameters first, then the
    /// installation of the driver with its buffers.
    pub fn command(&self) -> (command: UartCommand)
        ensures
            command == if self.installing() {
                UartCommand::DriverInstall {
                    port: UartType::UART_PORT_NUM,
                    rx_buffer_size: self.initializer()@.rx_buffer_size,
                    tx_buffer_size: self.initializer()@.tx_buffer_size,
                }
            } else {
                UartCommand::ParamConfig {
                    port: UartType::UART_PORT_NUM,
                    config: self.initializer()@.config,
                }
            },
    {
        if self.installing {
            UartCommand::DriverInstall {
                port: UartType::UART_PORT_NUM,
                rx_buffer_size: self.initializer.draft.rx_buffer_size,
                tx_buffer_size: self.initializer.draft.tx_buffer_size,
            }
        } else {
            UartCommand::ParamConfig {
                port: UartType::UART_PORT_NUM,
                config: self.initializer.draft.config,
            }
        }
    }

    /// Takes the driver's answer to the call that was due.
    ///
    /// Accepted line parameters lead to the installation of the driver, and
    /// an accepted installation to the UART in use, made from the hardware
    /// that the settings were for. A refused call ends the initialization:
    /// the pins of the UART are released.
    pub fn advance(self, status: DriverStatus, gpio_hw: &mut GpioHardware) -> (progress:
        UartProgress<UartType>)
        ensures
            match progress {
                UartProgress::Next(next) => status.succeeded() && !self.installing()
                    && next.installing() && next.initializer() == self.initializer()
                    && final(gpio_hw)@ == old(gpio_hw)@,
                UartProgress::Done(uart) => status.succeeded() && self.installing()
                    && uart.hardware() == self.initializer().hardware() && final(gpio_hw)@ == old(
                    gpio_hw,
                )@,
                UartProgress::Failed(error, initializer) => !status.succeeded() && error
                    == UartConfigError::Unknown && initializer == self.initializer()
                    && final(gpio_hw)@ == released_all(
                    old(gpio_hw)@,
                    pins_of::<UartType::Pins>(),
                ),
            },
    {
        if !status.is_ok() {
            release_pins::<UartType::Pins>(gpio_hw);
            UartProgress::Failed(UartConfigError::Unknown, self.initializer)
        } else if self.installing {
            UartProgress::Done(
                <UartType::InitializedType as Uart>::build(
                    UartInitializedMarker::new(),
                    self.initializer.hardware,
                ),
            )
        } else {
            UartProgress::Next(PendingUart { initializer: self.initializer, installing: true })
        }
    }
}

/// Takes a UART out of use: its pins are released, and the hardware that it
/// was made from is handed back.
pub fn downgrade<UartType: UartHardwareInstance>(
    uart: UartType::InitializedType,
    gpio_hw: &mut GpioHardware,
) -> (hardware: UartType)
    ensures
        hardware == uart.hardware(),
        final(gpio_hw)@ == released_all(old(gpio_hw)@, pins_of::<UartType::Pins>()),
{
    release_pins::<UartType::Pins>(gpio_hw);
    uart.into_hardware()
}

impl Uart0 {
    /// Takes the UART out of use: see [`downgrade`].
    pub fn downgrade(self, gpio_hw: &mut GpioHardware) -> (hardware: Uart0Hardware)
        ensures
            hardware == self.hardware(),
            final(gpio_hw)@ == released_all(old(gpio_hw)@, pins_of::<Uart0GpioPins>()),
    {
        downgrade::<Uart0Hardware>(self, gpio_hw)
    }
}

impl Uart0Alt {
    /// Takes the UART out of use: see [`downgrade`].
    pub fn downgrade(self, gpio_hw: &mut GpioHardware) -> (hardware: Uart0AltHardware)
        ensures
            hardware == self.hardware(),
            final(gpio_hw)@ == released_all(old(gpio_hw)@, pins_of::<Uart0AltGpioPins>()),
    {
        downgrade::<Uart0AltHardware>(self, gpio_hw)
    }
}

impl Uart1 {
    /// Takes the UART out of use: see [`downgrade`].
    pub fn downgrade(self, gpio_hw: &mut GpioHardware) -> (hardware: Uart1Hardware)
        ensures
            hardware == self.hardware(),
            final(gpio_hw)@ == released_all(old(gpio_hw)@, pins_of::<Uart1GpioPins>()),
    {
        downgrade::<Uart1Hardware>(self, gpio_hw)
    }
}

/// A UART that captured its pins and releases them again leaves the bank as
/// it found it: none of its pins stays held.
pub proof fn lemma_release_undoes_capture(held: Map<PinId, Claimant>, pins: UartPins)
    requires
        can_capture_all(held, pins),
    ensures
        released_all(captured_all(held, pins), pins) == held,
        is_free(released_all(captured_all(held, pins), pins), pins.tx),
        is_free(released_all(captured_all(held, pins), pins), pins.rx),
        is_free(released_all(captured_all(held, pins), pins), pins.cts),
        is_free(released_all(captured_all(held, pins), pins), pins.rts),
{
    assert(released_all(captured_all(held, pins), pins) =~= held);
}

/// While a UART holds its pins, none of them can be captured again, and
/// the UART is recorded as the holder of each line that is wired.
pub proof fn lemma_captured_pins_are_held(held: Map<PinId, Claimant>, pins: UartPins, pin: PinId)
    requires
        can_capture_all(held, pins),
        pin == pins.tx || pin == pins.rx || pin == pins.cts || pin == pins.rts,
        pin != NOT_CONNECTED,
    ensures
        !is_free(captured_all(held, pins), pin),
        captured_all(held, pins)[pin] == Claimant::Uart,
{
}

/// Capturing and releasing the pins of a UART leaves every other pin with
/// the holder it had.
pub proof fn lemma_other_pins_keep_holder(held: Map<PinId, Claimant>, pins: UartPins, other: PinId)
    requires
        other != pins.tx,
        other != pins.rx,
        other != pins.cts,
        other != pins.rts,
    ensures
        captured_all(held, pins).contains_key(other) == held.contains_key(other),
        released_all(held, pins).contains_key(other) == held.contains_key(other),
        held.contains_key(other) ==> captured_all(held, pins)[other] == held[other]
            && released_all(held, pins)[other] == held[other],
{
}

/// The wait for the transmit queue to drain ran out of time.
#[derive(Copy, Clone, PartialEq, Eq, Structural, Debug)]
pub enum WaitError {
    Timeout,
}

/// Nothing was received in time.
#[derive(Copy, Clone, PartialEq, Eq, Structural, Debug)]
pub enum ReadError {
    Timeout,
}

/// A UART in use that can transmit.
pub trait TransmittingUart: Sized {
    /// Takes the driver's answer to the wait for the transmit queue to
    /// drain: anything but success means that the time ran out.
    fn wait_write_done(&mut self, status: DriverStatus) -> (result: Result<(), WaitError>)
        ensures
            result is Ok <==> status.succeeded(),
            *final(self) == *old(self),
    ;
}

impl<T: Uart> TransmittingUart for T where <T as Uart>::Hardware: UartCanWrite {
    fn wait_write_done(&mut self, status: DriverStatus) -> (result: Result<(), WaitError>) {
        if status.is_ok() {
            Ok(())
        } else {
            Err(WaitError::Timeout)
        }
    }
}

/// A UART in use that can receive.
pub trait ReceivingUart: Sized {
    /// Takes the driver's answer to a read: the number of bytes that were
    /// received, or a negative number if none came in time.
    fn read_bytes(&mut self, received: i32) -> (result: Result<usize, ReadError>)
        ensures
            match result {
                Ok(count) => received >= 0 && count == received,
                Err(_) => received < 0,
            },
            *final(self) == *old(self),
    ;
}

impl<T: Uart> ReceivingUart for T where <T as Uart>::Hardware: UartCanRead {
    fn read_bytes(&mut self, received: i32) -> (result: Result<usize, ReadError>) {
        if received < 0 {
            Err(ReadError::Timeout)
        } else {
            Ok(received as usize)
        }
    }
}

} // verus!
