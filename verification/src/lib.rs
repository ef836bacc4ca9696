//! Ownership and capability-checked configuration of the peripherals of an
//! ESP8266-class microcontroller.
//!
//! Every peripheral is handed out once by [`peripherals::Peripherals`]. The
//! tokens obtained there are moved into builders that validate settings
//! against what the hardware unit can do, and into state machines that walk
//! a unit through its lifecycle. No function here touches the hardware: a
//! transition yields the driver call that has to be made and takes the
//! driver's answer as a [`status::DriverStatus`].
pub mod freertos;
pub mod gpio;
pub mod nvs;
pub mod peripherals;
pub mod pwm;
pub mod status;
pub mod system_event;
pub mod uart;
pub mod wifi;
