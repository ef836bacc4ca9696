//! The registry that hands out the peripherals of the chip, once.
//!
//! A [`Peripherals`] value is created at startup and threaded to whoever
//! needs it. Its first [`Peripherals::take`] yields the tokens of all
//! top-level peripherals; they never return to the registry. The registry
//! is not synchronised: take from it during single-threaded startup.
use vstd::prelude::*;

verus! {

/// Token of the WiFi adapter.
#[derive(Debug)]
pub struct WiFiPeripherals {
    _guard: (),
}

/// Token of the GPIO bank.
#[derive(Debug)]
pub struct GpioPeripherals {
    _guard: (),
}

/// Token of the UART bank.
#[derive(Debug)]
pub struct UartPeripherals {
    _guard: (),
}

/// Token of the non-volatile storage.
#[derive(Debug)]
pub struct NvsPeripherals {
    _guard: (),
}

/// The tokens of all peripherals. The fields can be moved out one by one.
/// A single token cannot be made from outside; a whole set comes from
/// [`OwnedPeripherals::new`], which is meant for the registry.
#[derive(Debug)]
pub struct OwnedPeripherals {
    /// The WiFi adapter.
    pub wifi: WiFiPeripherals,
    /// The GPIO bank.
    pub gpio: GpioPeripherals,
    /// The UART bank.
    pub uart: UartPeripherals,
    /// The non-volatile storage.
    pub nvs: NvsPeripherals,
}

/// Registry of the peripherals.
pub struct Peripherals {
    data: Option<OwnedPeripherals>,
}

impl OwnedPeripherals {
    /// A full set of tokens. Every call makes another set: make one
    /// registry and take from it, so that each peripheral has one owner.
    pub fn new() -> (owned: OwnedPeripherals) {
        OwnedPeripherals {
            wifi: WiFiPeripherals { _guard: () },
            gpio: GpioPeripherals { _guard: () },
            uart: UartPeripherals { _guard: () },
            nvs: NvsPeripherals { _guard: () },
        }
    }
}

impl Peripherals {
    /// Whether the tokens are still in the registry.
    pub closed spec fn available(&self) -> bool {
        self.data is Some
    }

    /// The registry as a take leaves it.
    pub closed spec fn taken(self) -> Peripherals {
        Peripherals { data: None }
    }

    /// The registry after `n` takes.
    pub open spec fn after_takes(self, n: nat) -> Peripherals
        decreases n,
    {
        if n == 0 {
            self
        } else {
            self.after_takes((n - 1) as nat).taken()
        }
    }

    /// A registry that holds all tokens.
    pub fn new() -> (registry: Peripherals)
        ensures
            registry.available(),
    {
        Peripherals { data: Some(OwnedPeripherals::new()) }
    }

    /// Hands out the tokens if they are still there, and leaves the registry
    /// empty in any case.
    pub fn take(&mut self) -> (owned: Option<OwnedPeripherals>)
        ensures
            owned is Some <==> old(self).available(),
            *final(self) == old(self).taken(),
            !final(self).available(),
    {
        self.data.take()
    }

    /// A registry that was taken from does not hold the tokens.
    pub proof fn lemma_taken_is_empty(self)
        ensures
            !self.taken().available(),
    {
    }

    /// Take-once: after one take or more the registry is empty, so the next
    /// take yields nothing, whatever the registry held at first.
    pub proof fn lemma_take_once(self, n: nat)
        requires
            n >= 1,
        ensures
            !self.after_takes(n).available(),
    {
    }
}

} // verus!
