//! The answer of a driver call, as the state machines read it.
use vstd::prelude::*;

verus! {

/// Raw status code of the driver.
pub type RawStatus = i32;

/// The meanings of a driver status that some transition tells apart.
#[derive(Copy, Clone, PartialEq, Eq, Structural, Debug)]
pub enum StatusKind {
    /// The call succeeded.
    Success,
    /// The driver ran out of memory.
    NoMemory,
    /// The driver rejected an argument.
    InvalidArgument,
    /// The WiFi driver could not establish the connection.
    WiFiConnection,
    /// The WiFi driver failed in its flash-backed store.
    WiFiNvs,
    /// The WiFi driver rejected the password.
    WiFiPassword,
    /// The flash partition has no free pages left.
    NvsNoFreePages,
    /// The flash partition does not exist.
    NvsNotFound,
    /// Any other failure.
    Other,
}

/// Status returned by a driver call: the raw code together with its meaning.
#[derive(Copy, Clone, PartialEq, Eq, Structural, Debug)]
pub struct DriverStatus {
    /// What the code means.
    pub kind: StatusKind,
    /// The code as the driver returned it.
    pub code: RawStatus,
}

impl DriverStatus {
    /// Whether the status reports success.
    pub open spec fn succeeded(&self) -> bool {
        self.kind == StatusKind::Success
    }

    /// Pairs a raw code with its meaning.
    pub fn new(kind: StatusKind, code: RawStatus) -> (status: Self)
        ensures
            status == (DriverStatus { kind, code }),
    {
        DriverStatus { kind, code }
    }

    /// Tells whether the call succeeded.
    pub fn is_ok(&self) -> (ok: bool)
        ensures
            ok == self.succeeded(),
    {
        self.kind == StatusKind::Success
    }
}

} // verus!
