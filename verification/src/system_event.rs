//! The events that the system reports about the WiFi station.
use vstd::prelude::*;

verus! {

/// The station is connected to an access point.
#[non_exhaustive]
#[derive(Copy, Clone, PartialEq, Eq, Debug)]
pub struct StaConnectedEvent {}

/// Why the station lost its access point.
#[non_exhaustive]
#[derive(Copy, Clone, PartialEq, Eq, Structural, Debug)]
pub enum StaDisconnectReason {
    /// Usually signals that wifi should be switched to bgn mode
    BasicRateIsNotSupported,
    Unknown,
}

/// The station lost its access point.
#[non_exhaustive]
#[derive(Copy, Clone, PartialEq, Eq, Debug)]
pub struct StaDisconnectedEvent {
    pub reason: StaDisconnectReason,
}

/// An event of the system.
#[derive(Copy, Clone, PartialEq, Eq, Debug)]
pub enum SystemEvent {
    StaStarted,
    StaConnected(StaConnectedEvent),
    StaDisconnected(StaDisconnectedEvent),
    Unknown,
}

/// What the system reports, before it is told apart.
#[derive(Copy, Clone, PartialEq, Eq, Structural, Debug)]
pub enum RawEvent {
    /// The station started.
    StaStart,
    /// The station is connected.
    StaConnected,
    /// The station lost its access point; the flag tells whether the
    /// reason that the system gives is that the access point does not
    /// support the basic rate.
    StaDisconnected { basic_rate_not_supported: bool },
    /// Anything else.
    Other,
}

/// The reason for a lost connection: the one reason that is told apart, or
/// unknown.
pub fn make_sta_disconnect_reason(basic_rate_not_supported: bool) -> (reason: StaDisconnectReason)
    ensures
        reason == if basic_rate_not_supported {
            StaDisconnectReason::BasicRateIsNotSupported
        } else {
            StaDisconnectReason::Unknown
        },
{
    if basic_rate_not_supported {
        StaDisconnectReason::BasicRateIsNotSupported
    } else {
        StaDisconnectReason::Unknown
    }
}

/// The event that a handler is called with for what the system reported.
pub fn make_system_event(raw: RawEvent) -> (event: SystemEvent)
    ensures
        event == match raw {
            RawEvent::StaStart => SystemEvent::StaStarted,
            RawEvent::StaConnected => SystemEvent::StaConnected(StaConnectedEvent {  }),
            RawEvent::StaDisconnected { basic_rate_not_supported } => SystemEvent::StaDisconnected(
                StaDisconnectedEvent {
                    reason: if basic_rate_not_supported {
                        StaDisconnectReason::BasicRateIsNotSupported
                    } else {
                        StaDisconnectReason::Unknown
                    },
                },
            ),
            RawEvent::Other => SystemEvent::Unknown,
        },
{
    match raw {
        RawEvent::StaStart => SystemEvent::StaStarted,
        RawEvent::StaConnected => SystemEvent::StaConnected(StaConnectedEvent {  }),
        RawEvent::StaDisconnected { basic_rate_not_supported } => SystemEvent::StaDisconnected(
            StaDisconnectedEvent {
                reason: make_sta_disconnect_reason(basic_rate_not_supported),
            },
        ),
        RawEvent::Other => SystemEvent::Unknown,
    }
}

} // verus!
