use idf_hal::freertos::delay_ms;
use idf_hal::status::{DriverStatus, StatusKind};
use idf_hal::system_event::{
    make_sta_disconnect_reason, make_system_event, RawEvent, StaDisconnectReason, SystemEvent,
};

#[test]
fn delay_in_ticks() {
    assert_eq!(delay_ms(1000, 100), 100);
    assert_eq!(delay_ms(1000, 1000), 1000);
    assert_eq!(delay_ms(1000, 1), 1);
    assert_eq!(delay_ms(999, 1), 0);
    assert_eq!(delay_ms(25, 100), 2);
    assert_eq!(delay_ms(9, 100), 0);
    assert_eq!(delay_ms(0, 50), 0);
    assert_eq!(delay_ms(100, 300), 33);
    assert_eq!(delay_ms(100, 501), 100);
}

#[test]
fn disconnect_reason_tells_the_basic_rate_apart() {
    assert_eq!(make_sta_disconnect_reason(true), StaDisconnectReason::BasicRateIsNotSupported);
    assert_eq!(make_sta_disconnect_reason(false), StaDisconnectReason::Unknown);
}

#[test]
fn system_events_are_told_apart() {
    assert_eq!(make_system_event(RawEvent::StaStart), SystemEvent::StaStarted);
    assert!(matches!(make_system_event(RawEvent::StaConnected), SystemEvent::StaConnected(_)));
    match make_system_event(RawEvent::StaDisconnected { basic_rate_not_supported: true }) {
        SystemEvent::StaDisconnected(event) => {
            assert_eq!(event.reason, StaDisconnectReason::BasicRateIsNotSupported)
        }
        _ => panic!("the station lost its access point"),
    }
    match make_system_event(RawEvent::StaDisconnected { basic_rate_not_supported: false }) {
        SystemEvent::StaDisconnected(event) => {
            assert_eq!(event.reason, StaDisconnectReason::Unknown)
        }
        _ => panic!("the station lost its access point"),
    }
    assert_eq!(make_system_event(RawEvent::Other), SystemEvent::Unknown);
}

#[test]
fn status_is_ok_for_success_only() {
    assert!(DriverStatus::new(StatusKind::Success, 0).is_ok());
    for kind in [
        StatusKind::NoMemory,
        StatusKind::InvalidArgument,
        StatusKind::WiFiConnection,
        StatusKind::WiFiNvs,
        StatusKind::WiFiPassword,
        StatusKind::NvsNoFreePages,
        StatusKind::NvsNotFound,
        StatusKind::Other,
    ] {
        assert!(!DriverStatus::new(kind, 0).is_ok());
    }
    let status = DriverStatus::new(StatusKind::Other, 42);
    assert_eq!(status.kind, StatusKind::Other);
    assert_eq!(status.code, 42);
}
