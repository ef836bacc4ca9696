use idf_hal::peripherals::Peripherals;
use idf_hal::status::{DriverStatus, StatusKind};
use idf_hal::wifi::{
    StartProgress, StartStep, WiFi, WiFiApConfiguration, WiFiApConfigurationBuildError,
    WiFiApConfigurationBuilder, WiFiAuthMode, WiFiCommand, WiFiConfigurationError, WiFiHardware,
    WiFiInitializationError, WiFiInterface, WiFiMode, WiFiScanMethod, WiFiScanThresholdBuildError,
    WiFiScanThresholdBuilder, WiFiSortMethod, WiFiStaConfiguration,
    WiFiStaConfigurationBuildError, WiFiStaConfigurationBuilder,
};

fn accepted() -> DriverStatus {
    DriverStatus::new(StatusKind::Success, 0)
}

fn status(kind: StatusKind, code: i32) -> DriverStatus {
    DriverStatus::new(kind, code)
}

fn hardware() -> WiFiHardware {
    WiFiHardware::new(Peripherals::new().take().unwrap().wifi)
}

fn adapter() -> WiFi {
    hardware().initialize(accepted()).unwrap()
}

fn ap_config() -> WiFiApConfiguration {
    WiFiApConfigurationBuilder::new()
        .ssid("Hello, world!")
        .auth_mode(WiFiAuthMode::WpaWpa2Psk)
        .password("mypassword")
        .build()
        .unwrap()
}

fn sta_config() -> WiFiStaConfiguration {
    WiFiStaConfigurationBuilder::new().ssid("home").password("secret").build().unwrap()
}

fn field<const N: usize>(text: &str) -> [u8; N] {
    let mut field = [0u8; N];
    field[..text.len()].copy_from_slice(text.as_bytes());
    field
}

#[test]
fn ap_ssid_of_33_bytes_is_refused() {
    let result = WiFiApConfigurationBuilder::new()
        .ssid(&"x".repeat(33))
        .auth_mode(WiFiAuthMode::OpenNetwork)
        .build();
    assert_eq!(result.unwrap_err(), WiFiApConfigurationBuildError::TooLongSsid);
}

#[test]
fn ap_ssid_of_32_bytes_is_accepted() {
    let name = "y".repeat(32);
    let config = WiFiApConfigurationBuilder::new()
        .ssid(&name)
        .auth_mode(WiFiAuthMode::OpenNetwork)
        .build()
        .unwrap();
    assert_eq!(config.settings().ssid, [b'y'; 32]);
    assert_eq!(config.settings().ssid_len, 32);
}

#[test]
fn ap_ssid_is_counted_in_bytes() {
    let name = "é".repeat(17);
    assert_eq!(name.len(), 34);
    let result =
        WiFiApConfigurationBuilder::new().ssid(&name).auth_mode(WiFiAuthMode::OpenNetwork).build();
    assert_eq!(result.unwrap_err(), WiFiApConfigurationBuildError::TooLongSsid);
    let name = "é".repeat(16);
    let config = WiFiApConfigurationBuilder::new()
        .ssid(&name)
        .auth_mode(WiFiAuthMode::OpenNetwork)
        .build()
        .unwrap();
    assert_eq!(config.settings().ssid_len, 32);
    assert_eq!(&config.settings().ssid[..4], &[0xc3, 0xa9, 0xc3, 0xa9]);
}

#[test]
fn ap_without_ssid_that_is_not_hidden_is_refused() {
    let result = WiFiApConfigurationBuilder::new().auth_mode(WiFiAuthMode::OpenNetwork).build();
    assert_eq!(result.unwrap_err(), WiFiApConfigurationBuildError::SsidNotSet);
    let result = WiFiApConfigurationBuilder::new()
        .hidden(false)
        .auth_mode(WiFiAuthMode::OpenNetwork)
        .build();
    assert_eq!(result.unwrap_err(), WiFiApConfigurationBuildError::SsidNotSet);
}

#[test]
fn ap_without_ssid_that_is_hidden_is_accepted() {
    let config = WiFiApConfigurationBuilder::new()
        .hidden(true)
        .auth_mode(WiFiAuthMode::OpenNetwork)
        .build()
        .unwrap();
    assert_eq!(config.settings().ssid, [0u8; 32]);
    assert_eq!(config.settings().ssid_len, 0);
    assert!(config.settings().ssid_hidden);
    assert_eq!(config.settings().password, [0u8; 64]);
}

#[test]
fn ap_auth_mode_wep_is_refused() {
    let result =
        WiFiApConfigurationBuilder::new().ssid("net").auth_mode(WiFiAuthMode::Wep).build();
    assert_eq!(result.unwrap_err(), WiFiApConfigurationBuildError::AuthModeNotSupported);
}

#[test]
fn ap_channel_15_is_refused() {
    let result = WiFiApConfigurationBuilder::new()
        .ssid("net")
        .auth_mode(WiFiAuthMode::OpenNetwork)
        .channel(15)
        .build();
    assert_eq!(result.unwrap_err(), WiFiApConfigurationBuildError::InvalidWiFiChannel);
    let result = WiFiApConfigurationBuilder::new()
        .ssid("net")
        .auth_mode(WiFiAuthMode::OpenNetwork)
        .channel(0)
        .build();
    assert_eq!(result.unwrap_err(), WiFiApConfigurationBuildError::InvalidWiFiChannel);
}

#[test]
fn ap_channels_1_and_14_are_accepted() {
    for channel in [1u8, 7, 14] {
        let config = WiFiApConfigurationBuilder::new()
            .ssid("net")
            .auth_mode(WiFiAuthMode::OpenNetwork)
            .channel(channel)
            .build()
            .unwrap();
        assert_eq!(config.settings().channel, channel);
    }
}

#[test]
fn a_fully_valid_ap_draft_builds() {
    let config = ap_config();
    let settings = config.settings();
    assert_eq!(settings.ssid, field::<32>("Hello, world!"));
    assert_eq!(settings.ssid_len, 13);
    assert_eq!(settings.password, field::<64>("mypassword"));
    assert_eq!(settings.auth_mode, WiFiAuthMode::WpaWpa2Psk);
    assert_eq!(settings.channel, 0);
    assert!(!settings.ssid_hidden);
    assert_eq!(settings.max_connections, 4);
    assert_eq!(settings.beacon_interval, 100);
}

#[test]
fn ap_stores_every_setting() {
    let config = WiFiApConfigurationBuilder::new()
        .ssid("lab")
        .password("0123456789")
        .auth_mode(WiFiAuthMode::Wpa2Psk)
        .channel(11)
        .hidden(true)
        .max_connections(2)
        .beacon_interval(60000)
        .build()
        .unwrap();
    let settings = config.settings();
    assert_eq!(settings.ssid, field::<32>("lab"));
    assert_eq!(settings.ssid_len, 3);
    assert_eq!(settings.password, field::<64>("0123456789"));
    assert_eq!(settings.auth_mode, WiFiAuthMode::Wpa2Psk);
    assert_eq!(settings.channel, 11);
    assert!(settings.ssid_hidden);
    assert_eq!(settings.max_connections, 2);
    assert_eq!(settings.beacon_interval, 60000);
}

#[test]
fn ap_without_auth_mode_is_refused() {
    let result = WiFiApConfigurationBuilder::new().ssid("net").password("password").build();
    assert_eq!(result.unwrap_err(), WiFiApConfigurationBuildError::AuthModeNotSet);
}

#[test]
fn ap_without_password_is_refused_unless_open() {
    for mode in [
        WiFiAuthMode::WpaPsk,
        WiFiAuthMode::Wpa2Psk,
        WiFiAuthMode::WpaWpa2Psk,
        WiFiAuthMode::Wpa2Enterprise,
    ] {
        let result = WiFiApConfigurationBuilder::new().ssid("net").auth_mode(mode).build();
        assert_eq!(result.unwrap_err(), WiFiApConfigurationBuildError::PasswordNotSet);
    }
    let open = WiFiApConfigurationBuilder::new()
        .ssid("net")
        .auth_mode(WiFiAuthMode::OpenNetwork)
        .build()
        .unwrap();
    assert_eq!(open.settings().auth_mode, WiFiAuthMode::OpenNetwork);
}

#[test]
fn ap_password_of_65_bytes_is_refused() {
    let result = WiFiApConfigurationBuilder::new()
        .ssid("net")
        .auth_mode(WiFiAuthMode::OpenNetwork)
        .password(&"p".repeat(65))
        .build();
    assert_eq!(result.unwrap_err(), WiFiApConfigurationBuildError::TooLongPassword);
}

#[test]
fn ap_password_needs_room_for_the_terminator_unless_open() {
    let long = "p".repeat(64);
    let result = WiFiApConfigurationBuilder::new()
        .ssid("net")
        .auth_mode(WiFiAuthMode::Wpa2Psk)
        .password(&long)
        .build();
    assert_eq!(result.unwrap_err(), WiFiApConfigurationBuildError::TooLongPassword);
    let result = WiFiApConfigurationBuilder::new()
        .ssid("net")
        .password(&long)
        .auth_mode(WiFiAuthMode::Wpa2Psk)
        .build();
    assert_eq!(result.unwrap_err(), WiFiApConfigurationBuildError::TooLongPassword);
    let open = WiFiApConfigurationBuilder::new()
        .ssid("net")
        .auth_mode(WiFiAuthMode::OpenNetwork)
        .password(&long)
        .build()
        .unwrap();
    assert_eq!(open.settings().password, [b'p'; 64]);
    let fits = "q".repeat(63);
    let config = WiFiApConfigurationBuilder::new()
        .ssid("net")
        .auth_mode(WiFiAuthMode::Wpa2Psk)
        .password(&fits)
        .build()
        .unwrap();
    assert_eq!(&config.settings().password[..63], fits.as_bytes());
    assert_eq!(config.settings().password[63], 0);
}

#[test]
fn ap_max_connections_are_1_to_4() {
    for count in [0u8, 5, 255] {
        let result = WiFiApConfigurationBuilder::new()
            .ssid("net")
            .auth_mode(WiFiAuthMode::OpenNetwork)
            .max_connections(count)
            .build();
        assert_eq!(result.unwrap_err(), WiFiApConfigurationBuildError::InvalidMaxConnections);
    }
    for count in [1u8, 4] {
        let config = WiFiApConfigurationBuilder::new()
            .ssid("net")
            .auth_mode(WiFiAuthMode::OpenNetwork)
            .max_connections(count)
            .build()
            .unwrap();
        assert_eq!(config.settings().max_connections, count);
    }
}

#[test]
fn ap_beacon_interval_is_100_to_60000() {
    for interval in [0u16, 99, 60001, u16::MAX] {
        let result = WiFiApConfigurationBuilder::new()
            .ssid("net")
            .auth_mode(WiFiAuthMode::OpenNetwork)
            .beacon_interval(interval)
            .build();
        assert_eq!(result.unwrap_err(), WiFiApConfigurationBuildError::InvalidBeaconInterval);
    }
    for interval in [100u16, 60000] {
        let config = WiFiApConfigurationBuilder::new()
            .ssid("net")
            .auth_mode(WiFiAuthMode::OpenNetwork)
            .beacon_interval(interval)
            .build()
            .unwrap();
        assert_eq!(config.settings().beacon_interval, interval);
    }
}

#[test]
fn ap_builder_reports_its_first_error() {
    let result = WiFiApConfigurationBuilder::new()
        .channel(15)
        .ssid(&"x".repeat(40))
        .auth_mode(WiFiAuthMode::Wep)
        .max_connections(9)
        .build();
    assert_eq!(result.unwrap_err(), WiFiApConfigurationBuildError::InvalidWiFiChannel);
    let result = WiFiApConfigurationBuilder::new()
        .auth_mode(WiFiAuthMode::Wep)
        .channel(15)
        .build();
    assert_eq!(result.unwrap_err(), WiFiApConfigurationBuildError::AuthModeNotSupported);
}

#[test]
fn ap_builder_stays_poisoned_after_valid_calls() {
    let result = WiFiApConfigurationBuilder::new()
        .beacon_interval(1)
        .ssid("Hello, world!")
        .auth_mode(WiFiAuthMode::WpaWpa2Psk)
        .password("mypassword")
        .beacon_interval(200)
        .build();
    assert_eq!(result.unwrap_err(), WiFiApConfigurationBuildError::InvalidBeaconInterval);
}

#[test]
fn ap_pending_error_comes_before_the_cross_checks() {
    let result = WiFiApConfigurationBuilder::new().max_connections(0).build();
    assert_eq!(result.unwrap_err(), WiFiApConfigurationBuildError::InvalidMaxConnections);
}

#[test]
fn ap_refused_setting_keeps_the_earlier_value() {
    let config = WiFiApConfigurationBuilder::new()
        .ssid("first")
        .auth_mode(WiFiAuthMode::OpenNetwork)
        .channel(6)
        .hidden(true)
        .build()
        .unwrap();
    assert_eq!(config.settings().ssid, field::<32>("first"));
    let config = WiFiApConfigurationBuilder::new()
        .ssid("first")
        .ssid("second")
        .auth_mode(WiFiAuthMode::OpenNetwork)
        .build()
        .unwrap();
    assert_eq!(config.settings().ssid, field::<32>("second"));
    assert_eq!(config.settings().ssid_len, 6);
}

#[test]
fn scan_threshold_defaults_to_any_signal_and_open_networks() {
    let threshold = WiFiScanThresholdBuilder::new().build().unwrap();
    assert_eq!(threshold.rssi(), 0);
    assert_eq!(threshold.auth_mode(), WiFiAuthMode::OpenNetwork);
}

#[test]
fn scan_threshold_stores_what_was_set() {
    let threshold = WiFiScanThresholdBuilder::new()
        .min_signal_strength(-70)
        .min_auth_mode(WiFiAuthMode::Wpa2Psk)
        .build()
        .unwrap();
    assert_eq!(threshold.rssi(), -70);
    assert_eq!(threshold.auth_mode(), WiFiAuthMode::Wpa2Psk);
    let threshold = WiFiScanThresholdBuilder::new().min_signal_strength(-128).build().unwrap();
    assert_eq!(threshold.rssi(), -128);
    let threshold = WiFiScanThresholdBuilder::new().min_signal_strength(-1).build().unwrap();
    assert_eq!(threshold.rssi(), -1);
    assert_eq!(threshold.auth_mode(), WiFiAuthMode::OpenNetwork);
}

#[test]
fn scan_threshold_refuses_a_signal_strength_that_is_not_negative() {
    for rssi in [0i8, 5, 127] {
        let result = WiFiScanThresholdBuilder::new().min_signal_strength(rssi).build();
        assert_eq!(result, Err(WiFiScanThresholdBuildError::InvalidRssi), "rssi {}", rssi);
    }
}

#[test]
fn scan_threshold_builder_stays_poisoned_after_valid_calls() {
    let result = WiFiScanThresholdBuilder::new()
        .min_signal_strength(-50)
        .min_signal_strength(10)
        .min_signal_strength(-60)
        .min_auth_mode(WiFiAuthMode::WpaPsk)
        .build();
    assert_eq!(result, Err(WiFiScanThresholdBuildError::InvalidRssi));
}

#[test]
fn sta_builds_with_an_ssid() {
    let config = WiFiStaConfigurationBuilder::new().ssid("home").build().unwrap();
    let settings = config.settings();
    assert_eq!(settings.ssid, field::<32>("home"));
    assert_eq!(settings.password, [0u8; 64]);
    assert_eq!(settings.scan_method, WiFiScanMethod::Fast);
    assert!(!settings.bssid_set);
    assert_eq!(settings.bssid, [0u8; 6]);
    assert_eq!(settings.channel, 0);
    assert_eq!(settings.listen_interval, 0);
    assert_eq!(settings.sort_method, WiFiSortMethod::BySignal);
    assert_eq!(settings.threshold.rssi(), 0);
    assert_eq!(settings.threshold.auth_mode(), WiFiAuthMode::OpenNetwork);
}

#[test]
fn sta_builds_with_a_bssid_alone() {
    let config =
        WiFiStaConfigurationBuilder::new().bssid([1, 2, 3, 4, 5, 6]).build().unwrap();
    assert!(config.settings().bssid_set);
    assert_eq!(config.settings().bssid, [1, 2, 3, 4, 5, 6]);
    assert_eq!(config.settings().ssid, [0u8; 32]);
}

#[test]
fn sta_without_ssid_and_bssid_is_refused() {
    let result = WiFiStaConfigurationBuilder::new().password("secret").build();
    assert_eq!(result.unwrap_err(), WiFiStaConfigurationBuildError::SsidNotSet);
}

#[test]
fn sta_stores_every_setting() {
    let threshold = WiFiScanThresholdBuilder::new()
        .min_signal_strength(-80)
        .min_auth_mode(WiFiAuthMode::WpaPsk)
        .build()
        .unwrap();
    let config = WiFiStaConfigurationBuilder::new()
        .ssid("office")
        .password("open sesame")
        .scan_method(WiFiScanMethod::AllChannel)
        .bssid([0xaa, 0xbb, 0xcc, 0xdd, 0xee, 0xff])
        .channel(14)
        .listen_interval(3)
        .sort_method(WiFiSortMethod::BySecurity)
        .scan_threshold(threshold)
        .build()
        .unwrap();
    let settings = config.settings();
    assert_eq!(settings.ssid, field::<32>("office"));
    assert_eq!(settings.password, field::<64>("open sesame"));
    assert_eq!(settings.scan_method, WiFiScanMethod::AllChannel);
    assert!(settings.bssid_set);
    assert_eq!(settings.bssid, [0xaa, 0xbb, 0xcc, 0xdd, 0xee, 0xff]);
    assert_eq!(settings.channel, 14);
    assert_eq!(settings.listen_interval, 3);
    assert_eq!(settings.sort_method, WiFiSortMethod::BySecurity);
    assert_eq!(settings.threshold, threshold);
}

#[test]
fn sta_ssid_and_password_lengths() {
    let result = WiFiStaConfigurationBuilder::new().ssid(&"s".repeat(33)).build();
    assert_eq!(result.unwrap_err(), WiFiStaConfigurationBuildError::TooLongSsid);
    let config = WiFiStaConfigurationBuilder::new().ssid(&"s".repeat(32)).build().unwrap();
    assert_eq!(config.settings().ssid, [b's'; 32]);
    let result =
        WiFiStaConfigurationBuilder::new().ssid("net").password(&"p".repeat(65)).build();
    assert_eq!(result.unwrap_err(), WiFiStaConfigurationBuildError::TooLongPassword);
    let config =
        WiFiStaConfigurationBuilder::new().ssid("net").password(&"p".repeat(64)).build().unwrap();
    assert_eq!(config.settings().password, [b'p'; 64]);
}

#[test]
fn sta_channel_is_1_to_14_when_pinned() {
    for channel in [0u8, 15, 200] {
        let result = WiFiStaConfigurationBuilder::new().ssid("net").channel(channel).build();
        assert_eq!(result.unwrap_err(), WiFiStaConfigurationBuildError::InvalidWiFiChannel);
    }
    for channel in [1u8, 14] {
        let config =
            WiFiStaConfigurationBuilder::new().ssid("net").channel(channel).build().unwrap();
        assert_eq!(config.settings().channel, channel);
    }
}

#[test]
fn sta_listen_interval_is_positive() {
    let result = WiFiStaConfigurationBuilder::new().ssid("net").listen_interval(0).build();
    assert_eq!(result.unwrap_err(), WiFiStaConfigurationBuildError::InvalidListenInterval);
    let config =
        WiFiStaConfigurationBuilder::new().ssid("net").listen_interval(1).build().unwrap();
    assert_eq!(config.settings().listen_interval, 1);
    let config =
        WiFiStaConfigurationBuilder::new().ssid("net").listen_interval(u16::MAX).build().unwrap();
    assert_eq!(config.settings().listen_interval, 65535);
}

#[test]
fn sta_needs_a_password_if_the_threshold_rules_out_open_networks() {
    let strict =
        WiFiScanThresholdBuilder::new().min_auth_mode(WiFiAuthMode::Wpa2Psk).build().unwrap();
    let result = WiFiStaConfigurationBuilder::new().ssid("net").scan_threshold(strict).build();
    assert_eq!(result.unwrap_err(), WiFiStaConfigurationBuildError::PasswordNotSet);
    let result = WiFiStaConfigurationBuilder::new()
        .ssid("net")
        .scan_threshold(strict)
        .password("secret")
        .build();
    assert!(result.is_ok());
    let lax = WiFiScanThresholdBuilder::new().min_signal_strength(-60).build().unwrap();
    let config =
        WiFiStaConfigurationBuilder::new().ssid("net").scan_threshold(lax).build().unwrap();
    assert_eq!(config.settings().threshold.rssi(), -60);
}

#[test]
fn sta_builder_reports_its_first_error() {
    let result = WiFiStaConfigurationBuilder::new()
        .listen_interval(0)
        .channel(99)
        .ssid(&"s".repeat(50))
        .build();
    assert_eq!(result.unwrap_err(), WiFiStaConfigurationBuildError::InvalidListenInterval);
    let result = WiFiStaConfigurationBuilder::new()
        .channel(99)
        .ssid("net")
        .channel(3)
        .listen_interval(5)
        .build();
    assert_eq!(result.unwrap_err(), WiFiStaConfigurationBuildError::InvalidWiFiChannel);
}

#[test]
fn hardware_turns_into_the_adapter_if_the_driver_succeeds() {
    let wifi = adapter();
    assert!(!wifi.is_started());
    assert!(wifi.ap_config().is_none());
    assert!(wifi.sta_config().is_none());
    assert_eq!(wifi.mode(), WiFiMode::Null);
}

#[test]
fn hardware_is_handed_back_if_the_driver_refuses() {
    let (error, hardware) = hardware().initialize(status(StatusKind::NoMemory, 257)).unwrap_err();
    assert_eq!(error, WiFiInitializationError::IdfError(257));
    let (error, hardware) = hardware.initialize(status(StatusKind::Other, -1)).unwrap_err();
    assert_eq!(error, WiFiInitializationError::IdfError(-1));
    let (_token, command) = hardware.deinitialize();
    assert_eq!(command, None);
}

#[test]
fn hardware_handed_back_can_be_initialized_again() {
    let (_error, hardware) = hardware().initialize(status(StatusKind::Other, 1)).unwrap_err();
    assert!(hardware.initialize(accepted()).is_ok());
}

#[test]
fn deinitialize_releases_the_driver_if_it_was_initialized() {
    let (hardware, command) = adapter().downgrade();
    assert_eq!(command, None);
    let (_token, command) = hardware.deinitialize();
    assert_eq!(command, Some(WiFiCommand::Deinit));
}

#[test]
fn mode_follows_from_the_configurations() {
    let mut wifi = adapter();
    assert_eq!(wifi.mode(), WiFiMode::Null);
    wifi.set_ap_config(ap_config());
    assert_eq!(wifi.mode(), WiFiMode::Ap);
    wifi.set_sta_config(sta_config());
    assert_eq!(wifi.mode(), WiFiMode::Combined);
    let mut wifi = adapter();
    wifi.set_sta_config(sta_config());
    assert_eq!(wifi.mode(), WiFiMode::Sta);
}

#[test]
fn configurations_can_be_read_back() {
    let mut wifi = adapter();
    wifi.set_ap_config(ap_config()).set_sta_config(sta_config());
    assert_eq!(wifi.ap_config().unwrap().settings().ssid_len, 13);
    assert_eq!(wifi.sta_config().unwrap().settings().ssid, field::<32>("home"));
    let other = WiFiApConfigurationBuilder::new()
        .ssid("other")
        .auth_mode(WiFiAuthMode::OpenNetwork)
        .build()
        .unwrap();
    wifi.set_ap_config(other);
    assert_eq!(wifi.ap_config().unwrap().settings().ssid_len, 5);
}

#[test]
fn start_without_configuration_is_refused() {
    let wifi = adapter();
    assert_eq!(wifi.start(), Err(WiFiConfigurationError::ConfigurationNotSet));
    assert!(!wifi.is_started());
}

#[test]
fn start_of_an_access_point() {
    let mut wifi = adapter();
    wifi.set_ap_config(ap_config());
    let step = wifi.start().unwrap();
    assert_eq!(step, StartStep::SetMode(WiFiMode::Ap));
    let progress = wifi.advance_start(step, accepted());
    assert_eq!(progress, StartProgress::Next(StartStep::SetConfig(WiFiInterface::Ap)));
    let progress = wifi.advance_start(StartStep::SetConfig(WiFiInterface::Ap), accepted());
    assert_eq!(progress, StartProgress::Next(StartStep::Start));
    assert!(!wifi.is_started());
    let progress = wifi.advance_start(StartStep::Start, accepted());
    assert_eq!(progress, StartProgress::Started);
    assert!(wifi.is_started());
}

#[test]
fn start_of_a_station() {
    let mut wifi = adapter();
    wifi.set_sta_config(sta_config());
    let step = wifi.start().unwrap();
    assert_eq!(step, StartStep::SetMode(WiFiMode::Sta));
    let progress = wifi.advance_start(step, accepted());
    assert_eq!(progress, StartProgress::Next(StartStep::SetConfig(WiFiInterface::Sta)));
    let progress = wifi.advance_start(StartStep::SetConfig(WiFiInterface::Sta), accepted());
    assert_eq!(progress, StartProgress::Next(StartStep::Start));
    let progress = wifi.advance_start(StartStep::Start, accepted());
    assert_eq!(progress, StartProgress::Started);
    assert!(wifi.is_started());
}

#[test]
fn start_of_both_interfaces_configures_the_station_first() {
    let mut wifi = adapter();
    wifi.set_ap_config(ap_config()).set_sta_config(sta_config());
    let mut step = wifi.start().unwrap();
    let mut calls = vec![step];
    loop {
        match wifi.advance_start(step, accepted()) {
            StartProgress::Next(next) => {
                calls.push(next);
                step = next;
            }
            StartProgress::Started => break,
            StartProgress::Failed(error) => panic!("start failed: {:?}", error),
        }
    }
    assert_eq!(
        calls,
        vec![
            StartStep::SetMode(WiFiMode::Combined),
            StartStep::SetConfig(WiFiInterface::Sta),
            StartStep::SetConfig(WiFiInterface::Ap),
            StartStep::Start,
        ]
    );
    assert!(wifi.is_started());
}

#[test]
fn refused_mode_passes_the_status_through() {
    let mut wifi = adapter();
    wifi.set_ap_config(ap_config());
    let step = wifi.start().unwrap();
    for kind in [
        StatusKind::NoMemory,
        StatusKind::InvalidArgument,
        StatusKind::WiFiPassword,
        StatusKind::WiFiNvs,
        StatusKind::WiFiConnection,
        StatusKind::Other,
    ] {
        assert_eq!(
            wifi.advance_start(step, status(kind, 12293)),
            StartProgress::Failed(WiFiConfigurationError::IdfError(12293))
        );
    }
    assert!(!wifi.is_started());
}

#[test]
fn refused_configuration_maps_to_its_error() {
    let mut wifi = adapter();
    wifi.set_ap_config(ap_config()).set_sta_config(sta_config());
    for interface in [WiFiInterface::Sta, WiFiInterface::Ap] {
        let step = StartStep::SetConfig(interface);
        assert_eq!(
            wifi.advance_start(step, status(StatusKind::WiFiPassword, 1)),
            StartProgress::Failed(WiFiConfigurationError::InvalidWifiPassword)
        );
        assert_eq!(
            wifi.advance_start(step, status(StatusKind::WiFiNvs, 2)),
            StartProgress::Failed(WiFiConfigurationError::InternalNvsError)
        );
        assert_eq!(
            wifi.advance_start(step, status(StatusKind::NoMemory, 257)),
            StartProgress::Failed(WiFiConfigurationError::IdfError(257))
        );
        assert_eq!(
            wifi.advance_start(step, status(StatusKind::Other, -7)),
            StartProgress::Failed(WiFiConfigurationError::IdfError(-7))
        );
    }
    assert!(!wifi.is_started());
}

#[test]
fn refused_start_maps_to_its_error() {
    let mut wifi = adapter();
    wifi.set_sta_config(sta_config());
    assert_eq!(
        wifi.advance_start(StartStep::Start, status(StatusKind::NoMemory, 257)),
        StartProgress::Failed(WiFiConfigurationError::NoMemory)
    );
    assert_eq!(
        wifi.advance_start(StartStep::Start, status(StatusKind::InvalidArgument, 258)),
        StartProgress::Failed(WiFiConfigurationError::InvalidArgument)
    );
    assert_eq!(
        wifi.advance_start(StartStep::Start, status(StatusKind::WiFiConnection, 3)),
        StartProgress::Failed(WiFiConfigurationError::ConnectionEstablishmentFailed)
    );
    assert_eq!(
        wifi.advance_start(StartStep::Start, status(StatusKind::WiFiPassword, 4)),
        StartProgress::Failed(WiFiConfigurationError::IdfError(4))
    );
    assert_eq!(
        wifi.advance_start(StartStep::Start, status(StatusKind::Other, 5)),
        StartProgress::Failed(WiFiConfigurationError::IdfError(5))
    );
    assert!(!wifi.is_started());
    assert!(wifi.sta_config().is_some());
}

#[test]
fn a_failed_start_can_be_tried_again() {
    let mut wifi = adapter();
    wifi.set_ap_config(ap_config());
    let step = wifi.start().unwrap();
    assert!(matches!(
        wifi.advance_start(step, status(StatusKind::Other, 9)),
        StartProgress::Failed(_)
    ));
    let mut step = wifi.start().unwrap();
    loop {
        match wifi.advance_start(step, accepted()) {
            StartProgress::Next(next) => step = next,
            StartProgress::Started => break,
            StartProgress::Failed(error) => panic!("start failed: {:?}", error),
        }
    }
    assert!(wifi.is_started());
}

fn started() -> WiFi {
    let mut wifi = adapter();
    wifi.set_ap_config(ap_config());
    let mut step = wifi.start().unwrap();
    loop {
        match wifi.advance_start(step, accepted()) {
            StartProgress::Next(next) => step = next,
            StartProgress::Started => return wifi,
            StartProgress::Failed(error) => panic!("start failed: {:?}", error),
        }
    }
}

#[test]
fn stop_yields_the_driver_call_once() {
    let mut wifi = started();
    assert_eq!(wifi.stop(), Some(WiFiCommand::Stop));
    assert!(!wifi.is_started());
    assert_eq!(wifi.stop(), None);
    assert!(wifi.ap_config().is_some());
}

#[test]
fn stop_of_an_adapter_that_does_not_run_yields_nothing() {
    let mut wifi = adapter();
    assert_eq!(wifi.stop(), None);
}

#[test]
fn lifecycle_leads_back_to_the_token() {
    let wifi = started();
    let (hardware, command) = wifi.downgrade();
    assert_eq!(command, Some(WiFiCommand::Stop));
    let (token, command) = hardware.deinitialize();
    assert_eq!(command, Some(WiFiCommand::Deinit));
    let again = WiFiHardware::new(token).initialize(accepted()).unwrap();
    assert!(!again.is_started());
    assert!(again.ap_config().is_none());
}

#[test]
fn connect_passes_a_refusal_through() {
    let mut wifi = started();
    assert!(wifi.connect(accepted()).is_ok());
    assert_eq!(
        wifi.connect(status(StatusKind::WiFiConnection, 12295)).unwrap_err(),
        WiFiConfigurationError::IdfError(12295)
    );
    assert_eq!(
        wifi.connect(status(StatusKind::NoMemory, 257)).unwrap_err(),
        WiFiConfigurationError::IdfError(257)
    );
    assert!(wifi.is_started());
}

#[test]
fn switch_to_bgn_passes_a_refusal_through() {
    let mut wifi = started();
    assert!(wifi.switch_sta_to_bgn_mode(accepted()).is_ok());
    assert_eq!(
        wifi.switch_sta_to_bgn_mode(status(StatusKind::InvalidArgument, 258)).unwrap_err(),
        WiFiConfigurationError::IdfError(258)
    );
    assert!(wifi.connect(accepted()).unwrap().is_started());
}

#[test]
fn no_step_starts_an_adapter_without_configuration() {
    let mut wifi = adapter();
    for step in [
        StartStep::SetMode(WiFiMode::Null),
        StartStep::SetMode(WiFiMode::Ap),
        StartStep::SetConfig(WiFiInterface::Sta),
        StartStep::SetConfig(WiFiInterface::Ap),
        StartStep::Start,
    ] {
        assert_eq!(
            wifi.advance_start(step, accepted()),
            StartProgress::Failed(WiFiConfigurationError::ConfigurationNotSet)
        );
        assert_eq!(
            wifi.advance_start(step, status(StatusKind::NoMemory, 257)),
            StartProgress::Failed(WiFiConfigurationError::ConfigurationNotSet)
        );
    }
    assert!(!wifi.is_started());
}

#[test]
fn a_step_that_is_not_of_the_sequence_is_refused() {
    let mut wifi = adapter();
    wifi.set_ap_config(ap_config());
    let refused = StartProgress::Failed(WiFiConfigurationError::ConfigurationNotSet);
    assert_eq!(wifi.advance_start(StartStep::SetConfig(WiFiInterface::Sta), accepted()), refused);
    assert_eq!(wifi.advance_start(StartStep::SetMode(WiFiMode::Sta), accepted()), refused);
    assert_eq!(wifi.advance_start(StartStep::SetMode(WiFiMode::Combined), accepted()), refused);
    assert_eq!(wifi.advance_start(StartStep::SetMode(WiFiMode::Null), accepted()), refused);
    assert!(!wifi.is_started());
    assert_eq!(
        wifi.advance_start(StartStep::SetMode(WiFiMode::Ap), accepted()),
        StartProgress::Next(StartStep::SetConfig(WiFiInterface::Ap))
    );
    let mut wifi = adapter();
    wifi.set_sta_config(sta_config());
    assert_eq!(wifi.advance_start(StartStep::SetConfig(WiFiInterface::Ap), accepted()), refused);
    assert_eq!(wifi.advance_start(StartStep::SetMode(WiFiMode::Ap), accepted()), refused);
    assert_eq!(
        wifi.advance_start(StartStep::SetConfig(WiFiInterface::Sta), accepted()),
        StartProgress::Next(StartStep::Start)
    );
}
