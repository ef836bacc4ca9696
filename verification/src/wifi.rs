//! The WiFi adapter: its configurations and its lifecycle.
//!
//! A configuration is collected by a builder. A builder never fails in the
//! middle of a chain of calls: the first setting that is out of its domain
//! is remembered, and `build` reports it. [`WiFiHardware`] is the adapter
//! before initialization, [`WiFi`] the adapter after it. Starting the
//! adapter takes several driver calls; [`WiFi::start`] and
//! [`WiFi::advance_start`] say which call comes next and what each answer of
//! the driver leads to.
use vstd::prelude::*;
use vstd::string::StringSliceAdditionalSpecFns;
use crate::peripherals::WiFiPeripherals;
use crate::status::{DriverStatus, RawStatus, StatusKind};

verus! {

/// WiFi authentication mode
#[derive(Copy, Clone, PartialEq, Eq, Structural, Debug)]
pub enum WiFiAuthMode {
    /// Open network without protection
    OpenNetwork,
    /// WEP authentication
    Wep,
    /// WPA PSK authentication
    WpaPsk,
    /// WPA2 PSK authentication
    Wpa2Psk,
    /// WPA PSK or WPA2 PSK authentication
    WpaWpa2Psk,
    /// WPA2 Enterprise authentication
    Wpa2Enterprise,
}

/// WiFi initialization error
#[derive(Copy, Clone, PartialEq, Eq, Structural, Debug)]
pub enum WiFiInitializationError {
    /// The driver refused, with this status code
    IdfError(RawStatus),
}

/// WiFi configuration error, produced when the adapter is started or used
#[derive(Copy, Clone, PartialEq, Eq, Structural, Debug)]
pub enum WiFiConfigurationError {
    /// Provided WiFi password is invalid
    InvalidWifiPassword,
    /// The driver failed in its flash-backed store
    InternalNvsError,
    /// Invalid argument in configuration
    InvalidArgument,
    /// No memory left for the structures of the driver
    NoMemory,
    /// Connection establishment failed
    ConnectionEstablishmentFailed,
    /// Neither an access point nor a station configuration is set
    ConfigurationNotSet,
    /// Any other refusal of the driver, with its status code
    IdfError(RawStatus),
}

/// Why an access point configuration is refused
#[derive(Copy, Clone, PartialEq, Eq, Structural, Debug)]
pub enum WiFiApConfigurationBuildError {
    /// SSID is not set, although the network is not hidden
    SsidNotSet,
    /// Password is not set, although the network is not open
    PasswordNotSet,
    /// Auth mode was not selected
    AuthModeNotSet,
    /// Too long SSID: at most 32 **bytes** (not characters) are allowed
    TooLongSsid,
    /// Too long password: the field holds 64 **bytes** (not characters),
    /// and a network that is not open needs one of them for the terminator
    TooLongPassword,
    /// Selected channel is invalid (allowed channels are `1..=14`)
    InvalidWiFiChannel,
    /// Invalid beacon interval: allowed are 100..=60000 ms
    InvalidBeaconInterval,
    /// Invalid max connections: allowed are 1..=4
    InvalidMaxConnections,
    /// Not supported auth mode (WEP is not available for an access point)
    AuthModeNotSupported,
}

/// Why a station configuration is refused
#[derive(Copy, Clone, PartialEq, Eq, Structural, Debug)]
pub enum WiFiStaConfigurationBuildError {
    /// Neither an SSID nor a BSSID was provided
    SsidNotSet,
    /// Password not set, but the threshold asks for a network that is not
    /// open
    PasswordNotSet,
    /// Too long SSID: at most 32 **bytes** (not characters) are allowed
    TooLongSsid,
    /// Too long password: at most 64 **bytes** (not characters) are allowed
    TooLongPassword,
    /// Selected channel is invalid (allowed channels are `1..=14`)
    InvalidWiFiChannel,
    /// Listen interval should be > 0
    InvalidListenInterval,
}

/// WiFi scan threshold build error
#[derive(Copy, Clone, PartialEq, Eq, Structural, Debug)]
pub enum WiFiScanThresholdBuildError {
    /// Invalid value of Rssi
    InvalidRssi,
}

/// WiFi module operation mode
#[derive(Copy, Clone, PartialEq, Eq, Structural, Debug)]
pub enum WiFiMode {
    /// Disable both AP & STA
    Null,
    /// Ap-only mode
    Ap,
    /// Sta-only mode
    Sta,
    /// Combined mode (AP + STA)
    Combined,
}

/// WiFi access points scan mode
#[derive(Copy, Clone, PartialEq, Eq, Structural, Debug)]
pub enum WiFiScanMethod {
    /// Fast scan mode
    Fast,
    /// All-channel scan mode
    AllChannel,
}

/// WiFi access points sorting during scan process
#[derive(Copy, Clone, PartialEq, Eq, Structural, Debug)]
pub enum WiFiSortMethod {
    /// Scan by higher signal
    BySignal,
    /// Scan by more secure auth mode
    BySecurity,
}

/// `bytes` in a field of `width` bytes: the bytes, then zeros.
pub open spec fn padded(bytes: Seq<u8>, width: nat) -> Seq<u8> {
    Seq::new(
        width,
        |i: int|
            if i < bytes.len() {
                bytes[i]
            } else {
                0u8
            },
    )
}

/// Copies `bytes` to the start of a field of 32 zero bytes.
fn ssid_field(bytes: &[u8]) -> (field: [u8; 32])
    requires
        bytes@.len() <= 32,
    ensures
        field@ == padded(bytes@, 32),
{
    let mut field: [u8; 32] = [0u8;32];
    let mut i: usize = 0;
    while i < bytes.len()
        invariant
            i <= bytes@.len() <= 32,
            forall|j: int| 0 <= j < i ==> field@[j] == bytes@[j],
            forall|j: int| i <= j < 32 ==> field@[j] == 0u8,
        decreases bytes@.len() - i,
    {
        field[i] = bytes[i];
        i += 1;
    }
    assert(field@ =~= padded(bytes@, 32));
    field
}

/// Copies `bytes` to the start of a field of 64 zero bytes.
fn password_field(bytes: &[u8]) -> (field: [u8; 64])
    requires
        bytes@.len() <= 64,
    ensures
        field@ == padded(bytes@, 64),
{
    let mut field: [u8; 64] = [0u8;64];
    let mut i: usize = 0;
    while i < bytes.len()
        invariant
            i <= bytes@.len() <= 64,
            forall|j: int| 0 <= j < i ==> field@[j] == bytes@[j],
            forall|j: int| i <= j < 64 ==> field@[j] == 0u8,
        decreases bytes@.len() - i,
    {
        field[i] = bytes[i];
        i += 1;
    }
    assert(field@ =~= padded(bytes@, 64));
    field
}

/// Threshold for access point scanning: the station ignores access points
/// that are weaker in signal or in authentication.
#[derive(Copy, Clone, PartialEq, Eq, Structural, Debug)]
pub struct WiFiScanThreshold {
    rssi: i8,
    auth_mode: WiFiAuthMode,
}

impl WiFiScanThreshold {
    /// Minimal signal strength, 0 if the strength does not matter.
    pub closed spec fn min_rssi(&self) -> i8 {
        self.rssi
    }

    /// Weakest authentication mode that is accepted.
    pub closed spec fn min_auth(&self) -> WiFiAuthMode {
        self.auth_mode
    }

    /// Minimal signal strength, 0 if the strength does not matter.
    pub fn rssi(&self) -> (rssi: i8)
        ensures
            rssi == self.min_rssi(),
    {
        self.rssi
    }

    /// Weakest authentication mode that is accepted.
    pub fn auth_mode(&self) -> (mode: WiFiAuthMode)
        ensures
            mode == self.min_auth(),
    {
        self.auth_mode
    }
}

/// The model of a scan threshold under construction.
pub struct WiFiScanThresholdDraft {
    pub rssi: Option<i8>,
    pub auth_mode: Option<WiFiAuthMode>,
    pub pending_error: Option<WiFiScanThresholdBuildError>,
}

/// Provides interface for WiFi scan threshold building
#[derive(Debug)]
pub struct WiFiScanThresholdBuilder {
    rssi: Option<i8>,
    auth_mode: Option<WiFiAuthMode>,
    pending_error: Option<WiFiScanThresholdBuildError>,
}

impl View for WiFiScanThresholdBuilder {
    type V = WiFiScanThresholdDraft;

    closed spec fn view(&self) -> WiFiScanThresholdDraft {
        WiFiScanThresholdDraft {
            rssi: self.rssi,
            auth_mode: self.auth_mode,
            pending_error: self.pending_error,
        }
    }
}

impl WiFiScanThresholdBuilder {
    pub fn new() -> (builder: Self)
        ensures
            builder@ == (WiFiScanThresholdDraft {
                rssi: None,
                auth_mode: None,
                pending_error: None,
            }),
    {
        Self { rssi: None, auth_mode: None, pending_error: None }
    }

    /// Sets the minimal received signal strength, a negative value in dB. A
    /// value that is not negative is not stored and is remembered as the
    /// error of the builder, which `build` reports. Leave the strength
    /// unset if it should not matter.
    pub fn min_signal_strength(self, rssi: i8) -> (builder: Self)
        ensures
            builder@ == if rssi < 0 {
                WiFiScanThresholdDraft { rssi: Some(rssi), ..self@ }
            } else if self@.pending_error is Some {
                self@
            } else {
                WiFiScanThresholdDraft {
                    pending_error: Some(WiFiScanThresholdBuildError::InvalidRssi),
                    ..self@
                }
            },
    {
        let mut builder = self;
        if rssi >= 0 {
            if builder.pending_error.is_none() {
                builder.pending_error = Some(WiFiScanThresholdBuildError::InvalidRssi);
            }
        } else {
            builder.rssi = Some(rssi);
        }
        builder
    }

    /// Sets the weakest authentication mode that is accepted (an open
    /// network is weaker than WPA2, for one)
    pub fn min_auth_mode(self, mode: WiFiAuthMode) -> (builder: Self)
        ensures
            builder@ == (WiFiScanThresholdDraft { auth_mode: Some(mode), ..self@ }),
    {
        let mut builder = self;
        builder.auth_mode = Some(mode);
        builder
    }

    /// Builds the threshold, or returns the error that a setting met.
    ///
    /// The threshold holds what was set, with strength 0 and an open
    /// network standing for what was not.
    pub fn build(self) -> (result: Result<WiFiScanThreshold, WiFiScanThresholdBuildError>)
        ensures
            match result {
                Ok(threshold) => {
                    &&& self@.pending_error is None
                    &&& threshold.min_rssi() == (match self@.rssi {
                        Some(rssi) => rssi,
                        None => 0i8,
                    })
                    &&& threshold.min_auth() == (match self@.auth_mode {
                        Some(mode) => mode,
                        None => WiFiAuthMode::OpenNetwork,
                    })
                },
                Err(error) => self@.pending_error == Some(error),
            },
    {
        if let Some(error) = self.pending_error {
            return Err(error);
        }
        Ok(
            WiFiScanThreshold {
                rssi: match self.rssi {
                    Some(rssi) => rssi,
                    None => 0,
                },
                auth_mode: match self.auth_mode {
                    Some(mode) => mode,
                    None => WiFiAuthMode::OpenNetwork,
                },
            },
        )
    }
}

/// The settings of an access point as the driver takes them.
#[derive(Copy, Clone, Debug)]
pub struct WiFiApSettings {
    /// The SSID, followed by zeros
    pub ssid: [u8; 32],
    /// The password, followed by zeros
    pub password: [u8; 64],
    /// Length of the SSID
    pub ssid_len: u8,
    /// The channel, 0 if none was chosen
    pub channel: u8,
    pub auth_mode: WiFiAuthMode,
    pub ssid_hidden: bool,
    pub max_connections: u8,
    /// Beacon interval in milliseconds
    pub beacon_interval: u16,
}

/// Represents WiFi access point configuration.
///
/// Can be produced with [`WiFiApConfigurationBuilder`]
#[derive(Debug)]
pub struct WiFiApConfiguration {
    settings: WiFiApSettings,
}

impl View for WiFiApConfiguration {
    type V = WiFiApSettings;

    closed spec fn view(&self) -> WiFiApSettings {
        self.settings
    }
}

impl WiFiApConfiguration {
    /// The settings to hand to the driver.
    pub fn settings(&self) -> (settings: &WiFiApSettings)
        ensures
            *settings == self@,
    {
        &self.settings
    }
}

/// The model of an access point configuration under construction. SSID and
/// password are held as the fields that the driver takes: the bytes,
/// followed by zeros.
pub struct WiFiApDraft {
    pub ssid: Option<Seq<u8>>,
    pub ssid_len: nat,
    pub password: Option<Seq<u8>>,
    pub password_len: nat,
    pub channel: u8,
    pub auth_mode: Option<WiFiAuthMode>,
    pub hidden: bool,
    pub max_connections: u8,
    pub beacon_interval: u16,
    pub pending_error: Option<WiFiApConfigurationBuildError>,
}

impl WiFiApDraft {
    /// The draft that nothing was asked of: up to four connections and a
    /// beacon every 100 ms.
    pub open spec fn empty() -> WiFiApDraft {
        WiFiApDraft {
            ssid: None,
            ssid_len: 0,
            password: None,
            password_len: 0,
            channel: 0,
            auth_mode: None,
            hidden: false,
            max_connections: 4,
            beacon_interval: 100,
            pending_error: None,
        }
    }

    /// The draft after a setting was refused with `error`: nothing changes
    /// but that the error is remembered, unless one is remembered already.
    pub open spec fn refuse(self, error: WiFiApConfigurationBuildError) -> WiFiApDraft {
        if self.pending_error is Some {
            self
        } else {
            WiFiApDraft { pending_error: Some(error), ..self }
        }
    }

    pub open spec fn with_ssid(self, bytes: Seq<u8>) -> WiFiApDraft {
        if bytes.len() > 32 {
            self.refuse(WiFiApConfigurationBuildError::TooLongSsid)
        } else {
            WiFiApDraft { ssid: Some(padded(bytes, 32)), ssid_len: bytes.len(), ..self }
        }
    }

    pub open spec fn with_password(self, bytes: Seq<u8>) -> WiFiApDraft {
        if bytes.len() > 64 {
            self.refuse(WiFiApConfigurationBuildError::TooLongPassword)
        } else {
            WiFiApDraft { password: Some(padded(bytes, 64)), password_len: bytes.len(), ..self }
        }
    }

    pub open spec fn with_auth_mode(self, mode: WiFiAuthMode) -> WiFiApDraft {
        if mode == WiFiAuthMode::Wep {
            self.refuse(WiFiApConfigurationBuildError::AuthModeNotSupported)
        } else {
            WiFiApDraft { auth_mode: Some(mode), ..self }
        }
    }

    pub open spec fn with_channel(self, channel: u8) -> WiFiApDraft {
        if 1 <= channel <= 14 {
            WiFiApDraft { channel, ..self }
        } else {
            self.refuse(WiFiApConfigurationBuildError::InvalidWiFiChannel)
        }
    }

    pub open spec fn with_max_connections(self, count: u8) -> WiFiApDraft {
        if 1 <= count <= 4 {
            WiFiApDraft { max_connections: count, ..self }
        } else {
            self.refuse(WiFiApConfigurationBuildError::InvalidMaxConnections)
        }
    }

    pub open spec fn with_beacon_interval(self, interval: u16) -> WiFiApDraft {
        if 100 <= interval <= 60000 {
            WiFiApDraft { beacon_interval: interval, ..self }
        } else {
            self.refuse(WiFiApConfigurationBuildError::InvalidBeaconInterval)
        }
    }

    /// Why the draft cannot be built, if it cannot. The remembered error
    /// comes first. Then: a network that is not hidden needs an SSID; an
    /// auth mode must be chosen; a network that is not open needs a
    /// password, and one that leaves room for the terminator.
    pub open spec fn build_error(self) -> Option<WiFiApConfigurationBuildError> {
        if self.pending_error is Some {
            self.pending_error
        } else if self.ssid is None && !self.hidden {
            Some(WiFiApConfigurationBuildError::SsidNotSet)
        } else if self.auth_mode is None {
            Some(WiFiApConfigurationBuildError::AuthModeNotSet)
        } else if self.auth_mode != Some(WiFiAuthMode::OpenNetwork) && self.password is None {
            Some(WiFiApConfigurationBuildError::PasswordNotSet)
        } else if self.auth_mode != Some(WiFiAuthMode::OpenNetwork) && self.password_len > 63 {
            Some(WiFiApConfigurationBuildError::TooLongPassword)
        } else {
            None
        }
    }

    /// Whether `settings` are the settings of this draft: each field as it
    /// was set, and zeros for an SSID or a password that was not.
    pub open spec fn describes(self, settings: WiFiApSettings) -> bool {
        &&& settings.ssid@ == match self.ssid {
            Some(field) => field,
            None => padded(Seq::empty(), 32),
        }
        &&& settings.password@ == match self.password {
            Some(field) => field,
            None => padded(Seq::empty(), 64),
        }
        &&& settings.ssid_len == self.ssid_len
        &&& settings.channel == self.channel
        &&& Some(settings.auth_mode) == self.auth_mode
        &&& settings.ssid_hidden == self.hidden
        &&& settings.max_connections == self.max_connections
        &&& settings.beacon_interval == self.beacon_interval
    }
}

/// Provides interface for WiFi access point configuration building.
///
/// After all settings are made, [`WiFiApConfigurationBuilder::build`] yields
/// the [`WiFiApConfiguration`].
#[derive(Debug)]
pub struct WiFiApConfigurationBuilder {
    ssid: Option<[u8; 32]>,
    password: Option<[u8; 64]>,
    ssid_len: u8,
    password_len: u8,
    channel: u8,
    auth_mode: Option<WiFiAuthMode>,
    ssid_hidden: bool,
    max_connections: u8,
    beacon_interval: u16,
    pending_error: Option<WiFiApConfigurationBuildError>,
}

impl View for WiFiApConfigurationBuilder {
    type V = WiFiApDraft;

    closed spec fn view(&self) -> WiFiApDraft {
        WiFiApDraft {
            ssid: match self.ssid {
                Some(field) => Some(field@),
                None => None,
            },
            ssid_len: self.ssid_len as nat,
            password: match self.password {
                Some(field) => Some(field@),
                None => None,
            },
            password_len: self.password_len as nat,
            channel: self.channel,
            auth_mode: self.auth_mode,
            hidden: self.ssid_hidden,
            max_connections: self.max_connections,
            beacon_interval: self.beacon_interval,
            pending_error: self.pending_error,
        }
    }
}

impl WiFiApConfigurationBuilder {
    /// Creates new `WiFiApConfigurationBuilder` instance
    pub fn new() -> (builder: Self)
        ensures
            builder@ == WiFiApDraft::empty(),
    {
        Self {
            ssid: None,
            password: None,
            ssid_len: 0,
            password_len: 0,
            channel: 0,
            auth_mode: None,
            ssid_hidden: false,
            max_connections: 4,
            beacon_interval: 100,
            pending_error: None,
        }
    }

    /// Remembers `error`, unless an error is remembered already.
    fn refuse(self, error: WiFiApConfigurationBuildError) -> (builder: Self)
        ensures
            builder@ == self@.refuse(error),
    {
        let mut builder = self;
        if builder.pending_error.is_none() {
            builder.pending_error = Some(error);
        }
        builder
    }

    /// Sets SSID for the AP
    ///
    /// Sets builder error if SSID is too long (more than 32 **bytes**)
    pub fn ssid(self, value: &str) -> (builder: Self)
        ensures
            builder@ == self@.with_ssid(value.spec_bytes()),
    {
        let bytes = value.as_bytes();
        if bytes.len() > 32 {
            self.refuse(WiFiApConfigurationBuildError::TooLongSsid)
        } else {
            let mut builder = self;
            builder.ssid = Some(ssid_field(bytes));
            builder.ssid_len = bytes.len() as u8;
            builder
        }
    }

    /// Sets password for the AP authentication
    ///
    /// Sets builder error if password is too long (more than 64 **bytes**).
    /// Whether it leaves room for the terminator is decided by `build`,
    /// which knows if the network is open.
    pub fn password(self, value: &str) -> (builder: Self)
        ensures
            builder@ == self@.with_password(value.spec_bytes()),
    {
        let bytes = value.as_bytes();
        if bytes.len() > 64 {
            self.refuse(WiFiApConfigurationBuildError::TooLongPassword)
        } else {
            let mut builder = self;
            builder.password = Some(password_field(bytes));
            builder.password_len = bytes.len() as u8;
            builder
        }
    }

    /// Selects access point auth mode.
    ///
    /// Sets builder error when WEP mode selected - it is not supported for
    /// the AP mode
    pub fn auth_mode(self, value: WiFiAuthMode) -> (builder: Self)
        ensures
            builder@ == self@.with_auth_mode(value),
    {
        match value {
            WiFiAuthMode::Wep => self.refuse(WiFiApConfigurationBuildError::AuthModeNotSupported),
            _ => {
                let mut builder = self;
                builder.auth_mode = Some(value);
                builder
            },
        }
    }

    /// Selects access point channel.
    ///
    /// Sets builder error, if provided channel is invalid (it should be in
    /// range 1..=14)
    pub fn channel(self, value: u8) -> (builder: Self)
        ensures
            builder@ == self@.with_channel(value),
    {
        if value == 0 || value > 14 {
            self.refuse(WiFiApConfigurationBuildError::InvalidWiFiChannel)
        } else {
            let mut builder = self;
            builder.channel = value;
            builder
        }
    }

    /// Makes access point hidden
    pub fn hidden(self, value: bool) -> (builder: Self)
        ensures
            builder@ == (WiFiApDraft { hidden: value, ..self@ }),
    {
        let mut builder = self;
        builder.ssid_hidden = value;
        builder
    }

    /// Sets max connections count
    ///
    /// Value should be between 1..=4, otherwise builder will be poisoned
    /// with error
    pub fn max_connections(self, value: u8) -> (builder: Self)
        ensures
            builder@ == self@.with_max_connections(value),
    {
        if value == 0 || value > 4 {
            self.refuse(WiFiApConfigurationBuildError::InvalidMaxConnections)
        } else {
            let mut builder = self;
            builder.max_connections = value;
            builder
        }
    }

    /// Sets access point beacon interval (in ms)
    ///
    /// Sets builder error if value is not in range (100..=60000)
    pub fn beacon_interval(self, value: u16) -> (builder: Self)
        ensures
            builder@ == self@.with_beacon_interval(value),
    {
        if value < 100 || value > 60000 {
            self.refuse(WiFiApConfigurationBuildError::InvalidBeaconInterval)
        } else {
            let mut builder = self;
            builder.beacon_interval = value;
            builder
        }
    }

    /// Builds WiFi access point configuration
    ///
    /// Returns the first error that a setting met, or else the first rule
    /// across settings that is broken.
    pub fn build(self) -> (result: Result<WiFiApConfiguration, WiFiApConfigurationBuildError>)
        ensures
            match result {
                Ok(config) => self@.build_error() is None && self@.describes(config@),
                Err(error) => self@.build_error() == Some(error),
            },
    {
        if let Some(error) = self.pending_error {
            return Err(error);
        }
        if self.ssid.is_none() && !self.ssid_hidden {
            return Err(WiFiApConfigurationBuildError::SsidNotSet);
        }
        let auth_mode = match self.auth_mode {
            Some(mode) => mode,
            None => {
                return Err(WiFiApConfigurationBuildError::AuthModeNotSet);
            },
        };
        let open = auth_mode == WiFiAuthMode::OpenNetwork;
        if !open && self.password.is_none() {
            return Err(WiFiApConfigurationBuildError::PasswordNotSet);
        }
        if !open && self.password_len > 63 {
            return Err(WiFiApConfigurationBuildError::TooLongPassword);
        }
        let ssid = match self.ssid {
            Some(field) => field,
            None => [0u8;32],
        };
        let password = match self.password {
            Some(field) => field,
            None => [0u8;64],
        };
        proof {
            if self.ssid is None {
                assert(ssid@ =~= padded(Seq::empty(), 32));
            }
            if self.password is None {
                assert(password@ =~= padded(Seq::empty(), 64));
            }
        }
        Ok(
            WiFiApConfiguration {
                settings: WiFiApSettings {
                    ssid,
                    password,
                    ssid_len: self.ssid_len,
                    channel: self.channel,
                    auth_mode,
                    ssid_hidden: self.ssid_hidden,
                    max_connections: self.max_connections,
                    beacon_interval: self.beacon_interval,
                },
            },
        )
    }
}

/// The settings of a station as the driver takes them.
#[derive(Copy, Clone, Debug)]
pub struct WiFiStaSettings {
    /// The SSID, followed by zeros
    pub ssid: [u8; 32],
    /// The password, followed by zeros
    pub password: [u8; 64],
    pub scan_method: WiFiScanMethod,
    /// Whether `bssid` names the access point to connect to
    pub bssid_set: bool,
    pub bssid: [u8; 6],
    /// The channel, 0 if it is to be found
    pub channel: u8,
    pub listen_interval: u16,
    pub sort_method: WiFiSortMethod,
    pub threshold: WiFiScanThreshold,
}

/// Represents WiFi station configuration.
///
/// Can be produced with [`WiFiStaConfigurationBuilder`]
#[derive(Debug)]
pub struct WiFiStaConfiguration {
    settings: WiFiStaSettings,
}

impl View for WiFiStaConfiguration {
    type V = WiFiStaSettings;

    closed spec fn view(&self) -> WiFiStaSettings {
        self.settings
    }
}

impl WiFiStaConfiguration {
    /// The settings to hand to the driver.
    pub fn settings(&self) -> (settings: &WiFiStaSettings)
        ensures
            *settings == self@,
    {
        &self.settings
    }
}

/// The model of a station configuration under construction. SSID and
/// password are held as the fields that the driver takes: the bytes,
/// followed by zeros.
pub struct WiFiStaDraft {
    pub ssid: Option<Seq<u8>>,
    pub password: Option<Seq<u8>>,
    pub scan_method: WiFiScanMethod,
    pub bssid: Option<Seq<u8>>,
    pub channel: u8,
    pub listen_interval: u16,
    pub sort_method: WiFiSortMethod,
    pub scan_threshold: Option<WiFiScanThreshold>,
    pub pending_error: Option<WiFiStaConfigurationBuildError>,
}

impl WiFiStaDraft {
    /// The draft that nothing was asked of: a fast scan, access points
    /// sorted by signal.
    pub open spec fn empty() -> WiFiStaDraft {
        WiFiStaDraft {
            ssid: None,
            password: None,
            scan_method: WiFiScanMethod::Fast,
            bssid: None,
            channel: 0,
            listen_interval: 0,
            sort_method: WiFiSortMethod::BySignal,
            scan_threshold: None,
            pending_error: None,
        }
    }

    /// The draft after a setting was refused with `error`: nothing changes
    /// but that the error is remembered, unless one is remembered already.
    pub open spec fn refuse(self, error: WiFiStaConfigurationBuildError) -> WiFiStaDraft {
        if self.pending_error is Some {
            self
        } else {
            WiFiStaDraft { pending_error: Some(error), ..self }
        }
    }

    pub open spec fn with_ssid(self, bytes: Seq<u8>) -> WiFiStaDraft {
        if bytes.len() > 32 {
            self.refuse(WiFiStaConfigurationBuildError::TooLongSsid)
        } else {
            WiFiStaDraft { ssid: Some(padded(bytes, 32)), ..self }
        }
    }

    pub open spec fn with_password(self, bytes: Seq<u8>) -> WiFiStaDraft {
        if bytes.len() > 64 {
            self.refuse(WiFiStaConfigurationBuildError::TooLongPassword)
        } else {
            WiFiStaDraft { password: Some(padded(bytes, 64)), ..self }
        }
    }

    pub open spec fn with_channel(self, channel: u8) -> WiFiStaDraft {
        if 1 <= channel <= 14 {
            WiFiStaDraft { channel, ..self }
        } else {
            self.refuse(WiFiStaConfigurationBuildError::InvalidWiFiChannel)
        }
    }

    pub open spec fn with_listen_interval(self, interval: u16) -> WiFiStaDraft {
        if interval > 0 {
            WiFiStaDraft { listen_interval: interval, ..self }
        } else {
            self.refuse(WiFiStaConfigurationBuildError::InvalidListenInterval)
        }
    }

    /// The threshold that holds for the draft: the one that was set, or
    /// else any signal and an open network.
    pub open spec fn threshold_matches(self, threshold: WiFiScanThreshold) -> bool {
        match self.scan_threshold {
            Some(set) => threshold == set,
            None => threshold.min_rssi() == 0 && threshold.min_auth() == WiFiAuthMode::OpenNetwork,
        }
    }

    /// Why the draft cannot be built, if it cannot. The remembered error
    /// comes first. Then: the access point must be named, by SSID or by
    /// BSSID; and a threshold that rules out open networks needs a
    /// password.
    pub open spec fn build_error(self) -> Option<WiFiStaConfigurationBuildError> {
        if self.pending_error is Some {
            self.pending_error
        } else if self.ssid is None && self.bssid is None {
            Some(WiFiStaConfigurationBuildError::SsidNotSet)
        } else if self.scan_threshold is Some && self.scan_threshold->0.min_auth()
            != WiFiAuthMode::OpenNetwork && self.password is None {
            Some(WiFiStaConfigurationBuildError::PasswordNotSet)
        } else {
            None
        }
    }

    /// Whether `settings` are the settings of this draft: each field as it
    /// was set, and zeros for an SSID, a password or a BSSID that was not.
    pub open spec fn describes(self, settings: WiFiStaSettings) -> bool {
        &&& settings.ssid@ == match self.ssid {
            Some(field) => field,
            None => padded(Seq::empty(), 32),
        }
        &&& settings.password@ == match self.password {
            Some(field) => field,
            None => padded(Seq::empty(), 64),
        }
        &&& settings.scan_method == self.scan_method
        &&& settings.bssid_set == (self.bssid is Some)
        &&& settings.bssid@ == match self.bssid {
            Some(address) => address,
            None => padded(Seq::empty(), 6),
        }
        &&& settings.channel == self.channel
        &&& settings.listen_interval == self.listen_interval
        &&& settings.sort_method == self.sort_method
        &&& self.threshold_matches(settings.threshold)
    }
}

/// Provides interface for WiFi station mode configuration building.
///
/// After all settings are made, [`WiFiStaConfigurationBuilder::build`]
/// yields the [`WiFiStaConfiguration`].
#[derive(Debug)]
pub struct WiFiStaConfigurationBuilder {
    ssid: Option<[u8; 32]>,
    password: Option<[u8; 64]>,
    scan_method: WiFiScanMethod,
    bssid: Option<[u8; 6]>,
    channel: u8,
    listen_interval: u16,
    sort_method: WiFiSortMethod,
    scan_threshold: Option<WiFiScanThreshold>,
    pending_error: Option<WiFiStaConfigurationBuildError>,
}

impl View for WiFiStaConfigurationBuilder {
    type V = WiFiStaDraft;

    closed spec fn view(&self) -> WiFiStaDraft {
        WiFiStaDraft {
            ssid: match self.ssid {
                Some(field) => Some(field@),
                None => None,
            },
            password: match self.password {
                Some(field) => Some(field@),
                None => None,
            },
            scan_method: self.scan_method,
            bssid: match self.bssid {
                Some(address) => Some(address@),
                None => None,
            },
            channel: self.channel,
            listen_interval: self.listen_interval,
            sort_method: self.sort_method,
            scan_threshold: self.scan_threshold,
            pending_error: self.pending_error,
        }
    }
}

impl WiFiStaConfigurationBuilder {
    /// Creates new instance of WiFiStaConfigurationBuilder
    pub fn new() -> (builder: Self)
        ensures
            builder@ == WiFiStaDraft::empty(),
    {
        Self {
            ssid: None,
            password: None,
            scan_method: WiFiScanMethod::Fast,
            bssid: None,
            channel: 0,
            listen_interval: 0,
            sort_method: WiFiSortMethod::BySignal,
            scan_threshold: None,
            pending_error: None,
        }
    }

    /// Remembers `error`, unless an error is remembered already.
    fn refuse(self, error: WiFiStaConfigurationBuildError) -> (builder: Self)
        ensures
            builder@ == self@.refuse(error),
    {
        let mut builder = self;
        if builder.pending_error.is_none() {
            builder.pending_error = Some(error);
        }
        builder
    }

    /// Sets SSID for the STA
    ///
    /// Sets builder error if SSID is too long (more than 32 **bytes**)
    pub fn ssid(self, value: &str) -> (builder: Self)
        ensures
            builder@ == self@.with_ssid(value.spec_bytes()),
    {
        let bytes = value.as_bytes();
        if bytes.len() > 32 {
            self.refuse(WiFiStaConfigurationBuildError::TooLongSsid)
        } else {
            let mut builder = self;
            builder.ssid = Some(ssid_field(bytes));
            builder
        }
    }

    /// Sets password for the authentication at the access point
    ///
    /// Sets builder error if password is too long (more than 64 **bytes**)
    pub fn password(self, value: &str) -> (builder: Self)
        ensures
            builder@ == self@.with_password(value.spec_bytes()),
    {
        let bytes = value.as_bytes();
        if bytes.len() > 64 {
            self.refuse(WiFiStaConfigurationBuildError::TooLongPassword)
        } else {
            let mut builder = self;
            builder.password = Some(password_field(bytes));
            builder
        }
    }

    /// Changes access point scan mode for the station. Default is
    /// `WiFiScanMethod::Fast`
    pub fn scan_method(self, method: WiFiScanMethod) -> (builder: Self)
        ensures
            builder@ == (WiFiStaDraft { scan_method: method, ..self@ }),
    {
        let mut builder = self;
        builder.scan_method = method;
        builder
    }

    /// Sets the BSSID of the access point, which speeds up the connection
    /// and finds an access point with a hidden SSID
    pub fn bssid(self, value: [u8; 6]) -> (builder: Self)
        ensures
            builder@ == (WiFiStaDraft { bssid: Some(value@), ..self@ }),
    {
        let mut builder = self;
        builder.bssid = Some(value);
        builder
    }

    /// Selects target access point channel. Do not set the channel to have
    /// it found automatically
    ///
    /// Sets builder error, if provided channel is invalid (it should be in
    /// range 1..=14)
    pub fn channel(self, value: u8) -> (builder: Self)
        ensures
            builder@ == self@.with_channel(value),
    {
        if value == 0 || value > 14 {
            self.refuse(WiFiStaConfigurationBuildError::InvalidWiFiChannel)
        } else {
            let mut builder = self;
            builder.channel = value;
            builder
        }
    }

    /// Changes the listen interval, measured in beacon intervals of the
    /// access point: with a beacon every 100 ms and a listen interval of 3
    /// the station listens every 300 ms.
    ///
    /// Sets builder error if the interval is 0
    pub fn listen_interval(self, interval: u16) -> (builder: Self)
        ensures
            builder@ == self@.with_listen_interval(interval),
    {
        if interval == 0 {
            self.refuse(WiFiStaConfigurationBuildError::InvalidListenInterval)
        } else {
            let mut builder = self;
            builder.listen_interval = interval;
            builder
        }
    }

    /// Changes access points sort method for scanning. Default sort method
    /// is `WiFiSortMethod::BySignal`
    pub fn sort_method(self, method: WiFiSortMethod) -> (builder: Self)
        ensures
            builder@ == (WiFiStaDraft { sort_method: method, ..self@ }),
    {
        let mut builder = self;
        builder.sort_method = method;
        builder
    }

    /// Changes access points scan threshold settings
    pub fn scan_threshold(self, threshold: WiFiScanThreshold) -> (builder: Self)
        ensures
            builder@ == (WiFiStaDraft { scan_threshold: Some(threshold), ..self@ }),
    {
        let mut builder = self;
        builder.scan_threshold = Some(threshold);
        builder
    }

    /// Builds `WiFiStaConfiguration` or returns error: the first error
    /// that a setting met, or else the first rule across settings that is
    /// broken.
    pub fn build(self) -> (result: Result<WiFiStaConfiguration, WiFiStaConfigurationBuildError>)
        ensures
            match result {
                Ok(config) => self@.build_error() is None && self@.describes(config@),
                Err(error) => self@.build_error() == Some(error),
            },
    {
        if let Some(error) = self.pending_error {
            return Err(error);
        }
        if self.ssid.is_none() && self.bssid.is_none() {
            return Err(WiFiStaConfigurationBuildError::SsidNotSet);
        }
        if let Some(threshold) = self.scan_threshold {
            if threshold.auth_mode() != WiFiAuthMode::OpenNetwork && self.password.is_none() {
                return Err(WiFiStaConfigurationBuildError::PasswordNotSet);
            }
        }
        let ssid = match self.ssid {
            Some(field) => field,
            None => [0u8;32],
        };
        let password = match self.password {
            Some(field) => field,
            None => [0u8;64],
        };
        let bssid = match self.bssid {
            Some(address) => address,
            None => [0u8;6],
        };
        let threshold = match self.scan_threshold {
            Some(threshold) => threshold,
            None => WiFiScanThreshold { rssi: 0, auth_mode: WiFiAuthMode::OpenNetwork },
        };
        proof {
            if self.ssid is None {
                assert(ssid@ =~= padded(Seq::empty(), 32));
            }
            if self.password is None {
                assert(password@ =~= padded(Seq::empty(), 64));
            }
            if self.bssid is None {
                assert(bssid@ =~= padded(Seq::empty(), 6));
            }
        }
        Ok(
            WiFiStaConfiguration {
                settings: WiFiStaSettings {
                    ssid,
                    password,
                    scan_method: self.scan_method,
                    bssid_set: self.bssid.is_some(),
                    bssid,
                    channel: self.channel,
                    listen_interval: self.listen_interval,
                    sort_method: self.sort_method,
                    threshold,
                },
            },
        )
    }
}

/// Once a builder remembers an error, no later setting changes it, and
/// `build` reports it.
pub proof fn lemma_ap_first_error_wins(
    draft: WiFiApDraft,
    later: WiFiApConfigurationBuildError,
    bytes: Seq<u8>,
    mode: WiFiAuthMode,
    number: u8,
    interval: u16,
    flag: bool,
)
    requires
        draft.pending_error is Some,
    ensures
        draft.refuse(later).pending_error == draft.pending_error,
        draft.with_ssid(bytes).pending_error == draft.pending_error,
        draft.with_password(bytes).pending_error == draft.pending_error,
        draft.with_auth_mode(mode).pending_error == draft.pending_error,
        draft.with_channel(number).pending_error == draft.pending_error,
        draft.with_max_connections(number).pending_error == draft.pending_error,
        draft.with_beacon_interval(interval).pending_error == draft.pending_error,
        (WiFiApDraft { hidden: flag, ..draft }).pending_error == draft.pending_error,
        draft.build_error() == draft.pending_error,
{
}

/// A setting that is refused leaves every field of the draft as it was.
pub proof fn lemma_ap_refusal_keeps_fields(draft: WiFiApDraft, error: WiFiApConfigurationBuildError)
    ensures
        draft.refuse(error) == (WiFiApDraft {
            pending_error: draft.refuse(error).pending_error,
            ..draft
        }),
        draft.refuse(error).pending_error is Some,
{
}

/// Once a builder remembers an error, no later setting changes it, and
/// `build` reports it.
pub proof fn lemma_sta_first_error_wins(
    draft: WiFiStaDraft,
    later: WiFiStaConfigurationBuildError,
    bytes: Seq<u8>,
    number: u8,
    interval: u16,
)
    requires
        draft.pending_error is Some,
    ensures
        draft.refuse(later).pending_error == draft.pending_error,
        draft.with_ssid(bytes).pending_error == draft.pending_error,
        draft.with_password(bytes).pending_error == draft.pending_error,
        draft.with_channel(number).pending_error == draft.pending_error,
        draft.with_listen_interval(interval).pending_error == draft.pending_error,
        draft.build_error() == draft.pending_error,
{
}

/// A setting that is refused leaves every field of the draft as it was.
pub proof fn lemma_sta_refusal_keeps_fields(
    draft: WiFiStaDraft,
    error: WiFiStaConfigurationBuildError,
)
    ensures
        draft.refuse(error) == (WiFiStaDraft {
            pending_error: draft.refuse(error).pending_error,
            ..draft
        }),
        draft.refuse(error).pending_error is Some,
{
}

/// A driver call that shuts the adapter down.
#[derive(Copy, Clone, PartialEq, Eq, Structural, Debug)]
pub enum WiFiCommand {
    /// Stop the adapter.
    Stop,
    /// Release the driver. The driver never refuses this call.
    Deinit,
}

/// One of the two interfaces of the adapter.
#[derive(Copy, Clone, PartialEq, Eq, Structural, Debug)]
pub enum WiFiInterface {
    Sta,
    Ap,
}

/// A driver call of the sequence that starts the adapter.
#[derive(Copy, Clone, PartialEq, Eq, Structural, Debug)]
pub enum StartStep {
    /// Set the operation mode.
    SetMode(WiFiMode),
    /// Hand over the configuration of an interface.
    SetConfig(WiFiInterface),
    /// Start the adapter.
    Start,
}

/// Where the start sequence stands after an answer of the driver.
#[derive(Copy, Clone, PartialEq, Eq, Structural, Debug)]
pub enum StartProgress {
    /// The call was accepted; this one comes next.
    Next(StartStep),
    /// The last call was accepted: the adapter runs.
    Started,
    /// The call was refused. The adapter is as it was before the sequence.
    Failed(WiFiConfigurationError),
}

/// The operation mode that follows from the configurations that are set.
pub open spec fn derived_mode(sta: bool, ap: bool) -> WiFiMode {
    if sta && ap {
        WiFiMode::Combined
    } else if sta {
        WiFiMode::Sta
    } else if ap {
        WiFiMode::Ap
    } else {
        WiFiMode::Null
    }
}

/// The driver calls that start the adapter, in order: the mode, then the
/// configuration of each interface that has one, the station first, then
/// the start itself.
pub open spec fn start_plan(sta: bool, ap: bool) -> Seq<StartStep> {
    seq![StartStep::SetMode(derived_mode(sta, ap))] + (if sta {
        seq![StartStep::SetConfig(WiFiInterface::Sta)]
    } else {
        Seq::<StartStep>::empty()
    }) + (if ap {
        seq![StartStep::SetConfig(WiFiInterface::Ap)]
    } else {
        Seq::<StartStep>::empty()
    }) + seq![StartStep::Start]
}

/// The call that follows `step` once the driver accepted it; none follows
/// the start.
pub open spec fn step_after(step: StartStep, sta: bool, ap: bool) -> Option<StartStep> {
    match step {
        StartStep::SetMode(_) => Some(
            if sta {
                StartStep::SetConfig(WiFiInterface::Sta)
            } else if ap {
                StartStep::SetConfig(WiFiInterface::Ap)
            } else {
                StartStep::Start
            },
        ),
        StartStep::SetConfig(WiFiInterface::Sta) => Some(
            if ap {
                StartStep::SetConfig(WiFiInterface::Ap)
            } else {
                StartStep::Start
            },
        ),
        StartStep::SetConfig(WiFiInterface::Ap) => Some(StartStep::Start),
        StartStep::Start => None,
    }
}

/// The error that stands for a refusal by the driver where no closer one
/// is known: the status code, passed through.
pub open spec fn passthrough(status: DriverStatus) -> WiFiConfigurationError {
    WiFiConfigurationError::IdfError(status.code)
}

/// The error that a refused configuration leads to.
pub open spec fn config_error(status: DriverStatus) -> WiFiConfigurationError {
    match status.kind {
        StatusKind::WiFiPassword => WiFiConfigurationError::InvalidWifiPassword,
        StatusKind::WiFiNvs => WiFiConfigurationError::InternalNvsError,
        _ => passthrough(status),
    }
}

/// The error that a refused start leads to.
pub open spec fn launch_error(status: DriverStatus) -> WiFiConfigurationError {
    match status.kind {
        StatusKind::NoMemory => WiFiConfigurationError::NoMemory,
        StatusKind::InvalidArgument => WiFiConfigurationError::InvalidArgument,
        StatusKind::WiFiConnection => WiFiConfigurationError::ConnectionEstablishmentFailed,
        _ => passthrough(status),
    }
}

/// The error that a refusal of `step` leads to.
pub open spec fn start_error(step: StartStep, status: DriverStatus) -> WiFiConfigurationError {
    match step {
        StartStep::SetMode(_) => passthrough(status),
        StartStep::SetConfig(_) => config_error(status),
        StartStep::Start => launch_error(status),
    }
}

/// Whether `step` is a call of the start sequence of an adapter with the
/// given configurations: the mode that follows from them, the configuration
/// of an interface that has one, and the start if there is anything to
/// start. Without a configuration no call is.
pub open spec fn on_plan(step: StartStep, sta: bool, ap: bool) -> bool {
    match step {
        StartStep::SetMode(mode) => (sta || ap) && mode == derived_mode(sta, ap),
        StartStep::SetConfig(WiFiInterface::Sta) => sta,
        StartStep::SetConfig(WiFiInterface::Ap) => ap,
        StartStep::Start => sta || ap,
    }
}

/// Where the start sequence stands after the driver answered `step` with
/// `status`. A call that is not of the sequence is refused, whatever the
/// answer: the configuration that it needs is not set.
pub open spec fn start_progress(
    step: StartStep,
    status: DriverStatus,
    sta: bool,
    ap: bool,
) -> StartProgress {
    if !on_plan(step, sta, ap) {
        StartProgress::Failed(WiFiConfigurationError::ConfigurationNotSet)
    } else if !status.succeeded() {
        StartProgress::Failed(start_error(step, status))
    } else {
        match step_after(step, sta, ap) {
            Some(next) => StartProgress::Next(next),
            None => StartProgress::Started,
        }
    }
}

/// Where the start sequence stands when it is at `step` and the driver
/// gives `answers`, one for each call that is made.
pub open spec fn run_start(
    step: StartStep,
    answers: Seq<DriverStatus>,
    sta: bool,
    ap: bool,
) -> StartProgress
    decreases answers.len(),
{
    if answers.len() == 0 {
        StartProgress::Next(step)
    } else {
        match start_progress(step, answers[0], sta, ap) {
            StartProgress::Next(next) => run_start(next, answers.drop_first(), sta, ap),
            ended => ended,
        }
    }
}

/// What the driver's answer to a configuration means.
fn set_wifi_config(status: DriverStatus) -> (result: Result<(), WiFiConfigurationError>)
    ensures
        result == if status.succeeded() {
            Ok::<(), WiFiConfigurationError>(())
        } else {
            Err::<(), WiFiConfigurationError>(config_error(status))
        },
{
    match status.kind {
        StatusKind::Success => Ok(()),
        StatusKind::WiFiPassword => Err(WiFiConfigurationError::InvalidWifiPassword),
        StatusKind::WiFiNvs => Err(WiFiConfigurationError::InternalNvsError),
        _ => Err(WiFiConfigurationError::IdfError(status.code)),
    }
}

/// Maps a refused start to its error.
fn map_launch_error(status: DriverStatus) -> (error: WiFiConfigurationError)
    ensures
        error == launch_error(status),
{
    match status.kind {
        StatusKind::NoMemory => WiFiConfigurationError::NoMemory,
        StatusKind::InvalidArgument => WiFiConfigurationError::InvalidArgument,
        StatusKind::WiFiConnection => WiFiConfigurationError::ConnectionEstablishmentFailed,
        _ => WiFiConfigurationError::IdfError(status.code),
    }
}

/// Represents WiFi hardware instance.
///
/// Should be constructed from [`WiFiPeripherals`].
///
/// Transforms into [`WiFi`] after initialization, for further WiFi setup.
/// [`WiFiHardware::deinitialize`] turns it back into the `WiFiPeripherals`.
#[derive(Debug)]
pub struct WiFiHardware {
    initialized: bool,
    peripherals: WiFiPeripherals,
}

/// The model of an initialized adapter.
pub struct WiFiState {
    /// The hardware that the adapter was made from
    pub hardware: WiFiHardware,
    /// The access point configuration, if one is set
    pub ap: Option<WiFiApSettings>,
    /// The station configuration, if one is set
    pub sta: Option<WiFiStaSettings>,
    /// Whether the adapter runs
    pub started: bool,
}

/// Provides wifi control interface.
///
/// Can be obtained from [`WiFiHardware::initialize`].
#[derive(Debug)]
pub struct WiFi {
    hardware: WiFiHardware,
    ap_configuration: Option<WiFiApConfiguration>,
    sta_configuration: Option<WiFiStaConfiguration>,
    started: bool,
}

impl View for WiFi {
    type V = WiFiState;

    closed spec fn view(&self) -> WiFiState {
        WiFiState {
            hardware: self.hardware,
            ap: match self.ap_configuration {
                Some(config) => Some(config@),
                None => None,
            },
            sta: match self.sta_configuration {
                Some(config) => Some(config@),
                None => None,
            },
            started: self.started,
        }
    }
}

impl WiFiHardware {
    /// Whether the driver was initialized for this hardware.
    pub closed spec fn is_initialized(&self) -> bool {
        self.initialized
    }

    /// The token that the hardware was made from.
    pub closed spec fn peripherals(&self) -> WiFiPeripherals {
        self.peripherals
    }

    /// This hardware with the driver initialized.
    pub closed spec fn initialized(self) -> WiFiHardware {
        WiFiHardware { initialized: true, peripherals: self.peripherals }
    }

    /// Initialization keeps the token: whatever the adapter goes through,
    /// the hardware inside it gives back the token that it was made from.
    pub proof fn lemma_initialized_keeps_token(self)
        ensures
            self.initialized().is_initialized(),
            self.initialized().peripherals() == self.peripherals(),
    {
    }

    /// Creates new WiFi hardware instance from [`WiFiPeripherals`]
    pub fn new(peripherals: WiFiPeripherals) -> (hardware: WiFiHardware)
        ensures
            !hardware.is_initialized(),
            hardware.peripherals() == peripherals,
    {
        Self { initialized: false, peripherals }
    }

    /// Turns the hardware into the adapter, given the driver's answer to
    /// its initialization with the default options.
    ///
    /// Returns [`WiFi`] if the driver succeeded: an adapter without
    /// configurations that does not run.
    ///
    /// Returns the driver's status and the hardware unchanged if it did
    /// not, so that the hardware can be initialized again or turned back
    /// into the [`WiFiPeripherals`].
    pub fn initialize(self, status: DriverStatus) -> (result: Result<
        WiFi,
        (WiFiInitializationError, WiFiHardware),
    >)
        ensures
            match result {
                Ok(wifi) => status.succeeded() && wifi@ == (WiFiState {
                    hardware: self.initialized(),
                    ap: None,
                    sta: None,
                    started: false,
                }),
                Err((error, hardware)) => !status.succeeded() && error
                    == WiFiInitializationError::IdfError(status.code) && hardware == self,
            },
    {
        if !status.is_ok() {
            Err((WiFiInitializationError::IdfError(status.code), self))
        } else {
            let mut hardware = self;
            hardware.initialized = true;
            Ok(WiFi::new(hardware))
        }
    }

    /// Gives the token back. The second component is the driver call to
    /// make: the driver is released if it was initialized.
    pub fn deinitialize(self) -> (released: (WiFiPeripherals, Option<WiFiCommand>))
        ensures
            released.0 == self.peripherals(),
            released.1 == if self.is_initialized() {
                Some(WiFiCommand::Deinit)
            } else {
                None
            },
    {
        let command = if self.initialized {
            Some(WiFiCommand::Deinit)
        } else {
            None
        };
        (self.peripherals, command)
    }
}

impl WiFi {
    fn new(hardware: WiFiHardware) -> (wifi: WiFi)
        ensures
            wifi@ == (WiFiState { hardware, ap: None, sta: None, started: false }),
    {
        Self { hardware, ap_configuration: None, sta_configuration: None, started: false }
    }

    /// Sets or changes WiFi access point configuration
    pub fn set_ap_config(&mut self, config: WiFiApConfiguration) -> (wifi: &mut Self)
        ensures
            wifi@ == (WiFiState { ap: Some(config@), ..old(self)@ }),
            *final(self) == *final(wifi),
    {
        self.ap_configuration = Some(config);
        self
    }

    /// Sets or changes WiFi station configuration
    pub fn set_sta_config(&mut self, config: WiFiStaConfiguration) -> (wifi: &mut Self)
        ensures
            wifi@ == (WiFiState { sta: Some(config@), ..old(self)@ }),
            *final(self) == *final(wifi),
    {
        self.sta_configuration = Some(config);
        self
    }

    /// The access point configuration, if one is set.
    pub fn ap_config(&self) -> (config: Option<&WiFiApConfiguration>)
        ensures
            match config {
                Some(config) => self@.ap == Some(config@),
                None => self@.ap is None,
            },
    {
        self.ap_configuration.as_ref()
    }

    /// The station configuration, if one is set.
    pub fn sta_config(&self) -> (config: Option<&WiFiStaConfiguration>)
        ensures
            match config {
                Some(config) => self@.sta == Some(config@),
                None => self@.sta is None,
            },
    {
        self.sta_configuration.as_ref()
    }

    /// Whether the adapter runs.
    pub fn is_started(&self) -> (started: bool)
        ensures
            started == self@.started,
    {
        self.started
    }

    /// The operation mode that the adapter is started in. It is not
    /// stored: it follows from the configurations that are set.
    pub fn mode(&self) -> (mode: WiFiMode)
        ensures
            mode == derived_mode(self@.sta is Some, self@.ap is Some),
    {
        match (self.sta_configuration.is_some(), self.ap_configuration.is_some()) {
            (true, true) => WiFiMode::Combined,
            (true, false) => WiFiMode::Sta,
            (false, true) => WiFiMode::Ap,
            (false, false) => WiFiMode::Null,
        }
    }

    /// Stops the adapter: it does not run afterwards. Returns the driver
    /// call to make, which is none if the adapter did not run.
    pub fn stop(&mut self) -> (command: Option<WiFiCommand>)
        ensures
            command == if old(self)@.started {
                Some(WiFiCommand::Stop)
            } else {
                None
            },
            final(self)@ == (WiFiState { started: false, ..old(self)@ }),
    {
        if self.started {
            self.started = false;
            Some(WiFiCommand::Stop)
        } else {
            None
        }
    }

    /// Stops the adapter and returns the [`WiFiHardware`] that it was made
    /// from, with the driver call to make. The configurations are dropped.
    pub fn downgrade(self) -> (stopped: (WiFiHardware, Option<WiFiCommand>))
        ensures
            stopped.0 == self@.hardware,
            stopped.1 == if self@.started {
                Some(WiFiCommand::Stop)
            } else {
                None
            },
    {
        let mut wifi = self;
        let command = wifi.stop();
        (wifi.hardware, command)
    }

    /// Begins to start the adapter in STA, AP or STA+AP mode, whichever the
    /// configurations that are set call for.
    ///
    /// Returns the first driver call of the sequence. Hand its answer to
    /// [`WiFi::advance_start`] and go on as that says. With no
    /// configuration set there is nothing to start.
    pub fn start(&self) -> (first: Result<StartStep, WiFiConfigurationError>)
        ensures
            match first {
                Ok(step) => (self@.sta is Some || self@.ap is Some) && step == start_plan(
                    self@.sta is Some,
                    self@.ap is Some,
                )[0],
                Err(error) => self@.sta is None && self@.ap is None && error
                    == WiFiConfigurationError::ConfigurationNotSet,
            },
    {
        match self.mode() {
            WiFiMode::Null => Err(WiFiConfigurationError::ConfigurationNotSet),
            mode => Ok(StartStep::SetMode(mode)),
        }
    }

    /// Tells whether `step` is a call of the start sequence, as the
    /// configurations stand.
    fn is_on_plan(&self, step: StartStep) -> (due: bool)
        ensures
            due == on_plan(step, self@.sta is Some, self@.ap is Some),
    {
        let sta = self.sta_configuration.is_some();
        let ap = self.ap_configuration.is_some();
        match step {
            StartStep::SetMode(mode) => (sta || ap) && mode == self.mode(),
            StartStep::SetConfig(WiFiInterface::Sta) => sta,
            StartStep::SetConfig(WiFiInterface::Ap) => ap,
            StartStep::Start => sta || ap,
        }
    }

    /// Takes the driver's answer to `step` of the start sequence.
    ///
    /// An accepted call leads to the next one, and the last one to the
    /// running adapter. A refused call ends the sequence with its error.
    /// A step that is not of the sequence, as the configurations stand, is
    /// refused with `ConfigurationNotSet`, whatever the answer: so no
    /// adapter runs without a configuration.
    /// Nothing changes in the adapter but that it runs, once started.
    pub fn advance_start(&mut self, step: StartStep, status: DriverStatus) -> (progress:
        StartProgress)
        ensures
            progress == start_progress(step, status, old(self)@.sta is Some, old(self)@.ap is Some),
            final(self)@ == (WiFiState {
                started: old(self)@.started || progress is Started,
                ..old(self)@
            }),
    {
        let sta = self.sta_configuration.is_some();
        let ap = self.ap_configuration.is_some();
        if !self.is_on_plan(step) {
            return StartProgress::Failed(WiFiConfigurationError::ConfigurationNotSet);
        }
        if !status.is_ok() {
            return StartProgress::Failed(
                match step {
                    StartStep::SetMode(_) => WiFiConfigurationError::IdfError(status.code),
                    StartStep::SetConfig(_) => match set_wifi_config(status) {
                        Err(error) => error,
                        Ok(_) => WiFiConfigurationError::IdfError(status.code),
                    },
                    StartStep::Start => map_launch_error(status),
                },
            );
        }
        match step {
            StartStep::SetMode(_) => StartProgress::Next(
                if sta {
                    StartStep::SetConfig(WiFiInterface::Sta)
                } else if ap {
                    StartStep::SetConfig(WiFiInterface::Ap)
                } else {
                    StartStep::Start
                },
            ),
            StartStep::SetConfig(WiFiInterface::Sta) => StartProgress::Next(
                if ap {
                    StartStep::SetConfig(WiFiInterface::Ap)
                } else {
                    StartStep::Start
                },
            ),
            StartStep::SetConfig(WiFiInterface::Ap) => StartProgress::Next(StartStep::Start),
            StartStep::Start => {
                self.started = true;
                StartProgress::Started
            },
        }
    }

    /// Takes the driver's answer to the request to connect the station.
    pub fn connect(&mut self, status: DriverStatus) -> (result: Result<
        &mut Self,
        WiFiConfigurationError,
    >)
        ensures
            match result {
                Ok(wifi) => status.succeeded() && *wifi == *old(self)
                    && *final(self) == *final(wifi),
                Err(error) => !status.succeeded() && error == passthrough(status) && *final(self)
                    == *old(self),
            },
    {
        if !status.is_ok() {
            Err(WiFiConfigurationError::IdfError(status.code))
        } else {
            Ok(self)
        }
    }

    /// Takes the driver's answer to the request to let the station speak
    /// 802.11 b, g and n.
    pub fn switch_sta_to_bgn_mode(&mut self, status: DriverStatus) -> (result: Result<
        &mut Self,
        WiFiConfigurationError,
    >)
        ensures
            match result {
                Ok(wifi) => status.succeeded() && *wifi == *old(self)
                    && *final(self) == *final(wifi),
                Err(error) => !status.succeeded() && error == passthrough(status) && *final(self)
                    == *old(self),
            },
    {
        if !status.is_ok() {
            Err(WiFiConfigurationError::IdfError(status.code))
        } else {
            Ok(self)
        }
    }
}

/// Taking each next call from `step_after` walks through `start_plan`: the
/// sequence begins with the mode, each accepted call is followed by its
/// successor in the plan, and nothing follows the last.
pub proof fn lemma_start_follows_plan(sta: bool, ap: bool, i: int)
    requires
        sta || ap,
        0 <= i < start_plan(sta, ap).len(),
    ensures
        start_plan(sta, ap)[0] == StartStep::SetMode(derived_mode(sta, ap)),
        start_plan(sta, ap).last() == StartStep::Start,
        i + 1 < start_plan(sta, ap).len() ==> step_after(start_plan(sta, ap)[i], sta, ap) == Some(
            start_plan(sta, ap)[i + 1],
        ),
        i + 1 == start_plan(sta, ap).len() ==> step_after(start_plan(sta, ap)[i], sta, ap)
            is None,
{
}

/// The calls of the start sequence are those of its plan, if there is
/// anything to start.
pub proof fn lemma_on_plan(step: StartStep, sta: bool, ap: bool)
    ensures
        on_plan(step, sta, ap) <==> (sta || ap) && start_plan(sta, ap).contains(step),
{
    let plan = start_plan(sta, ap);
    if on_plan(step, sta, ap) {
        let i: int = match step {
            StartStep::SetMode(_) => 0,
            StartStep::SetConfig(WiFiInterface::Sta) => 1,
            StartStep::SetConfig(WiFiInterface::Ap) => if sta {
                2
            } else {
                1
            },
            StartStep::Start => plan.len() - 1,
        };
        assert(plan[i] == step);
    } else if (sta || ap) && plan.contains(step) {
        let i = choose|i: int| 0 <= i < plan.len() && plan[i] == step;
        assert(plan[i] == step);
    }
}

/// Without a configuration no step starts the adapter: every step is
/// refused with `ConfigurationNotSet`, whatever the driver answered.
pub proof fn lemma_no_start_without_configuration(step: StartStep, status: DriverStatus)
    ensures
        start_progress(step, status, false, false) == StartProgress::Failed(
            WiFiConfigurationError::ConfigurationNotSet,
        ),
{
}

/// The mode is derived: both configurations give the combined mode, one
/// alone gives its own mode, none gives no mode, in which case the start is
/// refused.
pub proof fn lemma_mode_is_derived(sta: bool, ap: bool)
    ensures
        derived_mode(sta, ap) == WiFiMode::Combined <==> sta && ap,
        derived_mode(sta, ap) == WiFiMode::Sta <==> sta && !ap,
        derived_mode(sta, ap) == WiFiMode::Ap <==> !sta && ap,
        derived_mode(sta, ap) == WiFiMode::Null <==> !sta && !ap,
{
}

/// Whether the driver accepted the first `n` calls.
pub open spec fn all_accepted(answers: Seq<DriverStatus>, n: int) -> bool {
    forall|i: int| 0 <= i < n ==> (#[trigger] answers[i]).succeeded()
}

/// The start sequence from its call number `from` on, with one answer for
/// each call that is left.
proof fn lemma_run_from(sta: bool, ap: bool, from: int, answers: Seq<DriverStatus>)
    requires
        sta || ap,
        0 <= from < start_plan(sta, ap).len(),
        answers.len() == start_plan(sta, ap).len() - from,
    ensures
        all_accepted(answers, answers.len() as int) ==> run_start(
            start_plan(sta, ap)[from],
            answers,
            sta,
            ap,
        ) == StartProgress::Started,
        forall|k: int|
            0 <= k < answers.len() && all_accepted(answers, k) && !(#[trigger] answers[k]).succeeded()
                ==> run_start(start_plan(sta, ap)[from], answers, sta, ap) == StartProgress::Failed(
                start_error(start_plan(sta, ap)[from + k], answers[k]),
            ),
    decreases answers.len(),
{
    let plan = start_plan(sta, ap);
    let rest = answers.drop_first();
    lemma_start_follows_plan(sta, ap, from);
    if answers[0].succeeded() && from + 1 < plan.len() {
        lemma_run_from(sta, ap, from + 1, rest);
        assert(forall|i: int| 0 <= i < rest.len() ==> rest[i] == answers[i + 1]);
        if all_accepted(answers, answers.len() as int) {
            assert(all_accepted(rest, rest.len() as int)) by {
                assert forall|i: int| 0 <= i < rest.len() implies (#[trigger] rest[i]).succeeded() by {
                    assert(answers[i + 1].succeeded());
                }
            }
        }
        assert forall|k: int|
            0 <= k < answers.len() && all_accepted(answers, k) && !(#[trigger] answers[k]).succeeded()
            implies run_start(plan[from], answers, sta, ap) == StartProgress::Failed(
            start_error(plan[from + k], answers[k]),
        ) by {
            assert(k >= 1);
            assert(all_accepted(rest, k - 1)) by {
                assert forall|i: int| 0 <= i < k - 1 implies (#[trigger] rest[i]).succeeded() by {
                    assert(answers[i + 1].succeeded());
                }
            }
            assert(!rest[k - 1].succeeded());
        }
    } else if answers[0].succeeded() {
        assert(answers.len() == 1);
        assert(rest.len() == 0);
    } else {
        assert forall|k: int|
            0 <= k < answers.len() && all_accepted(answers, k) && !(#[trigger] answers[k]).succeeded()
            implies k == 0 by {
            if k > 0 {
                assert(answers[0].succeeded());
            }
        }
    }
}

/// The outcome of a start, given the driver's answer to each call of the
/// plan: the adapter runs exactly if every call was accepted, and the
/// first call that was refused ends the sequence with its own error,
/// whatever the answers after it would have been.
pub proof fn lemma_start_outcome(sta: bool, ap: bool, answers: Seq<DriverStatus>)
    requires
        sta || ap,
        answers.len() == start_plan(sta, ap).len(),
    ensures
        all_accepted(answers, answers.len() as int) <==> run_start(
            start_plan(sta, ap)[0],
            answers,
            sta,
            ap,
        ) == StartProgress::Started,
        forall|k: int|
            0 <= k < answers.len() && all_accepted(answers, k) && !(#[trigger] answers[k]).succeeded()
                ==> run_start(start_plan(sta, ap)[0], answers, sta, ap) == StartProgress::Failed(
                start_error(start_plan(sta, ap)[k], answers[k]),
            ),
{
    lemma_run_from(sta, ap, 0, answers);
    if !all_accepted(answers, answers.len() as int) {
        let k = first_refused(answers, answers.len() as int);
        lemma_first_refused(answers, answers.len() as int);
        assert(!answers[k].succeeded());
        assert(run_start(start_plan(sta, ap)[0], answers, sta, ap) is Failed);
    }
}

/// The number of the first call among the first `n` that the driver
/// refused.
spec fn first_refused(answers: Seq<DriverStatus>, n: int) -> int
    decreases n,
{
    if n <= 0 {
        0
    } else if all_accepted(answers, n - 1) {
        n - 1
    } else {
        first_refused(answers, n - 1)
    }
}

/// Among answers that were not all accepted, `first_refused` finds the
/// first that was refused.
proof fn lemma_first_refused(answers: Seq<DriverStatus>, n: int)
    requires
        0 <= n <= answers.len(),
        !all_accepted(answers, n),
    ensures
        0 <= first_refused(answers, n) < n,
        all_accepted(answers, first_refused(answers, n)),
        !answers[first_refused(answers, n)].succeeded(),
    decreases n,
{
    if n > 0 {
        if all_accepted(answers, n - 1) {
            if answers[n - 1].succeeded() {
                assert forall|i: int| 0 <= i < n implies (#[trigger] answers[i]).succeeded() by {
                    if i < n - 1 {
                        assert(answers[i].succeeded());
                    }
                }
            }
        } else {
            lemma_first_refused(answers, n - 1);
        }
    }
}

} // verus!
