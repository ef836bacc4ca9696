//! The PWM unit: up to eight channels, each on a pin of its own.
//!
//! [`PwmInitializer`] collects the channels and the period.
//! [`PwmInitializer::initialize`] checks them against each other and yields
//! the running unit, [`Pwm`], whose settings are changed through
//! [`PwmConfiguration`]. Where a change needs the consent of the driver, the
//! setter yields the driver call, and [`PwmConfiguration::confirm`] takes the
//! driver's answer.
use vstd::prelude::*;
use crate::gpio::{
    assigned, capabilities, is_free, is_physical_pin, released, Claimant, GpioHardware, GpioPin,
    PinId, PwmPinMarker,
};
use crate::status::DriverStatus;

verus! {

/// Shortest period, in ticks.
pub const MIN_PWM_PERIOD: u32 = 10;

/// A channel: the pin that carries it and its duty, in ticks.
#[derive(Copy, Clone, PartialEq, Eq, Structural, Debug)]
pub struct PwmChannel {
    pub pin: PinId,
    pub duty: u32,
}

#[derive(Copy, Clone, PartialEq, Eq, Structural, Debug)]
pub enum PwmInitializationError {
    TooManyChannels,
    TooShortPeriod,
    DutyExceedsPeriod,
    PeriodNotSet,
}

#[derive(Copy, Clone, PartialEq, Eq, Structural, Debug)]
pub enum PwmConfigurationError {
    InvalidChannel,
    TooShortPeriod,
    DutyExceedsPeriod,
    InvalidPhase,
}

/// A call into the PWM driver.
#[derive(Copy, Clone, PartialEq, Eq, Debug)]
pub enum PwmCommand {
    /// Program the unit. Both arrays have an entry for each of the eight
    /// channels; the entries from `channel_count` on are zero.
    Init { period: u32, duties: [u32; 8], channel_count: u8, pins: [u32; 8] },
    /// Invert the output of the channels in the mask.
    SetChannelInvert { mask: u16 },
    /// Stop inverting the output of the channels in the mask.
    ClearChannelInvert { mask: u16 },
    SetPeriod { period: u32 },
    SetDuty { channel: u8, duty: u32 },
    SetPhase { channel: u8, phase: i16 },
    Start,
    /// Stop the unit and leave each channel at the level of its bit.
    Stop { stop_level: u32 },
    Deinit,
}

/// `levels` with the bit of `channel` set to `level`.
pub open spec fn with_stop_bit(levels: u8, channel: u8, level: bool) -> u8 {
    (levels & !(1u8 << channel)) | ((if level {
        1u8
    } else {
        0u8
    }) << channel)
}

/// Whether the bit of `channel` is set in `levels`.
pub open spec fn stop_bit(levels: u8, channel: u8) -> bool {
    (levels >> channel) & 1u8 == 1u8
}

/// Setting the stop level of a channel sets the bit of that channel and
/// leaves the bit of every other channel as it was.
pub proof fn lemma_with_stop_bit(levels: u8, channel: u8, level: bool, other: u8)
    requires
        channel < 8,
        other < 8,
    ensures
        stop_bit(with_stop_bit(levels, channel, level), channel) == level,
        other != channel ==> stop_bit(with_stop_bit(levels, channel, level), other) == stop_bit(
            levels,
            other,
        ),
{
    let value = if level {
        1u8
    } else {
        0u8
    };
    assert(channel < 8 && (value == 0 || value == 1) ==> ((((levels & !(1u8 << channel)) | (value
        << channel)) >> channel) & 1u8) == value) by (bit_vector);
    assert(channel < 8 && other < 8 && other != channel && (value == 0 || value == 1) ==> ((((levels
        & !(1u8 << channel)) | (value << channel)) >> other) & 1u8) == ((levels >> other) & 1u8))
        by (bit_vector);
}

/// The settings of the running unit.
#[derive(Debug)]
pub struct PwmConfiguration {
    channel_count: u8,
    period: u32,
    stop_level: u8,
}

/// The model of [`PwmConfiguration`].
pub struct PwmSettings {
    pub channel_count: u8,
    pub period: u32,
    pub stop_level: u8,
}

impl View for PwmConfiguration {
    type V = PwmSettings;

    closed spec fn view(&self) -> PwmSettings {
        PwmSettings {
            channel_count: self.channel_count,
            period: self.period,
            stop_level: self.stop_level,
        }
    }
}

impl PwmSettings {
    /// Why `command` is no call that these settings allow, if it is none: a
    /// period below 10 ticks; a duty above the period; a phase outside of
    /// -180 to 180 degrees; a duty or a phase for a channel that does not
    /// exist. These are the rules of the setters.
    pub open spec fn refusal(self, command: PwmCommand) -> Option<PwmConfigurationError> {
        match command {
            PwmCommand::SetPeriod { period } => if period < MIN_PWM_PERIOD {
                Some(PwmConfigurationError::TooShortPeriod)
            } else {
                None
            },
            PwmCommand::SetDuty { channel, duty } => if duty > self.period {
                Some(PwmConfigurationError::DutyExceedsPeriod)
            } else if channel >= self.channel_count {
                Some(PwmConfigurationError::InvalidChannel)
            } else {
                None
            },
            PwmCommand::SetPhase { channel, phase } => if phase < -180 || phase > 180 {
                Some(PwmConfigurationError::InvalidPhase)
            } else if channel >= self.channel_count {
                Some(PwmConfigurationError::InvalidChannel)
            } else {
                None
            },
            _ => None,
        }
    }

    /// What the unit makes of the driver's answer to `command`. A command
    /// that the settings do not allow is refused, whatever the answer. A
    /// refused duty or phase means that the driver does not know the
    /// channel, and a refused period that the period is too short. An
    /// accepted period is the period from then on. No other call can be
    /// refused.
    pub open spec fn confirm(self, command: PwmCommand, status: DriverStatus) -> Result<
        PwmSettings,
        PwmConfigurationError,
    > {
        if self.refusal(command) is Some {
            Err(self.refusal(command)->0)
        } else {
            self.accept(command, status)
        }
    }

    /// What the unit makes of the driver's answer to a command that the
    /// settings allow.
    pub open spec fn accept(self, command: PwmCommand, status: DriverStatus) -> Result<
        PwmSettings,
        PwmConfigurationError,
    > {
        match command {
            PwmCommand::SetPeriod { period } => if status.succeeded() {
                Ok(PwmSettings { period, ..self })
            } else {
                Err(PwmConfigurationError::TooShortPeriod)
            },
            PwmCommand::SetDuty { .. } | PwmCommand::SetPhase { .. } => if status.succeeded() {
                Ok(self)
            } else {
                Err(PwmConfigurationError::InvalidChannel)
            },
            _ => Ok(self),
        }
    }
}

impl PwmConfiguration {
    #[verifier::type_invariant]
    spec fn well_formed(self) -> bool {
        self.channel_count <= 8
    }

    fn assert_channel(&self, channel: u8) -> (result: Result<(), PwmConfigurationError>)
        ensures
            result is Ok <==> channel < self@.channel_count,
            result is Err ==> result == Err::<(), PwmConfigurationError>(
                PwmConfigurationError::InvalidChannel,
            ),
    {
        if channel >= self.channel_count {
            Err(PwmConfigurationError::InvalidChannel)
        } else {
            Ok(())
        }
    }

    /// The settings as they stand: the number of channels, which is eight
    /// at most, the period and the stop levels.
    pub fn settings(&self) -> (settings: (u8, u32, u8))
        ensures
            settings == (self@.channel_count, self@.period, self@.stop_level),
            self@.channel_count <= 8,
    {
        proof {
            use_type_invariant(self);
        }
        (self.channel_count, self.period, self.stop_level)
    }

    /// Chooses the level that a channel is left at when the unit stops.
    pub fn set_stop_level(&mut self, channel: u8, level: bool) -> (result: Result<
        &mut Self,
        PwmConfigurationError,
    >)
        ensures
            match result {
                Ok(configuration) => {
                    &&& channel < old(self)@.channel_count
                    &&& configuration@ == (PwmSettings {
                        stop_level: with_stop_bit(old(self)@.stop_level, channel, level),
                        ..old(self)@
                    })
                    &&& *final(self) == *final(configuration)
                },
                Err(error) => channel >= old(self)@.channel_count && error
                    == PwmConfigurationError::InvalidChannel && *final(self) == *old(self),
            },
    {
        proof {
            use_type_invariant(&*self);
        }
        if let Err(error) = self.assert_channel(channel) {
            return Err(error);
        }
        let bit_mask: u8 = 1u8 << channel;
        let bit_value: u8 = (if level {
            1u8
        } else {
            0u8
        }) << channel;
        self.stop_level = (self.stop_level & !bit_mask) | bit_value;
        Ok(self)
    }

    /// Yields the driver call that inverts the output of a channel, or
    /// ends the inversion.
    pub fn set_inverted_state(&self, channel: u8, is_inverted: bool) -> (result: Result<
        PwmCommand,
        PwmConfigurationError,
    >)
        ensures
            match result {
                Ok(command) => channel < self@.channel_count && command == if is_inverted {
                    PwmCommand::SetChannelInvert { mask: 1u16 << channel }
                } else {
                    PwmCommand::ClearChannelInvert { mask: 1u16 << channel }
                },
                Err(error) => channel >= self@.channel_count && error
                    == PwmConfigurationError::InvalidChannel,
            },
    {
        proof {
            use_type_invariant(self);
        }
        if let Err(error) = self.assert_channel(channel) {
            return Err(error);
        }
        let mask: u16 = 1u16 << channel;
        if is_inverted {
            Ok(PwmCommand::SetChannelInvert { mask })
        } else {
            Ok(PwmCommand::ClearChannelInvert { mask })
        }
    }

    /// Yields the driver call that changes the period, which must be 10
    /// ticks at least. The period changes when the driver's answer is
    /// confirmed.
    pub fn set_period(&self, period: u32) -> (result: Result<PwmCommand, PwmConfigurationError>)
        ensures
            match result {
                Ok(command) => period >= MIN_PWM_PERIOD && command == (PwmCommand::SetPeriod {
                    period,
                }),
                Err(error) => period < MIN_PWM_PERIOD && error
                    == PwmConfigurationError::TooShortPeriod,
            },
    {
        if period < MIN_PWM_PERIOD {
            Err(PwmConfigurationError::TooShortPeriod)
        } else {
            Ok(PwmCommand::SetPeriod { period })
        }
    }

    /// Yields the driver call that changes the duty of a channel. The duty
    /// must not exceed the period, and the channel must exist.
    pub fn set_duty(&self, channel: u8, duty: u32) -> (result: Result<
        PwmCommand,
        PwmConfigurationError,
    >)
        ensures
            match result {
                Ok(command) => duty <= self@.period && channel < self@.channel_count && command
                    == (PwmCommand::SetDuty { channel, duty }),
                Err(error) => error == if duty > self@.period {
                    PwmConfigurationError::DutyExceedsPeriod
                } else {
                    PwmConfigurationError::InvalidChannel
                } && (duty > self@.period || channel >= self@.channel_count),
            },
    {
        if duty > self.period {
            return Err(PwmConfigurationError::DutyExceedsPeriod);
        }
        if let Err(error) = self.assert_channel(channel) {
            return Err(error);
        }
        Ok(PwmCommand::SetDuty { channel, duty })
    }

    /// Yields the driver call that changes the phase of a channel. The
    /// phase must be between -180 and 180 degrees, and the channel must
    /// exist.
    pub fn set_phase(&self, channel: u8, phase: i16) -> (result: Result<
        PwmCommand,
        PwmConfigurationError,
    >)
        ensures
            match result {
                Ok(command) => -180 <= phase <= 180 && channel < self@.channel_count && command
                    == (PwmCommand::SetPhase { channel, phase }),
                Err(error) => error == if phase < -180 || phase > 180 {
                    PwmConfigurationError::InvalidPhase
                } else {
                    PwmConfigurationError::InvalidChannel
                } && (phase < -180 || phase > 180 || channel >= self@.channel_count),
            },
    {
        if phase < -180 || phase > 180 {
            return Err(PwmConfigurationError::InvalidPhase);
        }
        if let Err(error) = self.assert_channel(channel) {
            return Err(error);
        }
        Ok(PwmCommand::SetPhase { channel, phase })
    }

    /// Takes the driver's answer to `command`. If the driver refused, or
    /// if the command is none that a setter yields for these settings, the
    /// settings stay as they were.
    pub fn confirm(&mut self, command: PwmCommand, status: DriverStatus) -> (result: Result<
        (),
        PwmConfigurationError,
    >)
        ensures
            match old(self)@.confirm(command, status) {
                Ok(settings) => result is Ok && final(self)@ == settings,
                Err(error) => result == Err::<(), PwmConfigurationError>(error) && final(self)@
                    == old(self)@,
            },
    {
        proof {
            use_type_invariant(&*self);
        }
        let accepted = status.is_ok();
        let allowed = match command {
            PwmCommand::SetPeriod { period } => self.set_period(period),
            PwmCommand::SetDuty { channel, duty } => self.set_duty(channel, duty),
            PwmCommand::SetPhase { channel, phase } => self.set_phase(channel, phase),
            _ => Ok(command),
        };
        if let Err(error) = allowed {
            return Err(error);
        }
        match command {
            PwmCommand::SetPeriod { period } => {
                if accepted {
                    self.period = period;
                    Ok(())
                } else {
                    Err(PwmConfigurationError::TooShortPeriod)
                }
            },
            PwmCommand::SetDuty { .. } | PwmCommand::SetPhase { .. } => {
                if accepted {
                    Ok(())
                } else {
                    Err(PwmConfigurationError::InvalidChannel)
                }
            },
            _ => Ok(()),
        }
    }
}

/// The pins in use after each of `pins` passed to the PWM unit.
pub open spec fn claimed_each(held: Map<PinId, Claimant>, pins: Seq<PinId>) -> Map<PinId, Claimant>
    decreases pins.len(),
{
    if pins.len() == 0 {
        held
    } else {
        assigned(claimed_each(held, pins.drop_last()), pins.last(), Claimant::Pwm)
    }
}

/// After the pins passed to the PWM unit, the unit holds each of them, and
/// every other pin has the holder it had.
pub proof fn lemma_claimed_each(held: Map<PinId, Claimant>, pins: Seq<PinId>, pin: PinId)
    ensures
        pins.contains(pin) && is_physical_pin(pin) ==> claimed_each(held, pins).contains_key(pin)
            && claimed_each(held, pins)[pin] == Claimant::Pwm,
        !pins.contains(pin) ==> claimed_each(held, pins).contains_key(pin) == held.contains_key(
            pin,
        ),
        !pins.contains(pin) && held.contains_key(pin) ==> claimed_each(held, pins)[pin]
            == held[pin],
    decreases pins.len(),
{
    if pins.len() > 0 {
        let front = pins.drop_last();
        lemma_claimed_each(held, front, pin);
        if pins.contains(pin) && pin != pins.last() {
            let i = choose|i: int| 0 <= i < pins.len() && pins[i] == pin;
            assert(front[i] == pin);
        }
        if front.contains(pin) {
            let i = choose|i: int| 0 <= i < front.len() && front[i] == pin;
            assert(pins[i] == pin);
        }
    }
}

/// The pins in use after each of `pins` was released.
pub open spec fn released_each(held: Map<PinId, Claimant>, pins: Seq<PinId>) -> Map<
    PinId,
    Claimant,
>
    decreases pins.len(),
{
    if pins.len() == 0 {
        held
    } else {
        released(released_each(held, pins.drop_last()), pins.last())
    }
}

/// After the pins were released, none of them is held, and every other pin
/// has the holder it had.
pub proof fn lemma_released_each(held: Map<PinId, Claimant>, pins: Seq<PinId>, pin: PinId)
    ensures
        released_each(held, pins).contains_key(pin) ==> held.contains_key(pin)
            && released_each(held, pins)[pin] == held[pin],
        pins.contains(pin) ==> is_free(released_each(held, pins), pin),
        !pins.contains(pin) ==> released_each(held, pins).contains_key(pin) == held.contains_key(
            pin,
        ),
    decreases pins.len(),
{
    if pins.len() > 0 {
        let front = pins.drop_last();
        lemma_released_each(held, front, pin);
        if pins.contains(pin) && pin != pins.last() {
            let i = choose|i: int| 0 <= i < pins.len() && pins[i] == pin;
            assert(front[i] == pin);
        }
        if front.contains(pin) {
            let i = choose|i: int| 0 <= i < front.len() && front[i] == pin;
            assert(pins[i] == pin);
        }
    }
}

/// The model of the running unit.
pub struct PwmUnit {
    pub settings: PwmSettings,
    /// The pin of each channel
    pub pins: Seq<PinId>,
}

/// The running PWM unit.
#[derive(Debug)]
pub struct Pwm {
    configuration: PwmConfiguration,
    pins: [PinId; 8],
}

impl View for Pwm {
    type V = PwmUnit;

    closed spec fn view(&self) -> PwmUnit {
        PwmUnit {
            settings: self.configuration@,
            pins: self.pins@.take(self.configuration@.channel_count as int),
        }
    }
}

impl Pwm {
    fn new(channel_count: u8, period: u32, pins: [PinId; 8]) -> (pwm: Pwm)
        requires
            channel_count <= 8,
        ensures
            pwm@ == (PwmUnit {
                settings: PwmSettings { channel_count, period, stop_level: 0 },
                pins: pins@.take(channel_count as int),
            }),
    {
        Self {
            configuration: PwmConfiguration { channel_count, period, stop_level: 0 },
            pins,
        }
    }

    /// The settings of the unit, to be changed in place.
    pub fn configuration(&mut self) -> (configuration: &mut PwmConfiguration)
        ensures
            configuration@ == old(self)@.settings,
            final(configuration)@.channel_count == old(self)@.settings.channel_count
                ==> final(self)@ == (PwmUnit { settings: final(configuration)@, ..old(self)@ }),
    {
        &mut self.configuration
    }

    /// Yields the driver call that starts the unit.
    pub fn start(&mut self) -> (command: PwmCommand)
        ensures
            command == PwmCommand::Start,
            *final(self) == *old(self),
    {
        PwmCommand::Start
    }

    /// Yields the driver call that stops the unit, with the level that
    /// each channel is left at.
    pub fn stop(&mut self) -> (command: PwmCommand)
        ensures
            command == (PwmCommand::Stop { stop_level: old(self)@.settings.stop_level as u32 }),
            *final(self) == *old(self),
    {
        PwmCommand::Stop { stop_level: self.configuration.stop_level as u32 }
    }

    /// Takes the unit out of use: the pins of its channels are free again
    /// in the bank. Yields the two driver calls to make: the stop, then the
    /// release of the driver.
    pub fn deinitialize(self, gpio_hw: &mut GpioHardware) -> (commands: (PwmCommand, PwmCommand))
        ensures
            commands.0 == (PwmCommand::Stop { stop_level: self@.settings.stop_level as u32 }),
            commands.1 == PwmCommand::Deinit,
            final(gpio_hw)@ == released_each(old(gpio_hw)@, self@.pins),
    {
        let mut unit = self;
        let stop = unit.stop();
        let (count, _, _) = unit.configuration.settings();
        let ghost held = gpio_hw@;
        let mut i: u8 = 0;
        while i < count
            invariant
                i <= count <= 8,
                count == unit.configuration@.channel_count,
                gpio_hw@ == released_each(held, unit.pins@.take(i as int)),
            decreases count - i,
        {
            gpio_hw.release_id(unit.pins[i as usize]);
            proof {
                let done = unit.pins@.take(i as int + 1);
                assert(done.drop_last() =~= unit.pins@.take(i as int));
                assert(done.last() == unit.pins@[i as int]);
            }
            i += 1;
        }
        (stop, PwmCommand::Deinit)
    }
}

/// The model of a PWM unit under construction.
pub struct PwmDraft {
    /// The channels that were added, in order
    pub channels: Seq<PwmChannel>,
    pub period: Option<u32>,
}

impl PwmDraft {
    /// Why the unit cannot be initialized, if it cannot: the period must
    /// be set, and no duty may exceed it.
    pub open spec fn init_error(self) -> Option<PwmInitializationError> {
        if self.period is None {
            Some(PwmInitializationError::PeriodNotSet)
        } else if exists|i: int|
            0 <= i < self.channels.len() && (#[trigger] self.channels[i]).duty > self.period->0 {
            Some(PwmInitializationError::DutyExceedsPeriod)
        } else {
            None
        }
    }

    /// The duty of each of the eight channels, zero for a channel that was
    /// not added.
    pub open spec fn duties(self) -> Seq<u32> {
        Seq::new(
            8,
            |i: int|
                if i < self.channels.len() {
                    self.channels[i].duty
                } else {
                    0u32
                },
        )
    }

    /// The pin number of each of the eight channels, zero for a channel
    /// that was not added.
    pub open spec fn pins(self) -> Seq<u32> {
        Seq::new(
            8,
            |i: int|
                if i < self.channels.len() {
                    self.channels[i].pin as u32
                } else {
                    0u32
                },
        )
    }

    /// The pins of the channels that were added.
    pub open spec fn channel_pins(self) -> Seq<PinId> {
        Seq::new(self.channels.len(), |i: int| self.channels[i].pin)
    }
}

/// Collects the channels and the period of the PWM unit.
#[derive(Debug)]
pub struct PwmInitializer {
    channels_count: u8,
    channels: [PwmChannel; 8],
    period: Option<u32>,
}

impl View for PwmInitializer {
    type V = PwmDraft;

    closed spec fn view(&self) -> PwmDraft {
        PwmDraft { channels: self.channels@.take(self.channels_count as int), period: self.period }
    }
}

impl PwmInitializer {
    #[verifier::type_invariant]
    spec fn well_formed(self) -> bool {
        self.channels_count <= 8
    }

    pub fn new() -> (initializer: Self)
        ensures
            initializer@ == (PwmDraft { channels: Seq::empty(), period: None }),
    {
        let initializer = Self {
            channels_count: 0,
            channels: [PwmChannel { pin: 0, duty: 0 };8],
            period: None,
        };
        assert(initializer@.channels =~= Seq::empty());
        initializer
    }

    /// Adds a channel on the given pin, which is used up. The unit has
    /// room for eight channels. Offered only for a pin that can carry a PWM
    /// channel.
    pub fn add_channel<Pin: GpioPin + PwmPinMarker>(self, _pin: Pin, duty: u32) -> (result: Result<
        Self,
        PwmInitializationError,
    >)
        ensures
            capabilities(Pin::PIN_NUM).pwm,
            match result {
                Ok(initializer) => self@.channels.len() < 8 && initializer@ == (PwmDraft {
                    channels: self@.channels.push(PwmChannel { pin: Pin::PIN_NUM, duty }),
                    ..self@
                }),
                Err(error) => self@.channels.len() >= 8 && error
                    == PwmInitializationError::TooManyChannels,
            },
    {
        proof {
            use_type_invariant(&self);
            <Pin as PwmPinMarker>::in_capability_table();
        }
        if self.channels_count < 8 {
            let mut initializer = self;
            let ghost before = initializer.channels@;
            initializer.channels[initializer.channels_count as usize] = PwmChannel {
                pin: Pin::get_pin_id(),
                duty,
            };
            initializer.channels_count += 1;
            assert(initializer@.channels =~= self@.channels.push(
                PwmChannel { pin: Pin::PIN_NUM, duty },
            ));
            Ok(initializer)
        } else {
            Err(PwmInitializationError::TooManyChannels)
        }
    }

    /// Sets the period, which must be 10 ticks at least.
    pub fn set_period(self, period: u32) -> (result: Result<Self, PwmInitializationError>)
        ensures
            match result {
                Ok(initializer) => period >= MIN_PWM_PERIOD && initializer@ == (PwmDraft {
                    period: Some(period),
                    ..self@
                }),
                Err(error) => period < MIN_PWM_PERIOD && error
                    == PwmInitializationError::TooShortPeriod,
            },
    {
        proof {
            use_type_invariant(&self);
        }
        if period < MIN_PWM_PERIOD {
            Err(PwmInitializationError::TooShortPeriod)
        } else {
            let mut initializer = self;
            initializer.period = Some(period);
            Ok(initializer)
        }
    }

    /// Turns the draft into the running unit, with the driver call that
    /// programs it. From then on the bank names the unit as the holder of
    /// the pins of its channels. Without a period, or with a duty that
    /// exceeds the period, the draft is handed back with the error, and the
    /// bank is left as it was.
    pub fn initialize(self, gpio_hw: &mut GpioHardware) -> (result: Result<
        (Pwm, PwmCommand),
        (PwmInitializationError, PwmInitializer),
    >)
        ensures
            match result {
                Ok((pwm, command)) => {
                    &&& self@.init_error() is None
                    &&& final(gpio_hw)@ == claimed_each(old(gpio_hw)@, self@.channel_pins())
                    &&& pwm@.settings == (PwmSettings {
                        channel_count: self@.channels.len() as u8,
                        period: self@.period->0,
                        stop_level: 0,
                    })
                    &&& pwm@.pins == self@.channel_pins()
                    &&& command matches PwmCommand::Init { period, duties, channel_count, pins }
                    &&& period == self@.period->0
                    &&& channel_count == self@.channels.len()
                    &&& duties@ == self@.duties()
                    &&& pins@ == self@.pins()
                },
                Err((error, initializer)) => self@.init_error() == Some(error) && initializer
                    == self && final(gpio_hw)@ == old(gpio_hw)@,
            },
    {
        proof {
            use_type_invariant(&self);
        }
        let period = match self.period {
            Some(period) => period,
            None => {
                return Err((PwmInitializationError::PeriodNotSet, self));
            },
        };
        let mut duties: [u32; 8] = [0u32;8];
        let mut pins: [u32; 8] = [0u32;8];
        let mut pin_ids: [PinId; 8] = [0u8;8];
        let count = self.channels_count;
        let mut i: u8 = 0;
        while i < count
            invariant
                i <= count <= 8,
                count == self.channels_count,
                self.period == Some(period),
                forall|j: int| 0 <= j < i ==> (#[trigger] self@.channels[j]).duty <= period,
                forall|j: int| 0 <= j < i ==> duties@[j] == self@.channels[j].duty,
                forall|j: int| 0 <= j < i ==> pins@[j] == self@.channels[j].pin as u32,
                forall|j: int| 0 <= j < i ==> pin_ids@[j] == self@.channels[j].pin,
                forall|j: int| i <= j < 8 ==> duties@[j] == 0 && pins@[j] == 0,
            decreases count - i,
        {
            let channel = self.channels[i as usize];
            assert(channel == self@.channels[i as int]);
            if channel.duty > period {
                return Err((PwmInitializationError::DutyExceedsPeriod, self));
            }
            duties[i as usize] = channel.duty;
            pins[i as usize] = channel.pin as u32;
            pin_ids[i as usize] = channel.pin;
            i += 1;
        }
        let pwm = Pwm::new(count, period, pin_ids);
        proof {
            assert(duties@ =~= self@.duties());
            assert(pins@ =~= self@.pins());
            assert(pwm@.pins =~= self@.channel_pins());
        }
        let ghost held = gpio_hw@;
        let ghost claimed = self@.channel_pins();
        let mut k: u8 = 0;
        while k < count
            invariant
                k <= count <= 8,
                claimed.len() == count,
                forall|j: int| 0 <= j < count ==> pin_ids@[j] == claimed[j],
                gpio_hw@ == claimed_each(held, claimed.take(k as int)),
            decreases count - k,
        {
            gpio_hw.assign_id(pin_ids[k as usize], Claimant::Pwm);
            proof {
                let done = claimed.take(k as int + 1);
                assert(done.drop_last() =~= claimed.take(k as int));
                assert(done.last() == claimed[k as int]);
            }
            k += 1;
        }
        assert(claimed.take(count as int) =~= claimed);
        Ok((pwm, PwmCommand::Init { period, duties, channel_count: count, pins }))
    }
}

} // verus!
