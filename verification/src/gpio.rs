//! GPIO pins: what each pin can do, who holds it, and how it is configured.
//!
//! A pin is known by its [`PinId`]. [`capabilities`] is the one table that
//! says what a pin supports. Pins whose identity is a type (`Gpio0` ..
//! `Gpio16`) carry marker traits; a marker can only be implemented for a pin
//! whose table entry has the capability, so an operation that is bounded by a
//! marker is not offered for a pin that lacks the capability. Where a pin is
//! chosen at run time, [`GpioDraft`] evaluates the same table and rejects the
//! operation.
use vstd::prelude::*;
use crate::peripherals::GpioPeripherals;

verus! {

/// Bit mask that selects pins in multi-pin driver calls.
pub type PinMask = u32;

/// Number of a pin.
pub type PinId = u8;

/// Identity of the placeholder for a line that is not wired.
pub const NOT_CONNECTED: PinId = 255;

/// Number of slots in the bank: one per pin number up to the highest pin.
pub const PIN_SLOTS: usize = 17;

/// A configuration ability of a pin.
#[derive(Copy, Clone, PartialEq, Eq, Structural, Debug)]
pub enum Capability {
    Input,
    Output,
    OpenDrain,
    PullUp,
    PullDown,
    Interrupt,
    Pwm,
}

/// The abilities of one pin. They follow from the pin's identity alone.
#[derive(Copy, Clone, PartialEq, Eq, Structural, Debug)]
pub struct CapabilitySet {
    pub input: bool,
    pub output: bool,
    pub open_drain: bool,
    pub pull_up: bool,
    pub pull_down: bool,
    pub interrupt: bool,
    pub pwm: bool,
}

impl CapabilitySet {
    /// Whether the set holds `capability`.
    pub open spec fn has(&self, capability: Capability) -> bool {
        match capability {
            Capability::Input => self.input,
            Capability::Output => self.output,
            Capability::OpenDrain => self.open_drain,
            Capability::PullUp => self.pull_up,
            Capability::PullDown => self.pull_down,
            Capability::Interrupt => self.interrupt,
            Capability::Pwm => self.pwm,
        }
    }

    /// Tells whether the set holds `capability`.
    pub fn supports(&self, capability: Capability) -> (held: bool)
        ensures
            held == self.has(capability),
    {
        match capability {
            Capability::Input => self.input,
            Capability::Output => self.output,
            Capability::OpenDrain => self.open_drain,
            Capability::PullUp => self.pull_up,
            Capability::PullDown => self.pull_down,
            Capability::Interrupt => self.interrupt,
            Capability::Pwm => self.pwm,
        }
    }
}

/// The pins that exist on the chip: 0 to 5 and 12 to 16.
pub open spec fn is_physical_pin(id: PinId) -> bool {
    id <= 5 || (12 <= id && id <= 16)
}

/// Tells whether a number names a pin that exists on the chip.
#[verifier::when_used_as_spec(is_physical_pin)]
pub fn pin_exists(id: PinId) -> (physical: bool)
    ensures
        physical == is_physical_pin(id),
{
    id <= 5 || (12 <= id && id <= 16)
}

/// The capability table. Every physical pin can be an input and an output.
/// Pin 16 sits in another power domain: it alone has a pull-down resistor,
/// and it has no pull-up, no open-drain mode, no interrupt and no PWM. A
/// number that names no pin has no capability at all.
pub open spec fn spec_capabilities(id: PinId) -> CapabilitySet {
    CapabilitySet {
        input: is_physical_pin(id),
        output: is_physical_pin(id),
        open_drain: is_physical_pin(id) && id != 16,
        pull_up: is_physical_pin(id) && id != 16,
        pull_down: id == 16,
        interrupt: is_physical_pin(id) && id != 16,
        pwm: is_physical_pin(id) && id != 16,
    }
}

/// Looks a pin up in the capability table.
#[verifier::when_used_as_spec(spec_capabilities)]
pub fn capabilities(id: PinId) -> (set: CapabilitySet)
    ensures
        set == spec_capabilities(id),
{
    let physical = pin_exists(id);
    let low = physical && id != 16;
    CapabilitySet {
        input: physical,
        output: physical,
        open_drain: low,
        pull_up: low,
        pull_down: id == 16,
        interrupt: low,
        pwm: low,
    }
}

/// The mask bit of a pin: bit `id` for a physical pin, no bit otherwise.
pub open spec fn pin_mask(id: PinId) -> PinMask {
    if is_physical_pin(id) {
        1u32 << (id as u32)
    } else {
        0
    }
}

/// Among the physical pins, pin 16 and no other has a pull-down resistor.
pub proof fn lemma_pull_down_only_on_pin_16(id: PinId)
    ensures
        capabilities(id).pull_down <==> id == 16,
        is_physical_pin(id) && id != 16 ==> !capabilities(id).pull_down,
        is_physical_pin(16),
{
}

/// The placeholder for a line that is not wired is no physical pin and has
/// no capability.
pub proof fn lemma_not_connected_has_no_capability(capability: Capability)
    ensures
        !is_physical_pin(NOT_CONNECTED),
        !capabilities(NOT_CONNECTED).has(capability),
        pin_mask(NOT_CONNECTED) == 0,
{
}

/// The masks of two different physical pins share no bit.
pub proof fn lemma_pin_masks_disjoint(a: PinId, b: PinId)
    requires
        is_physical_pin(a),
        is_physical_pin(b),
        a != b,
    ensures
        pin_mask(a) & pin_mask(b) == 0,
        pin_mask(a) != 0,
{
    let x = a as u32;
    let y = b as u32;
    assert(x <= 16 && y <= 16 && x != y ==> ((1u32 << x) & (1u32 << y)) == 0 && (1u32 << x) != 0)
        by (bit_vector);
}

/// Witness that a pin token may be made. Only the bank makes one, so every
/// token comes out of [`GpioHardware`].
pub struct PinGuard {
    _guard: (),
}

/// A pin whose identity is its type.
pub trait GpioPin: Sized {
    /// Number of the pin.
    const PIN_NUM: PinId;

    /// The number names a physical pin or the placeholder.
    proof fn pin_is_known()
        ensures
            is_physical_pin(Self::PIN_NUM) || Self::PIN_NUM == NOT_CONNECTED,
    ;

    /// Makes the token of this pin.
    fn build(_guard: PinGuard) -> Self;

    /// Number of the pin.
    fn get_pin_id() -> (id: PinId)
        ensures
            id == Self::PIN_NUM,
    {
        Self::PIN_NUM
    }

    /// Mask bit of the pin; the placeholder has none.
    fn get_pin_mask() -> (mask: PinMask)
        ensures
            mask == pin_mask(Self::PIN_NUM),
    {
        proof {
            Self::pin_is_known();
        }
        let id = Self::PIN_NUM;
        if id == NOT_CONNECTED {
            0
        } else {
            1u32 << (id as u32)
        }
    }
}

/// Placeholder for a line that is not wired. It is always free, holding it
/// is never recorded, and it supports no configuration.
#[derive(Debug)]
pub struct PhantomPin {
    _guard: (),
}

impl GpioPin for PhantomPin {
    const PIN_NUM: PinId = 255;

    proof fn pin_is_known() {
    }

    fn build(_guard: PinGuard) -> Self {
        PhantomPin { _guard: () }
    }
}

/// Token of pin 0.
#[derive(Debug)]
pub struct Gpio0 {
    _guard: (),
}

/// Token of pin 1.
#[derive(Debug)]
pub struct Gpio1 {
    _guard: (),
}

/// Token of pin 2.
#[derive(Debug)]
pub struct Gpio2 {
    _guard: (),
}

/// Token of pin 3.
#[derive(Debug)]
pub struct Gpio3 {
    _guard: (),
}

/// Token of pin 4.
#[derive(Debug)]
pub struct Gpio4 {
    _guard: (),
}

/// Token of pin 5.
#[derive(Debug)]
pub struct Gpio5 {
    _guard: (),
}

/// Token of pin 12.
#[derive(Debug)]
pub struct Gpio12 {
    _guard: (),
}

/// Token of pin 13.
#[derive(Debug)]
pub struct Gpio13 {
    _guard: (),
}

/// Token of pin 14.
#[derive(Debug)]
pub struct Gpio14 {
    _guard: (),
}

/// Token of pin 15.
#[derive(Debug)]
pub struct Gpio15 {
    _guard: (),
}

/// Token of pin 16.
#[derive(Debug)]
pub struct Gpio16 {
    _guard: (),
}

impl GpioPin for Gpio0 {
    const PIN_NUM: PinId = 0;

    proof fn pin_is_known() {
    }

    fn build(_guard: PinGuard) -> Self {
        Gpio0 { _guard: () }
    }
}

impl GpioPin for Gpio1 {
    const PIN_NUM: PinId = 1;

    proof fn pin_is_known() {
    }

    fn build(_guard: PinGuard) -> Self {
        Gpio1 { _guard: () }
    }
}

impl GpioPin for Gpio2 {
    const PIN_NUM: PinId = 2;

    proof fn pin_is_known() {
    }

    fn build(_guard: PinGuard) -> Self {
        Gpio2 { _guard: () }
    }
}

impl GpioPin for Gpio3 {
    const PIN_NUM: PinId = 3;

    proof fn pin_is_known() {
    }

    fn build(_guard: PinGuard) -> Self {
        Gpio3 { _guard: () }
    }
}

impl GpioPin for Gpio4 {
    const PIN_NUM: PinId = 4;

    proof fn pin_is_known() {
    }

    fn build(_guard: PinGuard) -> Self {
        Gpio4 { _guard: () }
    }
}

impl GpioPin for Gpio5 {
    const PIN_NUM: PinId = 5;

    proof fn pin_is_known() {
    }

    fn build(_guard: PinGuard) -> Self {
        Gpio5 { _guard: () }
    }
}

impl GpioPin for Gpio12 {
    const PIN_NUM: PinId = 12;

    proof fn pin_is_known() {
    }

    fn build(_guard: PinGuard) -> Self {
        Gpio12 { _guard: () }
    }
}

impl GpioPin for Gpio13 {
    const PIN_NUM: PinId = 13;

    proof fn pin_is_known() {
    }

    fn build(_guard: PinGuard) -> Self {
        Gpio13 { _guard: () }
    }
}

impl GpioPin for Gpio14 {
    const PIN_NUM: PinId = 14;

    proof fn pin_is_known() {
    }

    fn build(_guard: PinGuard) -> Self {
        Gpio14 { _guard: () }
    }
}

impl GpioPin for Gpio15 {
    const PIN_NUM: PinId = 15;

    proof fn pin_is_known() {
    }

    fn build(_guard: PinGuard) -> Self {
        Gpio15 { _guard: () }
    }
}

impl GpioPin for Gpio16 {
    const PIN_NUM: PinId = 16;

    proof fn pin_is_known() {
    }

    fn build(_guard: PinGuard) -> Self {
        Gpio16 { _guard: () }
    }
}

/// The number of each pin type.
pub proof fn lemma_pin_numbers()
    ensures
        Gpio0::PIN_NUM == 0,
        Gpio1::PIN_NUM == 1,
        Gpio2::PIN_NUM == 2,
        Gpio3::PIN_NUM == 3,
        Gpio4::PIN_NUM == 4,
        Gpio5::PIN_NUM == 5,
        Gpio12::PIN_NUM == 12,
        Gpio13::PIN_NUM == 13,
        Gpio14::PIN_NUM == 14,
        Gpio15::PIN_NUM == 15,
        Gpio16::PIN_NUM == 16,
        PhantomPin::PIN_NUM == NOT_CONNECTED,
{
}

/// Marks a pin that can be driven as an output. An impl has to show that the capability
/// table agrees.
pub trait OutputPinMarker: GpioPin {
    proof fn in_capability_table()
        ensures
            capabilities(Self::PIN_NUM).output,
    ;
}

/// Marks a pin that can be read as an input. An impl has to show that the capability
/// table agrees.
pub trait InputPinMarker: GpioPin {
    proof fn in_capability_table()
        ensures
            capabilities(Self::PIN_NUM).input,
    ;
}

/// Marks a pin that has an open-drain output mode. An impl has to show that the capability
/// table agrees.
pub trait OpenDrainPinMarker: GpioPin {
    proof fn in_capability_table()
        ensures
            capabilities(Self::PIN_NUM).open_drain,
    ;
}

/// Marks a pin that has a pull-down resistor. An impl has to show that the capability
/// table agrees.
pub trait PullDownPinMarker: GpioPin {
    proof fn in_capability_table()
        ensures
            capabilities(Self::PIN_NUM).pull_down,
    ;
}

/// Marks a pin that has a pull-up resistor. An impl has to show that the capability
/// table agrees.
pub trait PullUpPinMarker: GpioPin {
    proof fn in_capability_table()
        ensures
            capabilities(Self::PIN_NUM).pull_up,
    ;
}

/// Marks a pin that can raise interrupts. An impl has to show that the capability
/// table agrees.
pub trait InterruptPinMarker: GpioPin {
    proof fn in_capability_table()
        ensures
            capabilities(Self::PIN_NUM).interrupt,
    ;
}

/// Marks a pin that can carry a PWM channel. An impl has to show that the capability
/// table agrees.
pub trait PwmPinMarker: GpioPin {
    proof fn in_capability_table()
        ensures
            capabilities(Self::PIN_NUM).pwm,
    ;
}

impl OutputPinMarker for Gpio0 {
    proof fn in_capability_table() {
    }
}

impl OutputPinMarker for Gpio1 {
    proof fn in_capability_table() {
    }
}

impl OutputPinMarker for Gpio2 {
    proof fn in_capability_table() {
    }
}

impl OutputPinMarker for Gpio3 {
    proof fn in_capability_table() {
    }
}

impl OutputPinMarker for Gpio4 {
    proof fn in_capability_table() {
    }
}

impl OutputPinMarker for Gpio5 {
    proof fn in_capability_table() {
    }
}

impl OutputPinMarker for Gpio12 {
    proof fn in_capability_table() {
    }
}

impl OutputPinMarker for Gpio13 {
    proof fn in_capability_table() {
    }
}

impl OutputPinMarker for Gpio14 {
    proof fn in_capability_table() {
    }
}

impl OutputPinMarker for Gpio15 {
    proof fn in_capability_table() {
    }
}

impl OutputPinMarker for Gpio16 {
    proof fn in_capability_table() {
    }
}

impl InputPinMarker for Gpio0 {
    proof fn in_capability_table() {
    }
}

impl InputPinMarker for Gpio1 {
    proof fn in_capability_table() {
    }
}

impl InputPinMarker for Gpio2 {
    proof fn in_capability_table() {
    }
}

impl InputPinMarker for Gpio3 {
    proof fn in_capability_table() {
    }
}

impl InputPinMarker for Gpio4 {
    proof fn in_capability_table() {
    }
}

impl InputPinMarker for Gpio5 {
    proof fn in_capability_table() {
    }
}

impl InputPinMarker for Gpio12 {
    proof fn in_capability_table() {
    }
}

impl InputPinMarker for Gpio13 {
    proof fn in_capability_table() {
    }
}

impl InputPinMarker for Gpio14 {
    proof fn in_capability_table() {
    }
}

impl InputPinMarker for Gpio15 {
    proof fn in_capability_table() {
    }
}

impl InputPinMarker for Gpio16 {
    proof fn in_capability_table() {
    }
}

impl OpenDrainPinMarker for Gpio0 {
    proof fn in_capability_table() {
    }
}

impl OpenDrainPinMarker for Gpio1 {
    proof fn in_capability_table() {
    }
}

impl OpenDrainPinMarker for Gpio2 {
    proof fn in_capability_table() {
    }
}

impl OpenDrainPinMarker for Gpio3 {
    proof fn in_capability_table() {
    }
}

impl OpenDrainPinMarker for Gpio4 {
    proof fn in_capability_table() {
    }
}

impl OpenDrainPinMarker for Gpio5 {
    proof fn in_capability_table() {
    }
}

impl OpenDrainPinMarker for Gpio12 {
    proof fn in_capability_table() {
    }
}

impl OpenDrainPinMarker for Gpio13 {
    proof fn in_capability_table() {
    }
}

impl OpenDrainPinMarker for Gpio14 {
    proof fn in_capability_table() {
    }
}

impl OpenDrainPinMarker for Gpio15 {
    proof fn in_capability_table() {
    }
}

impl PullDownPinMarker for Gpio16 {
    proof fn in_capability_table() {
    }
}

impl PullUpPinMarker for Gpio0 {
    proof fn in_capability_table() {
    }
}

impl PullUpPinMarker for Gpio1 {
    proof fn in_capability_table() {
    }
}

impl PullUpPinMarker for Gpio2 {
    proof fn in_capability_table() {
    }
}

impl PullUpPinMarker for Gpio3 {
    proof fn in_capability_table() {
    }
}

impl PullUpPinMarker for Gpio4 {
    proof fn in_capability_table() {
    }
}

impl PullUpPinMarker for Gpio5 {
    proof fn in_capability_table() {
    }
}

impl PullUpPinMarker for Gpio12 {
    proof fn in_capability_table() {
    }
}

impl PullUpPinMarker for Gpio13 {
    proof fn in_capability_table() {
    }
}

impl PullUpPinMarker for Gpio14 {
    proof fn in_capability_table() {
    }
}

impl PullUpPinMarker for Gpio15 {
    proof fn in_capability_table() {
    }
}

impl InterruptPinMarker for Gpio0 {
    proof fn in_capability_table() {
    }
}

impl InterruptPinMarker for Gpio1 {
    proof fn in_capability_table() {
    }
}

impl InterruptPinMarker for Gpio2 {
    proof fn in_capability_table() {
    }
}

impl InterruptPinMarker for Gpio3 {
    proof fn in_capability_table() {
    }
}

impl InterruptPinMarker for Gpio4 {
    proof fn in_capability_table() {
    }
}

impl InterruptPinMarker for Gpio5 {
    proof fn in_capability_table() {
    }
}

impl InterruptPinMarker for Gpio12 {
    proof fn in_capability_table() {
    }
}

impl InterruptPinMarker for Gpio13 {
    proof fn in_capability_table() {
    }
}

impl InterruptPinMarker for Gpio14 {
    proof fn in_capability_table() {
    }
}

impl InterruptPinMarker for Gpio15 {
    proof fn in_capability_table() {
    }
}

impl PwmPinMarker for Gpio0 {
    proof fn in_capability_table() {
    }
}

impl PwmPinMarker for Gpio1 {
    proof fn in_capability_table() {
    }
}

impl PwmPinMarker for Gpio2 {
    proof fn in_capability_table() {
    }
}

impl PwmPinMarker for Gpio3 {
    proof fn in_capability_table() {
    }
}

impl PwmPinMarker for Gpio4 {
    proof fn in_capability_table() {
    }
}

impl PwmPinMarker for Gpio5 {
    proof fn in_capability_table() {
    }
}

impl PwmPinMarker for Gpio12 {
    proof fn in_capability_table() {
    }
}

impl PwmPinMarker for Gpio13 {
    proof fn in_capability_table() {
    }
}

impl PwmPinMarker for Gpio14 {
    proof fn in_capability_table() {
    }
}

impl PwmPinMarker for Gpio15 {
    proof fn in_capability_table() {
    }
}

/// The kind of peripheral that holds a pin.
#[derive(Copy, Clone, PartialEq, Eq, Structural, Debug)]
pub enum Claimant {
    /// The pin was taken out of the bank for plain GPIO use.
    Gpio,
    /// A UART uses the pin as one of its lines.
    Uart,
    /// The PWM unit drives the pin.
    Pwm,
}

/// The pin is held already.
#[derive(Debug)]
pub struct AlreadyCaptured;

/// Whether a pin can be captured while `held` are the pins in use. The
/// placeholder always can.
pub open spec fn is_free(held: Map<PinId, Claimant>, id: PinId) -> bool {
    id == NOT_CONNECTED || !held.contains_key(id)
}

/// The pins in use after `claimant` captured `id`. Capturing the placeholder
/// leaves no record.
pub open spec fn captured(held: Map<PinId, Claimant>, id: PinId, claimant: Claimant) -> Map<
    PinId,
    Claimant,
> {
    if id == NOT_CONNECTED {
        held
    } else {
        held.insert(id, claimant)
    }
}

/// The pins in use after `id` was released.
pub open spec fn released(held: Map<PinId, Claimant>, id: PinId) -> Map<PinId, Claimant> {
    if id == NOT_CONNECTED {
        held
    } else {
        held.remove(id)
    }
}

/// The pins in use after pin `id` passed to `claimant`, whoever held it
/// before. A number that names no pin leaves no record.
pub open spec fn assigned(held: Map<PinId, Claimant>, id: PinId, claimant: Claimant) -> Map<
    PinId,
    Claimant,
> {
    if is_physical_pin(id) {
        held.insert(id, claimant)
    } else {
        held
    }
}

/// The GPIO bank. It records for every pin which peripheral holds it, if
/// any: a pin has at most one holder.
#[derive(Debug)]
pub struct GpioHardware {
    holders: [Option<Claimant>; PIN_SLOTS],
}

impl View for GpioHardware {
    type V = Map<PinId, Claimant>;

    /// The pins in use, each with its holder.
    closed spec fn view(&self) -> Map<PinId, Claimant> {
        Map::new(
            |id: PinId| id < PIN_SLOTS && self.holders[id as int] is Some,
            |id: PinId| self.holders[id as int]->0,
        )
    }
}

impl GpioHardware {
    /// The bank with every pin free.
    pub fn new(_peripherals: GpioPeripherals) -> (bank: GpioHardware)
        ensures
            bank@ == Map::<PinId, Claimant>::empty(),
    {
        let bank = GpioHardware { holders: [None;17] };
        assert(bank@ =~= Map::<PinId, Claimant>::empty());
        bank
    }

    /// The holder of the pin with the given number.
    pub(crate) fn holder_of(&self, id: PinId) -> (holder: Option<Claimant>)
        ensures
            holder is Some <==> self@.contains_key(id),
            holder is Some ==> holder->0 == self@[id],
    {
        if (id as usize) < PIN_SLOTS {
            self.holders[id as usize]
        } else {
            None
        }
    }

    /// Records `claimant` as the holder of the pin with the given number, if
    /// the pin exists and is free. The placeholder is captured without a
    /// record.
    pub(crate) fn capture_id(&mut self, id: PinId, claimant: Claimant) -> (done: bool)
        ensures
            done <==> (is_physical_pin(id) || id == NOT_CONNECTED) && is_free(old(self)@, id),
            done ==> final(self)@ == captured(old(self)@, id, claimant),
            !done ==> final(self)@ == old(self)@,
    {
        if id == NOT_CONNECTED {
            return true;
        }
        if !pin_exists(id) {
            return false;
        }
        if self.holders[id as usize].is_some() {
            return false;
        }
        self.holders[id as usize] = Some(claimant);
        assert(self@ =~= captured(old(self)@, id, claimant));
        true
    }

    /// Records `claimant` as the holder of the pin with the given number,
    /// whoever held it before. This is for a peripheral that was handed
    /// the token of the pin.
    pub(crate) fn assign_id(&mut self, id: PinId, claimant: Claimant)
        ensures
            final(self)@ == assigned(old(self)@, id, claimant),
    {
        if pin_exists(id) {
            self.holders[id as usize] = Some(claimant);
        }
        assert(self@ =~= assigned(old(self)@, id, claimant));
    }

    /// Clears the record of the pin with the given number.
    pub(crate) fn release_id(&mut self, id: PinId)
        ensures
            final(self)@ == released(old(self)@, id),
    {
        if (id as usize) < PIN_SLOTS {
            self.holders[id as usize] = None;
        }
        assert(self@ =~= released(old(self)@, id));
    }

    /// The peripheral that holds pin `T`, if any.
    pub fn holder<T: GpioPin>(&self) -> (holder: Option<Claimant>)
        ensures
            holder is Some <==> self@.contains_key(T::PIN_NUM),
            holder is Some ==> holder->0 == self@[T::PIN_NUM],
    {
        self.holder_of(T::get_pin_id())
    }

    /// Captures pin `T` for `claimant`. This succeeds exactly if the pin is
    /// free; if it is held, nothing changes.
    pub fn capture<T: GpioPin>(&mut self, claimant: Claimant) -> (result: Result<
        (),
        AlreadyCaptured,
    >)
        ensures
            result is Ok <==> is_free(old(self)@, T::PIN_NUM),
            result is Ok ==> final(self)@ == captured(old(self)@, T::PIN_NUM, claimant),
            result is Err ==> final(self)@ == old(self)@,
    {
        proof {
            T::pin_is_known();
        }
        if self.capture_id(T::get_pin_id(), claimant) {
            Ok(())
        } else {
            Err(AlreadyCaptured)
        }
    }

    /// Releases pin `T`, whoever holds it. Releasing a free pin changes
    /// nothing.
    pub fn release<T: GpioPin>(&mut self)
        ensures
            final(self)@ == released(old(self)@, T::PIN_NUM),
    {
        self.release_id(T::get_pin_id())
    }

    /// Takes pin `T` out of the bank for plain GPIO use. The token is
    /// handed out exactly if the pin is free.
    pub fn take<T: GpioPin>(&mut self) -> (pin: Option<T>)
        ensures
            pin is Some <==> is_free(old(self)@, T::PIN_NUM),
            pin is Some ==> final(self)@ == captured(old(self)@, T::PIN_NUM, Claimant::Gpio),
            pin is None ==> final(self)@ == old(self)@,
    {
        match self.capture::<T>(Claimant::Gpio) {
            Ok(()) => Some(T::build(PinGuard { _guard: () })),
            Err(_) => None,
        }
    }

    /// Puts a pin back into the bank: the pin is free again.
    pub fn give_back<T: GpioPin>(&mut self, pin: T)
        ensures
            final(self)@ == released(old(self)@, T::PIN_NUM),
    {
        self.release::<T>()
    }
}

/// A captured pin is not free: a second capture is refused.
pub proof fn lemma_captured_is_held(held: Map<PinId, Claimant>, id: PinId, claimant: Claimant)
    requires
        id != NOT_CONNECTED,
    ensures
        !is_free(captured(held, id, claimant), id),
        captured(held, id, claimant)[id] == claimant,
{
}

/// A released pin is free, so the next capture of it succeeds, whoever held
/// it before.
pub proof fn lemma_released_is_free(held: Map<PinId, Claimant>, id: PinId)
    ensures
        is_free(released(held, id), id),
{
}

/// Releasing is idempotent, and releasing a free pin changes nothing.
pub proof fn lemma_release_idempotent(held: Map<PinId, Claimant>, id: PinId)
    ensures
        released(released(held, id), id) == released(held, id),
        !held.contains_key(id) ==> released(held, id) == held,
{
    assert(released(released(held, id), id) =~= released(held, id));
    if !held.contains_key(id) {
        assert(released(held, id) =~= held);
    }
}

/// Capturing a free pin and releasing it again restores the records.
pub proof fn lemma_capture_release_restores(
    held: Map<PinId, Claimant>,
    id: PinId,
    claimant: Claimant,
)
    requires
        is_free(held, id),
    ensures
        released(captured(held, id, claimant), id) == held,
{
    assert(released(captured(held, id, claimant), id) =~= held);
}

/// The placeholder is free whatever is held, and capturing it leaves no
/// record.
pub proof fn lemma_not_connected_always_free(held: Map<PinId, Claimant>, claimant: Claimant)
    ensures
        is_free(held, NOT_CONNECTED),
        captured(held, NOT_CONNECTED, claimant) == held,
{
}

/// Capturing or releasing one pin leaves the record of every other pin as
/// it was.
pub proof fn lemma_other_pins_untouched(
    held: Map<PinId, Claimant>,
    id: PinId,
    other: PinId,
    claimant: Claimant,
)
    requires
        other != id,
    ensures
        captured(held, id, claimant).contains_key(other) == held.contains_key(other),
        held.contains_key(other) ==> captured(held, id, claimant)[other] == held[other],
        released(held, id).contains_key(other) == held.contains_key(other),
        held.contains_key(other) ==> released(held, id)[other] == held[other],
{
}

/// When a pin raises an interrupt.
#[derive(Copy, Clone, PartialEq, Eq, Structural, Debug)]
pub enum PinInterruptMode {
    Disabled,
    PositiveEdge,
    NegativeEdge,
    AnyEdge,
    LowLevel,
    HighLevel,
}

/// Direction of a pin.
#[derive(Copy, Clone, PartialEq, Eq, Structural, Debug)]
pub enum PinMode {
    Disabled,
    Input,
    Output,
    OutputOpenDrain,
}

/// Configuration of a pin as the driver takes it.
#[derive(Copy, Clone, PartialEq, Eq, Structural, Debug)]
pub struct GpioConfig {
    /// The pins that the configuration applies to.
    pub pin_bit_mask: PinMask,
    pub mode: PinMode,
    pub pull_up: bool,
    pub pull_down: bool,
    pub interrupt: PinInterruptMode,
}

impl GpioConfig {
    /// The configuration of a pin that nothing was asked of: direction,
    /// resistors and interrupt are all disabled.
    pub open spec fn disabled(pin: PinId) -> GpioConfig {
        GpioConfig {
            pin_bit_mask: pin_mask(pin),
            mode: PinMode::Disabled,
            pull_up: false,
            pull_down: false,
            interrupt: PinInterruptMode::Disabled,
        }
    }
}

/// A call into the pin driver.
#[derive(Copy, Clone, PartialEq, Eq, Structural, Debug)]
pub enum GpioCommand {
    /// Commit a whole configuration.
    Configure(GpioConfig),
    /// Switch the pull-up resistor of a pin.
    SetPullUp { pin: PinId, enabled: bool },
    /// Switch the pull-down resistor of a pin.
    SetPullDown { pin: PinId, enabled: bool },
    /// Set the direction of a pin.
    SetDirection { pin: PinId, mode: PinMode },
    /// Set the interrupt type of a pin.
    SetInterruptType { pin: PinId, trigger: PinInterruptMode },
    /// Drive the pin high or low.
    SetLevel { pin: PinId, high: bool },
    /// Read the level of the pin.
    GetLevel { pin: PinId },
}

/// A setting of a pin configuration, with the capability that it needs.
#[derive(Copy, Clone, PartialEq, Eq, Structural, Debug)]
pub enum PinSetting {
    PullUp(bool),
    PullDown(bool),
    Mode(PinMode),
    Interrupt(PinInterruptMode),
}

impl PinSetting {
    /// The capability that a pin must have for the setting. Disabling the
    /// direction needs none.
    pub open spec fn needs(self) -> Option<Capability> {
        match self {
            PinSetting::PullUp(_) => Some(Capability::PullUp),
            PinSetting::PullDown(_) => Some(Capability::PullDown),
            PinSetting::Mode(PinMode::Disabled) => None,
            PinSetting::Mode(PinMode::Input) => Some(Capability::Input),
            PinSetting::Mode(PinMode::Output) => Some(Capability::Output),
            PinSetting::Mode(PinMode::OutputOpenDrain) => Some(Capability::OpenDrain),
            PinSetting::Interrupt(_) => Some(Capability::Interrupt),
        }
    }

    /// Whether the pin with number `pin` supports the setting.
    pub open spec fn allowed_on(self, pin: PinId) -> bool {
        match self.needs() {
            Some(capability) => capabilities(pin).has(capability),
            None => true,
        }
    }

    /// `config` with the setting applied.
    pub open spec fn apply(self, config: GpioConfig) -> GpioConfig {
        match self {
            PinSetting::PullUp(enabled) => GpioConfig { pull_up: enabled, ..config },
            PinSetting::PullDown(enabled) => GpioConfig { pull_down: enabled, ..config },
            PinSetting::Mode(mode) => GpioConfig { mode, ..config },
            PinSetting::Interrupt(mode) => GpioConfig { interrupt: mode, ..config },
        }
    }

    /// The driver call that applies the setting to a pin that is in use.
    pub open spec fn command(self, pin: PinId) -> GpioCommand {
        match self {
            PinSetting::PullUp(enabled) => GpioCommand::SetPullUp { pin, enabled },
            PinSetting::PullDown(enabled) => GpioCommand::SetPullDown { pin, enabled },
            PinSetting::Mode(mode) => GpioCommand::SetDirection { pin, mode },
            PinSetting::Interrupt(mode) => GpioCommand::SetInterruptType { pin, trigger: mode },
        }
    }

    /// Tells whether the pin with number `pin` supports the setting.
    pub fn is_allowed_on(self, pin: PinId) -> (allowed: bool)
        ensures
            allowed == self.allowed_on(pin),
    {
        let set = capabilities(pin);
        match self {
            PinSetting::PullUp(_) => set.pull_up,
            PinSetting::PullDown(_) => set.pull_down,
            PinSetting::Mode(PinMode::Disabled) => true,
            PinSetting::Mode(PinMode::Input) => set.input,
            PinSetting::Mode(PinMode::Output) => set.output,
            PinSetting::Mode(PinMode::OutputOpenDrain) => set.open_drain,
            PinSetting::Interrupt(_) => set.interrupt,
        }
    }

    /// Applies the setting to `config`.
    pub fn apply_to(self, config: GpioConfig) -> (changed: GpioConfig)
        ensures
            changed == self.apply(config),
    {
        let mut changed = config;
        match self {
            PinSetting::PullUp(enabled) => {
                changed.pull_up = enabled;
            },
            PinSetting::PullDown(enabled) => {
                changed.pull_down = enabled;
            },
            PinSetting::Mode(mode) => {
                changed.mode = mode;
            },
            PinSetting::Interrupt(mode) => {
                changed.interrupt = mode;
            },
        }
        changed
    }

    /// The driver call that applies the setting to the pin with number
    /// `pin`.
    pub fn to_command(self, pin: PinId) -> (command: GpioCommand)
        ensures
            command == self.command(pin),
    {
        match self {
            PinSetting::PullUp(enabled) => GpioCommand::SetPullUp { pin, enabled },
            PinSetting::PullDown(enabled) => GpioCommand::SetPullDown { pin, enabled },
            PinSetting::Mode(mode) => GpioCommand::SetDirection { pin, mode },
            PinSetting::Interrupt(mode) => GpioCommand::SetInterruptType { pin, trigger: mode },
        }
    }
}

/// Why a draft of a pin configuration is refused.
#[derive(Copy, Clone, PartialEq, Eq, Structural, Debug)]
pub enum GpioDraftError {
    /// The pin lacks the capability that a setting needs.
    NotSupported(Capability),
}

/// The model of a draft: the pin, the settings so far, and the first error.
pub struct GpioDraftView {
    pub pin: PinId,
    pub config: GpioConfig,
    pub pending_error: Option<GpioDraftError>,
}

impl GpioDraftView {
    /// The draft after `setting` was asked for. On the placeholder nothing
    /// happens. A setting that the pin supports is stored. One that it does
    /// not support leaves the settings alone and is remembered as the error
    /// of the draft, unless an earlier error is remembered already.
    pub open spec fn with(self, setting: PinSetting) -> GpioDraftView {
        if self.pin == NOT_CONNECTED {
            self
        } else if setting.allowed_on(self.pin) {
            GpioDraftView { config: setting.apply(self.config), ..self }
        } else if self.pending_error is Some {
            self
        } else {
            GpioDraftView {
                pending_error: Some(GpioDraftError::NotSupported(setting.needs()->0)),
                ..self
            }
        }
    }
}

/// A pin configuration under construction, for a pin that is chosen at run
/// time. Every setting is checked against the capability table.
#[derive(Debug)]
pub struct GpioDraft {
    pin: PinId,
    config: GpioConfig,
    pending_error: Option<GpioDraftError>,
}

impl View for GpioDraft {
    type V = GpioDraftView;

    closed spec fn view(&self) -> GpioDraftView {
        GpioDraftView { pin: self.pin, config: self.config, pending_error: self.pending_error }
    }
}

/// The mask bit of the pin with the given number.
fn mask_of(pin: PinId) -> (mask: PinMask)
    ensures
        mask == pin_mask(pin),
{
    if pin_exists(pin) {
        1u32 << (pin as u32)
    } else {
        0
    }
}

impl GpioDraft {
    /// A draft for the pin with number `pin`, with everything disabled.
    pub fn new(pin: PinId) -> (draft: GpioDraft)
        ensures
            draft@ == (GpioDraftView {
                pin,
                config: GpioConfig::disabled(pin),
                pending_error: None,
            }),
    {
        GpioDraft {
            pin,
            config: GpioConfig {
                pin_bit_mask: mask_of(pin),
                mode: PinMode::Disabled,
                pull_up: false,
                pull_down: false,
                interrupt: PinInterruptMode::Disabled,
            },
            pending_error: None,
        }
    }

    /// Asks for `setting`.
    pub fn set(self, setting: PinSetting) -> (draft: GpioDraft)
        ensures
            draft@ == self@.with(setting),
    {
        let mut draft = self;
        if draft.pin == NOT_CONNECTED {
            return draft;
        }
        if setting.is_allowed_on(draft.pin) {
            draft.config = setting.apply_to(draft.config);
        } else if draft.pending_error.is_none() {
            let missing = match setting {
                PinSetting::PullUp(_) => Capability::PullUp,
                PinSetting::PullDown(_) => Capability::PullDown,
                PinSetting::Mode(PinMode::Output) => Capability::Output,
                PinSetting::Mode(PinMode::OutputOpenDrain) => Capability::OpenDrain,
                PinSetting::Mode(_) => Capability::Input,
                PinSetting::Interrupt(_) => Capability::Interrupt,
            };
            draft.pending_error = Some(GpioDraftError::NotSupported(missing));
        }
        draft
    }

    /// Asks for the pull-up resistor.
    pub fn enable_pull_up(self) -> (draft: GpioDraft)
        ensures
            draft@ == self@.with(PinSetting::PullUp(true)),
    {
        self.set(PinSetting::PullUp(true))
    }

    /// Asks for the pull-down resistor.
    pub fn enable_pull_down(self) -> (draft: GpioDraft)
        ensures
            draft@ == self@.with(PinSetting::PullDown(true)),
    {
        self.set(PinSetting::PullDown(true))
    }

    /// Asks for the pin to be an input.
    pub fn configure_as_input(self) -> (draft: GpioDraft)
        ensures
            draft@ == self@.with(PinSetting::Mode(PinMode::Input)),
    {
        self.set(PinSetting::Mode(PinMode::Input))
    }

    /// Asks for the pin to be an output.
    pub fn configure_as_output(self) -> (draft: GpioDraft)
        ensures
            draft@ == self@.with(PinSetting::Mode(PinMode::Output)),
    {
        self.set(PinSetting::Mode(PinMode::Output))
    }

    /// Asks for the pin to be an open-drain output.
    pub fn configure_as_open_drain(self) -> (draft: GpioDraft)
        ensures
            draft@ == self@.with(PinSetting::Mode(PinMode::OutputOpenDrain)),
    {
        self.set(PinSetting::Mode(PinMode::OutputOpenDrain))
    }

    /// Asks for an interrupt mode.
    pub fn set_interrupt_mode(self, mode: PinInterruptMode) -> (draft: GpioDraft)
        ensures
            draft@ == self@.with(PinSetting::Interrupt(mode)),
    {
        self.set(PinSetting::Interrupt(mode))
    }

    /// Finishes the draft: the first error that was remembered, or else the
    /// configuration.
    pub fn build(self) -> (result: Result<GpioConfig, GpioDraftError>)
        ensures
            match self@.pending_error {
                Some(error) => result == Err::<GpioConfig, GpioDraftError>(error),
                None => result == Ok::<GpioConfig, GpioDraftError>(self@.config),
            },
    {
        match self.pending_error {
            Some(error) => Err(error),
            None => Ok(self.config),
        }
    }
}

/// A setting that the pin lacks the capability for poisons a clean draft;
/// one that the pin supports never does. The placeholder accepts every
/// setting and keeps none.
pub proof fn lemma_draft_gating(draft: GpioDraftView, setting: PinSetting)
    requires
        draft.pending_error is None,
    ensures
        draft.pin != NOT_CONNECTED && !setting.allowed_on(draft.pin) ==> draft.with(
            setting,
        ).pending_error is Some && draft.with(setting).config == draft.config,
        draft.pin != NOT_CONNECTED && setting.allowed_on(draft.pin) ==> draft.with(
            setting,
        ).pending_error is None && draft.with(setting).config == setting.apply(draft.config),
        draft.pin == NOT_CONNECTED ==> draft.with(setting) == draft,
{
}

/// The first error of a draft stays: no later setting replaces or clears
/// it.
pub proof fn lemma_draft_keeps_first_error(draft: GpioDraftView, setting: PinSetting)
    requires
        draft.pending_error is Some,
    ensures
        draft.with(setting).pending_error == draft.pending_error,
{
}

/// Enabling the pull-down resistor is refused on every physical pin but pin
/// 16, where it is accepted.
pub proof fn lemma_pull_down_gating(draft: GpioDraftView)
    requires
        draft.pending_error is None,
        is_physical_pin(draft.pin),
    ensures
        draft.pin == 16 ==> draft.with(PinSetting::PullDown(true)).pending_error is None
            && draft.with(PinSetting::PullDown(true)).config.pull_down,
        draft.pin != 16 ==> draft.with(PinSetting::PullDown(true)).pending_error == Some(
            GpioDraftError::NotSupported(Capability::PullDown),
        ),
{
}

/// Configuration of a pin that is about to be put to use. Which settings
/// are offered depends on the markers of the pin type.
#[derive(Debug)]
pub struct PinInitializer<T: GpioPin> {
    pin: T,
    config: GpioConfig,
}

/// A pin in use. It keeps track of how the pin is configured.
#[derive(Debug)]
pub struct InitializedPin<T: GpioPin> {
    pin: T,
    config: GpioConfig,
}

impl<T: GpioPin> PinInitializer<T> {
    /// The configuration collected so far.
    pub closed spec fn config(&self) -> GpioConfig {
        self.config
    }

    /// The token of the pin.
    pub closed spec fn pin(&self) -> T {
        self.pin
    }

    /// Starts the configuration of a pin. The token is kept until the pin
    /// is given up again.
    pub fn new(pin: T) -> (initializer: Self)
        ensures
            initializer.config() == GpioConfig::disabled(T::PIN_NUM),
            initializer.pin() == pin,
    {
        Self {
            config: GpioConfig {
                pin_bit_mask: T::get_pin_mask(),
                mode: PinMode::Disabled,
                pull_up: false,
                pull_down: false,
                interrupt: PinInterruptMode::Disabled,
            },
            pin,
        }
    }

    /// Gives the configuration up and hands the token back.
    pub fn into_pin(self) -> (pin: T)
        ensures
            pin == self.pin(),
    {
        self.pin
    }

    /// Stores a setting.
    fn with(self, setting: PinSetting) -> (initializer: Self)
        ensures
            initializer.config() == setting.apply(self.config()),
            initializer.pin() == self.pin(),
    {
        let mut initializer = self;
        initializer.config = setting.apply_to(initializer.config);
        initializer
    }

    pub fn enable_pull_up(self) -> (initializer: Self) where T: PullUpPinMarker
        ensures
            PinSetting::PullUp(true).allowed_on(T::PIN_NUM),
            initializer.config() == PinSetting::PullUp(true).apply(self.config()),
            initializer.pin() == self.pin(),
    {
        proof {
            <T as PullUpPinMarker>::in_capability_table();
        }
        self.with(PinSetting::PullUp(true))
    }

    pub fn enable_pull_down(self) -> (initializer: Self) where T: PullDownPinMarker
        ensures
            PinSetting::PullDown(true).allowed_on(T::PIN_NUM),
            initializer.config() == PinSetting::PullDown(true).apply(self.config()),
            initializer.pin() == self.pin(),
    {
        proof {
            <T as PullDownPinMarker>::in_capability_table();
        }
        self.with(PinSetting::PullDown(true))
    }

    pub fn configure_as_input(self) -> (initializer: Self) where T: InputPinMarker
        ensures
            PinSetting::Mode(PinMode::Input).allowed_on(T::PIN_NUM),
            initializer.config() == PinSetting::Mode(PinMode::Input).apply(self.config()),
            initializer.pin() == self.pin(),
    {
        proof {
            <T as InputPinMarker>::in_capability_table();
        }
        self.with(PinSetting::Mode(PinMode::Input))
    }

    pub fn configure_as_output(self) -> (initializer: Self) where T: OutputPinMarker
        ensures
            PinSetting::Mode(PinMode::Output).allowed_on(T::PIN_NUM),
            initializer.config() == PinSetting::Mode(PinMode::Output).apply(self.config()),
            initializer.pin() == self.pin(),
    {
        proof {
            <T as OutputPinMarker>::in_capability_table();
        }
        self.with(PinSetting::Mode(PinMode::Output))
    }

    pub fn configure_as_open_drain(self) -> (initializer: Self) where T: OpenDrainPinMarker
        ensures
            PinSetting::Mode(PinMode::OutputOpenDrain).allowed_on(T::PIN_NUM),
            initializer.config() == PinSetting::Mode(PinMode::OutputOpenDrain).apply(
                self.config(),
            ),
            initializer.pin() == self.pin(),
    {
        proof {
            <T as OpenDrainPinMarker>::in_capability_table();
        }
        self.with(PinSetting::Mode(PinMode::OutputOpenDrain))
    }

    pub fn set_interrupt_mode(self, mode: PinInterruptMode) -> (initializer: Self) where
        T: InterruptPinMarker,

        ensures
            PinSetting::Interrupt(mode).allowed_on(T::PIN_NUM),
            initializer.config() == PinSetting::Interrupt(mode).apply(self.config()),
            initializer.pin() == self.pin(),
    {
        proof {
            <T as InterruptPinMarker>::in_capability_table();
        }
        self.with(PinSetting::Interrupt(mode))
    }

    /// Puts the pin to use. The second component is the driver call that
    /// commits the configuration.
    pub fn init(self) -> (started: (InitializedPin<T>, GpioCommand))
        ensures
            started.0.config() == self.config(),
            started.0.pin() == self.pin(),
            started.1 == GpioCommand::Configure(self.config()),
    {
        let command = GpioCommand::Configure(self.config);
        (InitializedPin { pin: self.pin, config: self.config }, command)
    }
}

impl<T: GpioPin> InitializedPin<T> {
    /// How the pin is configured now.
    pub closed spec fn config(&self) -> GpioConfig {
        self.config
    }

    /// The token of the pin.
    pub closed spec fn pin(&self) -> T {
        self.pin
    }

    /// Takes the pin out of use and hands its token back. The second
    /// component is the driver call that disables the pin.
    pub fn downgrade(self) -> (stopped: (T, GpioCommand))
        ensures
            stopped.0 == self.pin(),
            stopped.1 == GpioCommand::Configure(GpioConfig::disabled(T::PIN_NUM)),
    {
        let command = GpioCommand::Configure(
            GpioConfig {
                pin_bit_mask: T::get_pin_mask(),
                mode: PinMode::Disabled,
                pull_up: false,
                pull_down: false,
                interrupt: PinInterruptMode::Disabled,
            },
        );
        (self.pin, command)
    }

    /// Stores a setting and yields the driver call that applies it.
    fn change(&mut self, setting: PinSetting) -> (command: GpioCommand)
        ensures
            final(self).config() == setting.apply(old(self).config()),
            final(self).pin() == old(self).pin(),
            command == setting.command(T::PIN_NUM),
    {
        self.config = setting.apply_to(self.config);
        setting.to_command(T::get_pin_id())
    }

    pub fn enable_pull_up(&mut self) -> (command: GpioCommand) where T: PullUpPinMarker
        ensures
            PinSetting::PullUp(true).allowed_on(T::PIN_NUM),
            final(self).pin() == old(self).pin(),
            final(self).config() == PinSetting::PullUp(true).apply(old(self).config()),
            command == (GpioCommand::SetPullUp { pin: T::PIN_NUM, enabled: true }),
    {
        proof {
            <T as PullUpPinMarker>::in_capability_table();
        }
        self.change(PinSetting::PullUp(true))
    }

    pub fn disable_pull_up(&mut self) -> (command: GpioCommand) where T: PullUpPinMarker
        ensures
            PinSetting::PullUp(false).allowed_on(T::PIN_NUM),
            final(self).pin() == old(self).pin(),
            final(self).config() == PinSetting::PullUp(false).apply(old(self).config()),
            command == (GpioCommand::SetPullUp { pin: T::PIN_NUM, enabled: false }),
    {
        proof {
            <T as PullUpPinMarker>::in_capability_table();
        }
        self.change(PinSetting::PullUp(false))
    }

    pub fn enable_pull_down(&mut self) -> (command: GpioCommand) where T: PullDownPinMarker
        ensures
            PinSetting::PullDown(true).allowed_on(T::PIN_NUM),
            final(self).pin() == old(self).pin(),
            final(self).config() == PinSetting::PullDown(true).apply(old(self).config()),
            command == (GpioCommand::SetPullDown { pin: T::PIN_NUM, enabled: true }),
    {
        proof {
            <T as PullDownPinMarker>::in_capability_table();
        }
        self.change(PinSetting::PullDown(true))
    }

    pub fn disable_pull_down(&mut self) -> (command: GpioCommand) where T: PullDownPinMarker
        ensures
            PinSetting::PullDown(false).allowed_on(T::PIN_NUM),
            final(self).pin() == old(self).pin(),
            final(self).config() == PinSetting::PullDown(false).apply(old(self).config()),
            command == (GpioCommand::SetPullDown { pin: T::PIN_NUM, enabled: false }),
    {
        proof {
            <T as PullDownPinMarker>::in_capability_table();
        }
        self.change(PinSetting::PullDown(false))
    }

    pub fn configure_as_input(&mut self) -> (command: GpioCommand) where T: InputPinMarker
        ensures
            PinSetting::Mode(PinMode::Input).allowed_on(T::PIN_NUM),
            final(self).pin() == old(self).pin(),
            final(self).config() == PinSetting::Mode(PinMode::Input).apply(old(self).config()),
            command == (GpioCommand::SetDirection { pin: T::PIN_NUM, mode: PinMode::Input }),
    {
        proof {
            <T as InputPinMarker>::in_capability_table();
        }
        self.change(PinSetting::Mode(PinMode::Input))
    }

    pub fn configure_as_output(&mut self) -> (command: GpioCommand) where T: OutputPinMarker
        ensures
            PinSetting::Mode(PinMode::Output).allowed_on(T::PIN_NUM),
            final(self).pin() == old(self).pin(),
            final(self).config() == PinSetting::Mode(PinMode::Output).apply(old(self).config()),
            command == (GpioCommand::SetDirection { pin: T::PIN_NUM, mode: PinMode::Output }),
    {
        proof {
            <T as OutputPinMarker>::in_capability_table();
        }
        self.change(PinSetting::Mode(PinMode::Output))
    }

    pub fn configure_as_open_drain(&mut self) -> (command: GpioCommand) where
        T: OpenDrainPinMarker,

        ensures
            PinSetting::Mode(PinMode::OutputOpenDrain).allowed_on(T::PIN_NUM),
            final(self).pin() == old(self).pin(),
            final(self).config() == PinSetting::Mode(PinMode::OutputOpenDrain).apply(
                old(self).config(),
            ),
            command == (GpioCommand::SetDirection {
                pin: T::PIN_NUM,
                mode: PinMode::OutputOpenDrain,
            }),
    {
        proof {
            <T as OpenDrainPinMarker>::in_capability_table();
        }
        self.change(PinSetting::Mode(PinMode::OutputOpenDrain))
    }

    pub fn set_interrupt_mode(&mut self, mode: PinInterruptMode) -> (command: GpioCommand) where
        T: InterruptPinMarker,

        ensures
            PinSetting::Interrupt(mode).allowed_on(T::PIN_NUM),
            final(self).pin() == old(self).pin(),
            final(self).config() == PinSetting::Interrupt(mode).apply(old(self).config()),
            command == (GpioCommand::SetInterruptType { pin: T::PIN_NUM, trigger: mode }),
    {
        proof {
            <T as InterruptPinMarker>::in_capability_table();
        }
        self.change(PinSetting::Interrupt(mode))
    }

    /// The configuration as it stands.
    pub fn current_config(&self) -> (config: GpioConfig)
        ensures
            config == self.config(),
    {
        self.config
    }
}

/// A pin whose level can be read.
pub trait InputPin: Sized {
    /// The number of the pin.
    spec fn pin_id(&self) -> PinId;

    /// The driver call that reads the level.
    fn level_request(&self) -> (command: GpioCommand)
        ensures
            command == (GpioCommand::GetLevel { pin: self.pin_id() }),
    ;

    /// The level that the driver's answer `raw` stands for: high unless it
    /// is zero.
    fn get_level(&self, raw: i32) -> (high: bool)
        ensures
            high == (raw != 0),
    ;
}

impl<T> InputPin for InitializedPin<T> where T: GpioPin + InputPinMarker {
    open spec fn pin_id(&self) -> PinId {
        T::PIN_NUM
    }

    fn level_request(&self) -> (command: GpioCommand) {
        GpioCommand::GetLevel { pin: T::get_pin_id() }
    }

    fn get_level(&self, raw: i32) -> (high: bool) {
        raw != 0
    }
}

/// A pin that can be driven.
pub trait OutputPin: Sized {
    /// The number of the pin.
    spec fn pin_id(&self) -> PinId;

    /// The driver call that drives the pin high or low.
    fn set_level(&mut self, value: bool) -> (command: GpioCommand)
        ensures
            command == (GpioCommand::SetLevel { pin: old(self).pin_id(), high: value }),
            *final(self) == *old(self),
    ;
}

impl<T> OutputPin for InitializedPin<T> where T: GpioPin + OutputPinMarker {
    open spec fn pin_id(&self) -> PinId {
        T::PIN_NUM
    }

    fn set_level(&mut self, value: bool) -> (command: GpioCommand) {
        GpioCommand::SetLevel { pin: T::get_pin_id(), high: value }
    }
}

} // verus!
