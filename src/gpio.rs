//! GPIO pins. Each operation computes the register word that carries it out:
//! a configuration operation takes the register's current value and returns
//! the value with the pin's field replaced, and an output operation returns
//! the word to write to the set/reset register (BSRR).

use vstd::prelude::*;

verus! {

/// Pin function, the MODER field.
#[derive(Copy, Clone, Debug, PartialEq, Eq, Structural)]
pub enum PinMode {
    Input,
    Output,
    Alt(u8),
    Analog,
}

impl PinMode {
    pub open spec fn spec_val(self) -> u32 {
        match self {
            PinMode::Input => 0b00,
            PinMode::Output => 0b01,
            PinMode::Alt(_) => 0b10,
            PinMode::Analog => 0b11,
        }
    }

    /// The MODER field value.
    pub fn val(&self) -> (r: u32)
        ensures
            r == self.spec_val(),
    {
        match self {
            PinMode::Input => 0b00,
            PinMode::Output => 0b01,
            PinMode::Alt(_) => 0b10,
            PinMode::Analog => 0b11,
        }
    }
}

/// Output driver, the OTYPER bit.
#[derive(Copy, Clone, Debug, PartialEq, Eq, Structural)]
pub enum OutputType {
    PushPull,
    OpenDrain,
}

impl OutputType {
    pub open spec fn spec_val(self) -> u32 {
        match self {
            OutputType::PushPull => 0,
            OutputType::OpenDrain => 1,
        }
    }

    pub fn val(&self) -> (r: u32)
        ensures
            r == self.spec_val(),
    {
        match self {
            OutputType::PushPull => 0,
            OutputType::OpenDrain => 1,
        }
    }
}

/// Output slew rate, the OSPEEDR field.
#[derive(Copy, Clone, Debug, PartialEq, Eq, Structural)]
pub enum OutputSpeed {
    Low,
    Medium,
    High,
    VeryHigh,
}

impl OutputSpeed {
    pub open spec fn spec_val(self) -> u32 {
        match self {
            OutputSpeed::Low => 0b00,
            OutputSpeed::Medium => 0b01,
            OutputSpeed::High => 0b10,
            OutputSpeed::VeryHigh => 0b11,
        }
    }

    pub fn val(&self) -> (r: u32)
        ensures
            r == self.spec_val(),
    {
        match self {
            OutputSpeed::Low => 0b00,
            OutputSpeed::Medium => 0b01,
            OutputSpeed::High => 0b10,
            OutputSpeed::VeryHigh => 0b11,
        }
    }
}

/// Pull resistor, the PUPDR field.
#[derive(Copy, Clone, Debug, PartialEq, Eq, Structural)]
pub enum Pull {
    Floating,
    Up,
    Down,
}

impl Pull {
    pub open spec fn spec_val(self) -> u32 {
        match self {
            Pull::Floating => 0b00,
            Pull::Up => 0b01,
            Pull::Down => 0b10,
        }
    }

    pub fn val(&self) -> (r: u32)
        ensures
            r == self.spec_val(),
    {
        match self {
            Pull::Floating => 0b00,
            Pull::Up => 0b01,
            Pull::Down => 0b10,
        }
    }
}

/// Logic level of a pin.
#[derive(Copy, Clone, Debug, PartialEq, Eq, Structural)]
pub enum PinState {
    High,
    Low,
}

/// Values for `GPIOx_LCKR`.
#[derive(Copy, Clone, Debug, PartialEq, Eq, Structural)]
pub enum CfgLock {
    NotLocked,
    Locked,
}

impl CfgLock {
    pub open spec fn spec_val(self) -> u32 {
        match self {
            CfgLock::NotLocked => 0,
            CfgLock::Locked => 1,
        }
    }

    pub fn val(&self) -> (r: u32)
        ensures
            r == self.spec_val(),
    {
        match self {
            CfgLock::NotLocked => 0,
            CfgLock::Locked => 1,
        }
    }
}

/// Values for `GPIOx_BRR`.
#[derive(Copy, Clone, Debug, PartialEq, Eq, Structural)]
pub enum ResetState {
    NoAction,
    Reset,
}

/// A GPIO port.
#[derive(Copy, Clone, Debug, PartialEq, Eq, Structural)]
pub enum Port {
    A,
    B,
    C,
    D,
    E,
    F,
    G,
    H,
    I,
}

impl Port {
    /// Position of the port, A being 0; also the bit of its clock gate in
    /// RCC_AHB2ENR.
    pub open spec fn index(self) -> u32 {
        match self {
            Port::A => 0,
            Port::B => 1,
            Port::C => 2,
            Port::D => 3,
            Port::E => 4,
            Port::F => 5,
            Port::G => 6,
            Port::H => 7,
            Port::I => 8,
        }
    }

    pub fn cr_val(&self) -> (r: u8)
        ensures
            r == self.index(),
    {
        match self {
            Port::A => 0,
            Port::B => 1,
            Port::C => 2,
            Port::D => 3,
            Port::E => 4,
            Port::F => 5,
            Port::G => 6,
            Port::H => 7,
            Port::I => 8,
        }
    }

    /// The register work that turns on this port's clock, given the current
    /// RCC_AHB2ENR value; `None` when its clock is already on.
    pub fn clock_setup(&self, ahb2enr: u32) -> (r: Option<PortClockSetup>)
        ensures
            field_of(ahb2enr, self.index(), 1) == 1 ==> r is None,
            field_of(ahb2enr, self.index(), 1) == 0 ==> (r matches Some(s) && field_of(
                s.ahb2enr,
                self.index(),
                1,
            ) == 1 && others_of(s.ahb2enr, self.index(), 1) == others_of(ahb2enr, self.index(), 1)
                && s.io_supply == (*self == Port::G) && s.reset_pulse == (*self == Port::I)),
    {
        let bit = self.cr_val() as u32;
        if (ahb2enr >> bit) & 1 == 1 {
            None
        } else {
            Some(
                PortClockSetup {
                    ahb2enr: write_field(ahb2enr, bit, 1, 1),
                    io_supply: matches!(self, Port::G),
                    reset_pulse: matches!(self, Port::I),
                },
            )
        }
    }
}

/// The register work that turns on a port's clock.
#[derive(Copy, Clone, Debug, PartialEq, Eq, Structural)]
pub struct PortClockSetup {
    /// The value to write to RCC_AHB2ENR.
    pub ahb2enr: u32,
    /// Set RCC_APB1ENR1.PWREN and PWR_CR2.IOSV.
    pub io_supply: bool,
    /// Set, then clear, the port's bit in RCC_AHB2RSTR.
    pub reset_pulse: bool,
}

/// The register writes that set up a pin.
#[derive(Copy, Clone, Debug, PartialEq, Eq, Structural)]
pub struct PinSetup {
    /// Turning on the port's clock, if it is off.
    pub clock: Option<PortClockSetup>,
    /// The value to write to the port's MODER.
    pub moder: u32,
}

/// The pulse edge used to trigger interrupts. Either rising, falling, or either.
#[derive(Copy, Clone, Debug, PartialEq, Eq, Structural)]
pub enum Edge {
    /// Interrupts trigger on rising pin edge.
    Rising,
    /// Interrupts trigger on falling pin edge.
    Falling,
    /// Interrupts trigger on either rising or falling pin edges.
    Either,
}

/// The field of `word` that `mask` covers once shifted left by `shift`.
pub open spec fn field_of(word: u32, shift: u32, mask: u32) -> u32 {
    (word >> shift) & mask
}

/// `word` with that field cleared.
pub open spec fn others_of(word: u32, shift: u32, mask: u32) -> u32 {
    word & !(mask << shift)
}

/// `word` with the field at `shift` replaced by `value`.
fn write_field(word: u32, shift: u32, mask: u32, value: u32) -> (r: u32)
    requires
        mask == 1 || mask == 3,
        shift <= 30,
        value <= mask,
    ensures
        field_of(r, shift, mask) == value,
        others_of(r, shift, mask) == others_of(word, shift, mask),
{
    let r = (word & !(mask << shift)) | (value << shift);
    assert(((((word & !(mask << shift)) | (value << shift)) >> shift) & mask) == value && (((word
        & !(mask << shift)) | (value << shift)) & !(mask << shift)) == (word & !(mask << shift)))
        by (bit_vector)
        requires
            mask == 1 || mask == 3,
            shift <= 30,
            value <= mask,
    ;
    r
}

/// A pin: a port and a position from 0 to 15.
#[derive(Copy, Clone, Debug)]
pub struct Pin {
    pub port: Port,
    pub pin: u8,
}

impl Pin {
    /// Position of this pin's two-bit fields (MODER, OSPEEDR, PUPDR).
    pub open spec fn wide_shift(&self) -> u32 {
        (2 * self.pin) as u32
    }

    /// Whether the input data register value `idr` reads this pin high.
    pub open spec fn reads_high(&self, idr: u32) -> bool {
        field_of(idr, self.pin as u32, 1) == 1
    }

    /// The BSRR word that drives this pin to `state`: bit `pin` sets it,
    /// bit `16 + pin` resets it.
    pub open spec fn bsrr_word(&self, state: PinState) -> u32 {
        match state {
            PinState::High => 1u32 << (self.pin as u32),
            PinState::Low => 1u32 << (16 + self.pin) as u32,
        }
    }

    /// A pin in `mode`, with what setting it up writes: the register work
    /// that turns on its port's clock, computed from the current RCC_AHB2ENR
    /// value `ahb2enr`, and the new MODER value from the port's current
    /// `moder`. Write the clock setup first.
    pub fn new(port: Port, pin: u8, mode: PinMode, ahb2enr: u32, moder: u32) -> (r: (
        Pin,
        PinSetup,
    ))
        requires
            pin <= 15,
        ensures
            r.0.port == port,
            r.0.pin == pin,
            field_of(ahb2enr, port.index(), 1) == 1 ==> r.1.clock is None,
            field_of(ahb2enr, port.index(), 1) == 0 ==> (r.1.clock matches Some(s) && field_of(
                s.ahb2enr,
                port.index(),
                1,
            ) == 1 && others_of(s.ahb2enr, port.index(), 1) == others_of(ahb2enr, port.index(), 1)
                && s.io_supply == (port == Port::G) && s.reset_pulse == (port == Port::I)),
            field_of(r.1.moder, r.0.wide_shift(), 3) == mode.spec_val(),
            others_of(r.1.moder, r.0.wide_shift(), 3) == others_of(moder, r.0.wide_shift(), 3),
    {
        let result = Pin { port, pin };
        let clock = port.clock_setup(ahb2enr);
        let moder = result.mode(moder, mode);
        (result, PinSetup { clock, moder })
    }

    /// The MODER value with this pin's field set to `value`.
    pub fn mode(&self, moder: u32, value: PinMode) -> (r: u32)
        requires
            self.pin <= 15,
        ensures
            field_of(r, self.wide_shift(), 3) == value.spec_val(),
            others_of(r, self.wide_shift(), 3) == others_of(moder, self.wide_shift(), 3),
    {
        write_field(moder, 2 * self.pin as u32, 3, value.val())
    }

    /// The OTYPER value with this pin's bit set to `value`.
    pub fn output_type(&self, otyper: u32, value: OutputType) -> (r: u32)
        requires
            self.pin <= 15,
        ensures
            field_of(r, self.pin as u32, 1) == value.spec_val(),
            others_of(r, self.pin as u32, 1) == others_of(otyper, self.pin as u32, 1),
    {
        write_field(otyper, self.pin as u32, 1, value.val())
    }

    /// The OSPEEDR value with this pin's field set to `value`.
    pub fn output_speed(&self, ospeedr: u32, value: OutputSpeed) -> (r: u32)
        requires
            self.pin <= 15,
        ensures
            field_of(r, self.wide_shift(), 3) == value.spec_val(),
            others_of(r, self.wide_shift(), 3) == others_of(ospeedr, self.wide_shift(), 3),
    {
        write_field(ospeedr, 2 * self.pin as u32, 3, value.val())
    }

    /// The PUPDR value with this pin's field set to `value`.
    pub fn pull(&self, pupdr: u32, value: Pull) -> (r: u32)
        requires
            self.pin <= 15,
        ensures
            field_of(r, self.wide_shift(), 3) == value.spec_val(),
            others_of(r, self.wide_shift(), 3) == others_of(pupdr, self.wide_shift(), 3),
    {
        write_field(pupdr, 2 * self.pin as u32, 3, value.val())
    }

    /// The LCKR value with this pin's lock bit set to `value`.
    pub fn cfg_lock(&self, lckr: u32, value: CfgLock) -> (r: u32)
        requires
            self.pin <= 15,
        ensures
            field_of(r, self.pin as u32, 1) == value.spec_val(),
            others_of(r, self.pin as u32, 1) == others_of(lckr, self.pin as u32, 1),
    {
        write_field(lckr, self.pin as u32, 1, value.val())
    }

    /// The level that the input data register value `idr` shows for this pin.
    pub fn get_state(&self, idr: u32) -> (r: PinState)
        requires
            self.pin <= 15,
        ensures
            r == (if self.reads_high(idr) {
                PinState::High
            } else {
                PinState::Low
            }),
    {
        if self.is_high(idr) {
            PinState::High
        } else {
            PinState::Low
        }
    }

    /// The BSRR word that drives this pin to `value`.
    pub fn set_state(&self, value: PinState) -> (r: u32)
        requires
            self.pin <= 15,
        ensures
            r == self.bsrr_word(value),
    {
        let offset: u32 = match value {
            PinState::Low => 16,
            PinState::High => 0,
        };
        1u32 << (offset + self.pin as u32)
    }

    /// Whether `idr` reads this pin high.
    pub fn is_high(&self, idr: u32) -> (r: bool)
        requires
            self.pin <= 15,
        ensures
            r == self.reads_high(idr),
    {
        (idr >> self.pin as u32) & 1 == 1
    }

    /// Whether `idr` reads this pin low.
    pub fn is_low(&self, idr: u32) -> (r: bool)
        requires
            self.pin <= 15,
        ensures
            r == !self.reads_high(idr),
    {
        !self.is_high(idr)
    }

    /// The BSRR word that drives this pin high.
    pub fn set_high(&self) -> (r: u32)
        requires
            self.pin <= 15,
        ensures
            r == self.bsrr_word(PinState::High),
    {
        self.set_state(PinState::High)
    }

    /// The BSRR word that drives this pin low.
    pub fn set_low(&self) -> (r: u32)
        requires
            self.pin <= 15,
        ensures
            r == self.bsrr_word(PinState::Low),
    {
        self.set_state(PinState::Low)
    }

    /// The BSRR word that inverts this pin, given that `idr` is what it reads
    /// now.
    pub fn toggle(&self, idr: u32) -> (r: u32)
        requires
            self.pin <= 15,
        ensures
            r == (if self.reads_high(idr) {
                self.bsrr_word(PinState::Low)
            } else {
                self.bsrr_word(PinState::High)
            }),
    {
        if self.is_high(idr) {
            self.set_low()
        } else {
            self.set_high()
        }
    }
}

} // verus!
