//! Clock sources, oscillator ranges, voltage ranges and the flash wait states
//! they require.

use vstd::prelude::*;

verus! {

/// Type tag: the fixed 16MHz internal oscillator drives the system clock.
pub struct SourceHSI16;

/// Type tag: the adjustable internal oscillator drives the system clock.
pub struct SourceMSI;

/// Type tag: the external oscillator drives the system clock.
pub struct SourceHSE;

/// Type tag: the frequency-multiplying stage is off.
pub struct PLLDisabled;

/// Type tag: the frequency-multiplying stage is on.
pub struct PLLEnabled;

/// An oscillator that can drive the system clock.
#[derive(Clone, Copy, Debug, PartialEq, Eq, Structural)]
pub enum ClockSource {
    /// The adjustable internal oscillator.
    MSI,
    /// The fixed 16MHz internal oscillator.
    HSI16,
    /// The external oscillator.
    HSE,
}

impl ClockSource {
    /// The value of the system-clock switch field (RCC_CFGR.SW) that selects
    /// this source; the status field (RCC_CFGR.SWS) reads the same value once
    /// the switch has taken effect.
    pub open spec fn spec_selector(self) -> u32 {
        match self {
            ClockSource::MSI => 0b00,
            ClockSource::HSI16 => 0b01,
            ClockSource::HSE => 0b10,
        }
    }

    pub fn selector(&self) -> (r: u32)
        ensures
            r == self.spec_selector(),
    {
        match self {
            ClockSource::MSI => 0b00,
            ClockSource::HSI16 => 0b01,
            ClockSource::HSE => 0b10,
        }
    }
}

/// Core supply voltage range.
#[derive(Clone, Copy, Debug, PartialEq, Eq, Structural)]
pub enum VoltageRange {
    VRange1Boost,
    VRange1,
    VRange2,
}

impl VoltageRange {
    /// The voltage range that a PWR_CR1.VOS field value encodes, if any.
    pub open spec fn spec_from_vos(bits: u32) -> Option<VoltageRange> {
        if bits == 0b00 {
            Some(VoltageRange::VRange1Boost)
        } else if bits == 0b01 {
            Some(VoltageRange::VRange1)
        } else if bits == 0b10 {
            Some(VoltageRange::VRange2)
        } else {
            None
        }
    }

    pub fn from_vos(bits: u32) -> (r: Option<VoltageRange>)
        ensures
            r == Self::spec_from_vos(bits),
    {
        if bits == 0b00 {
            Some(VoltageRange::VRange1Boost)
        } else if bits == 0b01 {
            Some(VoltageRange::VRange1)
        } else if bits == 0b10 {
            Some(VoltageRange::VRange2)
        } else {
            None
        }
    }
}

/// Flash wait states.
#[derive(Clone, Copy, Debug, PartialEq, Eq, Structural)]
pub enum FlashLatency {
    Latency0,
    Latency1,
    Latency2,
    Latency3,
    Latency4,
}

impl FlashLatency {
    /// The number of wait states, which is also the FLASH_ACR.LATENCY value.
    pub open spec fn wait_states(self) -> nat {
        match self {
            FlashLatency::Latency0 => 0,
            FlashLatency::Latency1 => 1,
            FlashLatency::Latency2 => 2,
            FlashLatency::Latency3 => 3,
            FlashLatency::Latency4 => 4,
        }
    }

    pub fn bits(&self) -> (r: u32)
        ensures
            r == self.wait_states(),
    {
        match self {
            FlashLatency::Latency0 => 0,
            FlashLatency::Latency1 => 1,
            FlashLatency::Latency2 => 2,
            FlashLatency::Latency3 => 3,
            FlashLatency::Latency4 => 4,
        }
    }
}

/// The twelve output steps of the adjustable internal oscillator (MSI).
#[derive(Clone, Copy, Debug, PartialEq, Eq, Structural)]
pub enum MSIRange {
    /// 100kHz
    Range0,
    /// 200kHz
    Range1,
    /// 400kHz
    Range2,
    /// 800kHz
    Range3,
    /// 1MHz
    Range4,
    /// 2MHz
    Range5,
    /// 4MHz
    Range6,
    /// 8MHz
    Range7,
    /// 16MHz
    Range8,
    /// 24MHz
    Range9,
    /// 32MHz
    Range10,
    /// 48MHz
    Range11,
}

impl MSIRange {
    /// Position of the step, from 0 (slowest) to 11 (fastest); also the
    /// RCC_CR.MSIRANGE field value.
    pub open spec fn index(self) -> nat {
        match self {
            MSIRange::Range0 => 0,
            MSIRange::Range1 => 1,
            MSIRange::Range2 => 2,
            MSIRange::Range3 => 3,
            MSIRange::Range4 => 4,
            MSIRange::Range5 => 5,
            MSIRange::Range6 => 6,
            MSIRange::Range7 => 7,
            MSIRange::Range8 => 8,
            MSIRange::Range9 => 9,
            MSIRange::Range10 => 10,
            MSIRange::Range11 => 11,
        }
    }

    /// Output frequency in Hz.
    pub open spec fn hz(self) -> nat {
        match self {
            MSIRange::Range0 => 100_000,
            MSIRange::Range1 => 200_000,
            MSIRange::Range2 => 400_000,
            MSIRange::Range3 => 800_000,
            MSIRange::Range4 => 1_000_000,
            MSIRange::Range5 => 2_000_000,
            MSIRange::Range6 => 4_000_000,
            MSIRange::Range7 => 8_000_000,
            MSIRange::Range8 => 16_000_000,
            MSIRange::Range9 => 24_000_000,
            MSIRange::Range10 => 32_000_000,
            MSIRange::Range11 => 48_000_000,
        }
    }

    pub fn bits(&self) -> (r: u32)
        ensures
            r == self.index(),
    {
        match self {
            MSIRange::Range0 => 0b0000,
            MSIRange::Range1 => 0b0001,
            MSIRange::Range2 => 0b0010,
            MSIRange::Range3 => 0b0011,
            MSIRange::Range4 => 0b0100,
            MSIRange::Range5 => 0b0101,
            MSIRange::Range6 => 0b0110,
            MSIRange::Range7 => 0b0111,
            MSIRange::Range8 => 0b1000,
            MSIRange::Range9 => 0b1001,
            MSIRange::Range10 => 0b1010,
            MSIRange::Range11 => 0b1011,
        }
    }

    pub fn frequency(&self) -> (r: u32)
        ensures
            r == self.hz(),
    {
        match self {
            MSIRange::Range0 => 100_000,
            MSIRange::Range1 => 200_000,
            MSIRange::Range2 => 400_000,
            MSIRange::Range3 => 800_000,
            MSIRange::Range4 => 1_000_000,
            MSIRange::Range5 => 2_000_000,
            MSIRange::Range6 => 4_000_000,
            MSIRange::Range7 => 8_000_000,
            MSIRange::Range8 => 16_000_000,
            MSIRange::Range9 => 24_000_000,
            MSIRange::Range10 => 32_000_000,
            MSIRange::Range11 => 48_000_000,
        }
    }
}

/// Why a clock operation did not complete.
#[derive(Clone, Copy, Debug, PartialEq, Eq, Structural)]
pub enum ClockError {
    /// The oscillator was on but not yet ready when the operation began.
    SourceNotReady,
    /// The operation is not defined for the manager's current state.
    InvalidTransition,
    /// A readiness poll used up its bound without seeing the flag.
    HardwareTimeout,
    /// No flash-latency table covers the current voltage range.
    UnsupportedVoltageRange,
}

/// Multiplier and divider settings of the frequency-multiplying stage, as
/// the values of the RCC_PLLCFGR fields. The stage takes its input from the
/// MSI, and its R output, which can feed the system clock, is enabled.
#[allow(non_snake_case)]
#[derive(Clone, Copy, Debug, PartialEq, Eq, Structural)]
pub struct PLLConfig {
    PLLPDIV: u8,
    PLLR: u8,
    PLLQ: u8,
    PLLQEN: bool,
    PLLP: bool,
    PLLPEN: bool,
    PLLN: u8,
    PLLM: u8,
}

/// RCC_PLLCFGR.PLLSRC value that selects the MSI as the stage's input.
pub const PLLSRC_MSI: u32 = 0b01;

/// Whether the field values fit their RCC_PLLCFGR fields and are ones the
/// hardware allows: PLLM below 8, PLLN from 8 to 86, PLLR and PLLQ below 4,
/// PLLPDIV below 32 and not 1.
pub open spec fn pll_fields_valid(pdiv: u8, r: u8, q: u8, n: u8, m: u8) -> bool {
    &&& m < 8
    &&& 8 <= n <= 86
    &&& r < 4
    &&& q < 4
    &&& pdiv < 32
    &&& pdiv != 1
}

/// The RCC_PLLCFGR value: PLLSRC at bit 0, PLLM at 4, PLLN at 8, PLLPEN at
/// 16, PLLP at 17, PLLQEN at 20, PLLQ at 21, PLLREN at 24, PLLR at 25 and
/// PLLPDIV at 27.
pub open spec fn pll_word(
    pdiv: u8,
    r: u8,
    q: u8,
    qen: bool,
    p: bool,
    pen: bool,
    n: u8,
    m: u8,
) -> int {
    PLLSRC_MSI + m * 0x10 + n * 0x100 + (if pen {
        0x1_0000int
    } else {
        0
    }) + (if p {
        0x2_0000int
    } else {
        0
    }) + (if qen {
        0x10_0000int
    } else {
        0
    }) + q * 0x20_0000 + 0x100_0000 + r * 0x200_0000 + pdiv * 0x800_0000
}

impl PLLConfig {
    #[verifier::type_invariant]
    pub closed spec fn wf(&self) -> bool {
        pll_fields_valid(self.PLLPDIV, self.PLLR, self.PLLQ, self.PLLN, self.PLLM)
    }

    /// The RCC_PLLCFGR value that this configuration programs.
    pub closed spec fn word(&self) -> int {
        pll_word(
            self.PLLPDIV,
            self.PLLR,
            self.PLLQ,
            self.PLLQEN,
            self.PLLP,
            self.PLLPEN,
            self.PLLN,
            self.PLLM,
        )
    }

    /// A configuration from RCC_PLLCFGR field values, or `None` where one of
    /// them is out of range.
    #[allow(non_snake_case)]
    pub fn new(
        PLLPDIV: u8,
        PLLR: u8,
        PLLQ: u8,
        PLLQEN: bool,
        PLLP: bool,
        PLLPEN: bool,
        PLLN: u8,
        PLLM: u8,
    ) -> (r: Option<PLLConfig>)
        ensures
            r is Some <==> pll_fields_valid(PLLPDIV, PLLR, PLLQ, PLLN, PLLM),
            r matches Some(c) ==> c.wf() && c.word() == pll_word(
                PLLPDIV,
                PLLR,
                PLLQ,
                PLLQEN,
                PLLP,
                PLLPEN,
                PLLN,
                PLLM,
            ),
    {
        if PLLM < 8 && 8 <= PLLN && PLLN <= 86 && PLLR < 4 && PLLQ < 4 && PLLPDIV < 32 && PLLPDIV
            != 1 {
            Some(PLLConfig { PLLPDIV, PLLR, PLLQ, PLLQEN, PLLP, PLLPEN, PLLN, PLLM })
        } else {
            None
        }
    }

    /// The RCC_PLLCFGR value that this configuration programs.
    pub fn pllcfgr(&self) -> (r: u32)
        ensures
            r == self.word(),
    {
        proof {
            use_type_invariant(self);
        }
        let pen: u32 = if self.PLLPEN {
            0x1_0000
        } else {
            0
        };
        let p: u32 = if self.PLLP {
            0x2_0000
        } else {
            0
        };
        let qen: u32 = if self.PLLQEN {
            0x10_0000
        } else {
            0
        };
        PLLSRC_MSI + self.PLLM as u32 * 0x10 + self.PLLN as u32 * 0x100 + pen + p + qen
            + self.PLLQ as u32 * 0x20_0000 + 0x100_0000 + self.PLLR as u32 * 0x200_0000
            + self.PLLPDIV as u32 * 0x800_0000
    }
}

/// The committed clock configuration. `SOURCE` tags which oscillator drives
/// the system clock and `PLL` whether the multiplying stage is on; an
/// operation that changes the source consumes the manager and returns one
/// with the new tag, so a stale manager cannot be used again.
pub struct ClockManager<SOURCE, PLL> {
    /// The system clock frequency in Hz.
    pub sys_clock: u32,
    msi_range: MSIRange,
    source: SOURCE,
    pllenabled: PLL,
}

/// Frequency of the fixed internal oscillator, in Hz.
pub const HSI16_HZ: u32 = 16_000_000;

impl<SOURCE, PLL> ClockManager<SOURCE, PLL> {
    /// The system clock frequency recorded, in Hz.
    pub closed spec fn hz(&self) -> nat {
        self.sys_clock as nat
    }

    /// The MSI step last committed.
    pub closed spec fn range(&self) -> MSIRange {
        self.msi_range
    }

    /// The system clock frequency recorded, in Hz.
    pub fn sys_clock_hz(&self) -> (r: u32)
        ensures
            r == self.hz(),
    {
        self.sys_clock
    }

    /// The MSI step last committed.
    pub fn msi_range(&self) -> (r: MSIRange)
        ensures
            r == self.range(),
    {
        self.msi_range
    }
}

impl ClockManager<SourceMSI, PLLDisabled> {
    /// The starting state: the MSI drives the system clock at step
    /// `Range4` and the multiplying stage is off. Writes no register.
    pub fn new() -> (r: ClockManager<SourceMSI, PLLDisabled>)
        ensures
            r.range() == MSIRange::Range4,
            r.hz() == MSIRange::Range4.hz(),
            r.wf(),
    {
        ClockManager {
            sys_clock: 1_000_000,
            msi_range: MSIRange::Range4,
            source: SourceMSI,
            pllenabled: PLLDisabled,
        }
    }
}

impl<PLL> ClockManager<SourceMSI, PLL> {
    /// The stored frequency is the one the committed MSI step produces.
    pub open spec fn wf(&self) -> bool {
        self.hz() == self.range().hz()
    }

    /// Records `range` as the committed MSI step.
    pub(crate) fn commit_msi_range(&mut self, range: MSIRange)
        ensures
            final(self).range() == range,
            final(self).wf(),
    {
        self.sys_clock = range.frequency();
        self.msi_range = range;
    }

    /// The manager once the multiplying stage is on; the system clock source
    /// and frequency are unchanged.
    pub(crate) fn into_pll_enabled(self) -> (r: ClockManager<SourceMSI, PLLEnabled>)
        ensures
            r.range() == self.range(),
            r.hz() == self.hz(),
    {
        ClockManager {
            sys_clock: self.sys_clock,
            msi_range: self.msi_range,
            source: self.source,
            pllenabled: PLLEnabled,
        }
    }

    /// The manager once the fixed 16MHz oscillator drives the system clock.
    pub(crate) fn into_hsi16(self) -> (r: ClockManager<SourceHSI16, PLL>)
        ensures
            r.range() == self.range(),
            r.wf(),
    {
        ClockManager {
            sys_clock: HSI16_HZ,
            msi_range: self.msi_range,
            source: SourceHSI16,
            pllenabled: self.pllenabled,
        }
    }
}

impl<PLL> ClockManager<SourceHSI16, PLL> {
    /// The stored frequency is the fixed oscillator's.
    pub open spec fn wf(&self) -> bool {
        self.hz() == HSI16_HZ
    }
}

/// Wait states the full-voltage range (Range 1) needs at `hz`.
pub open spec fn range1_wait_states(hz: nat) -> nat {
    if hz <= 16_000_000 {
        0
    } else if hz <= 32_000_000 {
        1
    } else {
        2
    }
}

/// Wait states the reduced-voltage range (Range 2) needs at `hz`.
pub open spec fn range2_wait_states(hz: nat) -> nat {
    if hz <= 4_000_000 {
        0
    } else if hz <= 8_000_000 {
        1
    } else {
        2
    }
}

/// The latency with `n` wait states (at most four).
pub open spec fn latency_of(n: nat) -> FlashLatency {
    if n == 0 {
        FlashLatency::Latency0
    } else if n == 1 {
        FlashLatency::Latency1
    } else if n == 2 {
        FlashLatency::Latency2
    } else if n == 3 {
        FlashLatency::Latency3
    } else {
        FlashLatency::Latency4
    }
}

/// The flash latency required with the core at `vrange` and the system
/// clock at `hz`; the boosted range has no table.
pub open spec fn required_latency_at(vrange: VoltageRange, hz: nat) -> Result<
    FlashLatency,
    ClockError,
> {
    match vrange {
        VoltageRange::VRange1 => Ok(latency_of(range1_wait_states(hz))),
        VoltageRange::VRange2 => Ok(latency_of(range2_wait_states(hz))),
        VoltageRange::VRange1Boost => Err(ClockError::UnsupportedVoltageRange),
    }
}

/// The flash latency required with the core at `vrange` and the MSI at
/// `range`.
pub open spec fn required_latency(vrange: VoltageRange, range: MSIRange) -> Result<
    FlashLatency,
    ClockError,
> {
    required_latency_at(vrange, range.hz())
}

/// The flash latency required with the core at the voltage range that the
/// PWR_CR1.VOS value `bits` encodes and the system clock at `hz`.
pub open spec fn latency_for_vos_at(bits: u32, hz: nat) -> Result<FlashLatency, ClockError> {
    match VoltageRange::spec_from_vos(bits) {
        Some(vrange) => required_latency_at(vrange, hz),
        None => Err(ClockError::UnsupportedVoltageRange),
    }
}

/// Looks up the flash latency the fixed 16MHz oscillator needs at core
/// voltage `vrange`.
pub fn hsi16_flash_latency(vrange: VoltageRange) -> (r: Result<FlashLatency, ClockError>)
    ensures
        r == required_latency_at(vrange, HSI16_HZ as nat),
{
    match vrange {
        VoltageRange::VRange1 => Ok(FlashLatency::Latency0),
        VoltageRange::VRange2 => Ok(FlashLatency::Latency2),
        VoltageRange::VRange1Boost => Err(ClockError::UnsupportedVoltageRange),
    }
}

/// The flash latency required with the core at the voltage range that the
/// PWR_CR1.VOS value `bits` encodes and the MSI at `range`.
pub open spec fn latency_for_vos(bits: u32, range: MSIRange) -> Result<FlashLatency, ClockError> {
    match VoltageRange::spec_from_vos(bits) {
        Some(vrange) => required_latency(vrange, range),
        None => Err(ClockError::UnsupportedVoltageRange),
    }
}

/// Looks up the flash latency the MSI step `range` needs at core voltage
/// `vrange`.
pub fn flash_latency(vrange: VoltageRange, range: MSIRange) -> (r: Result<
    FlashLatency,
    ClockError,
>)
    ensures
        r == required_latency(vrange, range),
{
    match vrange {
        VoltageRange::VRange1 => Ok(
            match range {
                MSIRange::Range0 => FlashLatency::Latency0,
                MSIRange::Range1 => FlashLatency::Latency0,
                MSIRange::Range2 => FlashLatency::Latency0,
                MSIRange::Range3 => FlashLatency::Latency0,
                MSIRange::Range4 => FlashLatency::Latency0,
                MSIRange::Range5 => FlashLatency::Latency0,
                MSIRange::Range6 => FlashLatency::Latency0,
                MSIRange::Range7 => FlashLatency::Latency0,
                MSIRange::Range8 => FlashLatency::Latency0,
                MSIRange::Range9 => FlashLatency::Latency1,
                MSIRange::Range10 => FlashLatency::Latency1,
                MSIRange::Range11 => FlashLatency::Latency2,
            },
        ),
        VoltageRange::VRange2 => Ok(
            match range {
                MSIRange::Range0 => FlashLatency::Latency0,
                MSIRange::Range1 => FlashLatency::Latency0,
                MSIRange::Range2 => FlashLatency::Latency0,
                MSIRange::Range3 => FlashLatency::Latency0,
                MSIRange::Range4 => FlashLatency::Latency0,
                MSIRange::Range5 => FlashLatency::Latency0,
                MSIRange::Range6 => FlashLatency::Latency0,
                MSIRange::Range7 => FlashLatency::Latency1,
                MSIRange::Range8 => FlashLatency::Latency2,
                MSIRange::Range9 => FlashLatency::Latency2,
                MSIRange::Range10 => FlashLatency::Latency2,
                MSIRange::Range11 => FlashLatency::Latency2,
            },
        ),
        VoltageRange::VRange1Boost => Err(ClockError::UnsupportedVoltageRange),
    }
}

/// Within a voltage range that has a table, the wait states never decrease as
/// the MSI step gets faster, so no step needs fewer than the slowest one.
pub proof fn lemma_latency_monotonic(vrange: VoltageRange, a: MSIRange, b: MSIRange)
    requires
        vrange != VoltageRange::VRange1Boost,
        a.hz() <= b.hz(),
    ensures
        required_latency(vrange, a) is Ok,
        required_latency(vrange, b) is Ok,
        required_latency(vrange, a)->Ok_0.wait_states() <= required_latency(
            vrange,
            b,
        )->Ok_0.wait_states(),
        required_latency(vrange, MSIRange::Range0)->Ok_0.wait_states() <= required_latency(
            vrange,
            a,
        )->Ok_0.wait_states(),
{
}

/// At full voltage the fastest MSI step needs two wait states, the most that
/// any step needs there.
pub proof fn lemma_fastest_step_needs_most(r: MSIRange)
    ensures
        required_latency(VoltageRange::VRange1, MSIRange::Range11) == Ok::<
            FlashLatency,
            ClockError,
        >(FlashLatency::Latency2),
        required_latency(VoltageRange::VRange1, r) is Ok,
        required_latency(VoltageRange::VRange1, r)->Ok_0.wait_states() <= 2,
{
}

} // verus!
