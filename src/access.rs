//! The register accesses that clock operations ask for.

use crate::rcc::{ClockSource, FlashLatency, MSIRange};
use vstd::prelude::*;

verus! {

/// One access to the clock-control (RCC), power-control (PWR) or
/// flash-control (FLASH) registers. A read answers with the field's value; a
/// write answers with 0.
#[derive(Clone, Copy, Debug, PartialEq, Eq, Structural)]
pub enum RegOp {
    /// Read RCC_CR.MSION.
    ReadMsiOn,
    /// Read RCC_CR.MSIRDY.
    ReadMsiReady,
    /// Read RCC_APB1ENR1.PWREN.
    ReadPwrClock,
    /// Set RCC_APB1ENR1.PWREN.
    EnablePwrClock,
    /// Read PWR_CR1.VOS.
    ReadVoltageScaling,
    /// Write FLASH_ACR.LATENCY.
    WriteFlashLatency(FlashLatency),
    /// Set RCC_CR.MSIRGSEL, so that RCC_CR.MSIRANGE selects the MSI step.
    SelectMsiRangeFromCr,
    /// Write RCC_CR.MSIRANGE.
    WriteMsiRange(MSIRange),
    /// Set RCC_CR.HSION.
    EnableHsi16,
    /// Read RCC_CR.HSIRDY.
    ReadHsi16Ready,
    /// Write RCC_CFGR.SW with the source's selector.
    WriteSysClockSwitch(ClockSource),
    /// Read RCC_CFGR.SWS.
    ReadSysClockStatus,
    /// Clear RCC_CR.MSION.
    DisableMsi,
    /// Write the whole RCC_PLLCFGR register.
    WritePllConfig(u32),
    /// Set RCC_CR.PLLON.
    EnablePll,
    /// Read RCC_CR.PLLRDY.
    ReadPllReady,
}

/// An access that was performed, with the value it produced.
pub struct Access {
    pub op: RegOp,
    pub value: u32,
}

} // verus!
