use stm32l4_hal::access::RegOp;
use stm32l4_hal::hsi_switch::HsiSwitch;
use stm32l4_hal::msi_update::MsiRangeUpdate;
use stm32l4_hal::pll_enable::PllEnable;
use stm32l4_hal::rcc::{
    flash_latency, hsi16_flash_latency, ClockError, ClockManager, ClockSource, FlashLatency,
    MSIRange, PLLConfig, PLLDisabled, PLLEnabled, SourceHSI16, SourceMSI, VoltageRange,
};

/// A scripted stand-in for the RCC, PWR and FLASH registers that records
/// every access in order.
struct MockRegs {
    msi_on: bool,
    msi_ready: bool,
    pwr_clock: bool,
    /// Reads of PWREN that still find it clear after it was set; `None`: never set.
    pwr_delay: Option<u32>,
    vos: u32,
    /// Reads of MSIRDY that find it clear after a range write; `None`: never ready.
    msi_delay: Option<u32>,
    hsi_delay: Option<u32>,
    switch_delay: Option<u32>,
    sws: u32,
    sws_target: u32,
    hsi_on: bool,
    pwr_pending: Option<u32>,
    msi_pending: Option<u32>,
    hsi_pending: Option<u32>,
    switch_pending: Option<u32>,
    /// Reads of PLLRDY that find it clear after PLLON; `None`: never ready.
    pll_delay: Option<u32>,
    pll_pending: Option<u32>,
    pllcfgr: u32,
    ops: Vec<(RegOp, u32)>,
}

impl MockRegs {
    fn new() -> MockRegs {
        MockRegs {
            msi_on: true,
            msi_ready: true,
            pwr_clock: false,
            pwr_delay: Some(0),
            vos: 0b01,
            msi_delay: Some(0),
            hsi_delay: Some(0),
            switch_delay: Some(0),
            sws: 0b00,
            sws_target: 0b00,
            hsi_on: false,
            pwr_pending: None,
            msi_pending: None,
            hsi_pending: None,
            switch_pending: None,
            pll_delay: Some(0),
            pll_pending: None,
            pllcfgr: 0,
            ops: Vec::new(),
        }
    }

    fn countdown(pending: &mut Option<u32>) -> bool {
        match pending {
            Some(0) => true,
            Some(n) => {
                *n -= 1;
                false
            }
            None => false,
        }
    }

    fn perform(&mut self, op: RegOp) -> u32 {
        let value = match op {
            RegOp::ReadMsiOn => self.msi_on as u32,
            RegOp::ReadMsiReady => {
                if !self.msi_ready && self.msi_pending.is_some() {
                    self.msi_ready = Self::countdown(&mut self.msi_pending);
                }
                self.msi_ready as u32
            }
            RegOp::ReadPwrClock => {
                if !self.pwr_clock && self.pwr_pending.is_some() {
                    self.pwr_clock = Self::countdown(&mut self.pwr_pending);
                }
                self.pwr_clock as u32
            }
            RegOp::EnablePwrClock => {
                self.pwr_pending = self.pwr_delay;
                0
            }
            RegOp::ReadVoltageScaling => self.vos,
            RegOp::WriteFlashLatency(_) => 0,
            RegOp::SelectMsiRangeFromCr => 0,
            RegOp::WriteMsiRange(_) => {
                self.msi_ready = false;
                self.msi_pending = self.msi_delay;
                0
            }
            RegOp::EnableHsi16 => {
                self.hsi_on = true;
                self.hsi_pending = self.hsi_delay;
                0
            }
            RegOp::ReadHsi16Ready => Self::countdown(&mut self.hsi_pending) as u32,
            RegOp::WriteSysClockSwitch(src) => {
                self.switch_pending = self.switch_delay;
                self.sws_target = src.selector();
                0
            }
            RegOp::ReadSysClockStatus => {
                if Self::countdown(&mut self.switch_pending) {
                    self.sws = self.sws_target;
                }
                self.sws
            }
            RegOp::DisableMsi => {
                self.msi_on = false;
                0
            }
            RegOp::WritePllConfig(word) => {
                self.pllcfgr = word;
                0
            }
            RegOp::EnablePll => {
                self.pll_pending = self.pll_delay;
                0
            }
            RegOp::ReadPllReady => Self::countdown(&mut self.pll_pending) as u32,
        };
        self.ops.push((op, value));
        value
    }
}

fn run_msi(
    mut update: MsiRangeUpdate<PLLDisabled>,
    regs: &mut MockRegs,
) -> (ClockManager<SourceMSI, PLLDisabled>, Result<(), ClockError>) {
    while let Some(op) = update.pending() {
        let value = regs.perform(op);
        update.step(value);
    }
    update.finish()
}

fn run_pll(
    mut enable: PllEnable,
    regs: &mut MockRegs,
) -> Result<ClockManager<SourceMSI, PLLEnabled>, (ClockManager<SourceMSI, PLLDisabled>, ClockError)> {
    while let Some(op) = enable.pending() {
        let value = regs.perform(op);
        enable.step(value);
    }
    enable.finish()
}

type HsiResult = Result<
    ClockManager<SourceHSI16, PLLDisabled>,
    (ClockManager<SourceMSI, PLLDisabled>, ClockError),
>;

fn run_hsi(mut switch: HsiSwitch<PLLDisabled>, regs: &mut MockRegs) -> HsiResult {
    while let Some(op) = switch.pending() {
        let value = regs.perform(op);
        switch.step(value);
    }
    switch.finish()
}

fn ops_of(regs: &MockRegs) -> Vec<RegOp> {
    regs.ops.iter().map(|(op, _)| *op).collect()
}

fn position(regs: &MockRegs, wanted: RegOp) -> Option<usize> {
    regs.ops.iter().position(|(op, _)| *op == wanted)
}

#[test]
fn new_manager_runs_msi_at_range4() {
    let cm = ClockManager::new();
    assert_eq!(cm.msi_range(), MSIRange::Range4);
    assert_eq!(cm.sys_clock, 1_000_000);
}

#[test]
fn range4_to_range11_writes_latency_before_range() {
    let cm = ClockManager::new();
    let mut regs = MockRegs::new();
    regs.pwr_delay = Some(1);
    regs.msi_delay = Some(2);
    let (cm, result) = run_msi(cm.update_msi_range(MSIRange::Range11, 10), &mut regs);
    assert_eq!(result, Ok(()));
    assert_eq!(cm.msi_range(), MSIRange::Range11);
    assert_eq!(cm.sys_clock, 48_000_000);
    assert_eq!(
        regs.ops,
        vec![
            (RegOp::ReadMsiOn, 1),
            (RegOp::ReadMsiReady, 1),
            (RegOp::ReadPwrClock, 0),
            (RegOp::EnablePwrClock, 0),
            (RegOp::ReadPwrClock, 0),
            (RegOp::ReadPwrClock, 1),
            (RegOp::ReadVoltageScaling, 0b01),
            (RegOp::WriteFlashLatency(FlashLatency::Latency2), 0),
            (RegOp::SelectMsiRangeFromCr, 0),
            (RegOp::WriteMsiRange(MSIRange::Range11), 0),
            (RegOp::ReadMsiReady, 0),
            (RegOp::ReadMsiReady, 0),
            (RegOp::ReadMsiReady, 1),
        ]
    );
}

#[test]
fn reduced_voltage_change_writes_its_latency_first() {
    let cm = ClockManager::new();
    let mut regs = MockRegs::new();
    regs.pwr_clock = true;
    regs.vos = 0b10;
    let (cm, result) = run_msi(cm.update_msi_range(MSIRange::Range7, 3), &mut regs);
    assert_eq!(result, Ok(()));
    assert_eq!(cm.sys_clock, 8_000_000);
    let latency = position(&regs, RegOp::WriteFlashLatency(FlashLatency::Latency1)).unwrap();
    let range = position(&regs, RegOp::WriteMsiRange(MSIRange::Range7)).unwrap();
    assert!(latency < range);
    assert_eq!(position(&regs, RegOp::EnablePwrClock), None);
}

#[test]
fn range_change_returns_with_ready_flag_set() {
    let cm = ClockManager::new();
    let mut regs = MockRegs::new();
    regs.msi_delay = Some(4);
    let (_, result) = run_msi(cm.update_msi_range(MSIRange::Range8, 10), &mut regs);
    assert_eq!(result, Ok(()));
    assert_eq!(*regs.ops.last().unwrap(), (RegOp::ReadMsiReady, 1));
}

#[test]
fn never_ready_oscillator_times_out() {
    let cm = ClockManager::new();
    let mut regs = MockRegs::new();
    regs.msi_delay = None;
    let (cm, result) = run_msi(cm.update_msi_range(MSIRange::Range11, 5), &mut regs);
    assert_eq!(result, Err(ClockError::HardwareTimeout));
    let range = position(&regs, RegOp::WriteMsiRange(MSIRange::Range11)).unwrap();
    let polls = regs.ops[range + 1..].iter().filter(|(op, v)| *op == RegOp::ReadMsiReady && *v == 0).count();
    assert_eq!(polls, 6);
    assert_eq!(regs.ops.len(), range + 1 + 6);
    assert_eq!(cm.msi_range(), MSIRange::Range11);
    assert_eq!(cm.sys_clock, 48_000_000);
}

#[test]
fn power_clock_that_never_starts_times_out() {
    let cm = ClockManager::new();
    let mut regs = MockRegs::new();
    regs.pwr_delay = None;
    let (cm, result) = run_msi(cm.update_msi_range(MSIRange::Range9, 2), &mut regs);
    assert_eq!(result, Err(ClockError::HardwareTimeout));
    assert_eq!(position(&regs, RegOp::ReadVoltageScaling), None);
    assert_eq!(cm.msi_range(), MSIRange::Range4);
    assert_eq!(cm.sys_clock, 1_000_000);
}

#[test]
fn msi_on_but_not_ready_is_rejected() {
    let cm = ClockManager::new();
    let mut regs = MockRegs::new();
    regs.msi_ready = false;
    let (cm, result) = run_msi(cm.update_msi_range(MSIRange::Range11, 10), &mut regs);
    assert_eq!(result, Err(ClockError::SourceNotReady));
    assert_eq!(ops_of(&regs), vec![RegOp::ReadMsiOn, RegOp::ReadMsiReady]);
    assert_eq!(cm.msi_range(), MSIRange::Range4);
}

#[test]
fn msi_off_skips_ready_check() {
    let cm = ClockManager::new();
    let mut regs = MockRegs::new();
    regs.msi_on = false;
    regs.msi_ready = false;
    regs.pwr_clock = true;
    let (cm, result) = run_msi(cm.update_msi_range(MSIRange::Range6, 10), &mut regs);
    assert_eq!(result, Ok(()));
    assert_eq!(&ops_of(&regs)[..3], &[RegOp::ReadMsiOn, RegOp::ReadPwrClock, RegOp::ReadVoltageScaling]);
    assert_eq!(cm.sys_clock, 4_000_000);
}

#[test]
fn boosted_voltage_range_is_unsupported() {
    let cm = ClockManager::new();
    let mut regs = MockRegs::new();
    regs.pwr_clock = true;
    regs.vos = 0b00;
    let (cm, result) = run_msi(cm.update_msi_range(MSIRange::Range11, 10), &mut regs);
    assert_eq!(result, Err(ClockError::UnsupportedVoltageRange));
    assert_eq!(*regs.ops.last().unwrap(), (RegOp::ReadVoltageScaling, 0));
    assert_eq!(cm.msi_range(), MSIRange::Range4);
}

#[test]
fn unknown_voltage_bits_are_unsupported() {
    let cm = ClockManager::new();
    let mut regs = MockRegs::new();
    regs.pwr_clock = true;
    regs.vos = 0b11;
    let (_, result) = run_msi(cm.update_msi_range(MSIRange::Range2, 10), &mut regs);
    assert_eq!(result, Err(ClockError::UnsupportedVoltageRange));
}

#[test]
fn range_change_stays_within_its_access_bound() {
    for retries in [0u32, 1, 7] {
        let cm = ClockManager::new();
        let mut regs = MockRegs::new();
        regs.pwr_delay = None;
        let (_, result) = run_msi(cm.update_msi_range(MSIRange::Range11, retries), &mut regs);
        assert_eq!(result, Err(ClockError::HardwareTimeout));
        assert!(regs.ops.len() as u32 <= 2 * retries + 12);
    }
}

#[test]
fn hsi_switch_follows_required_order() {
    let cm = ClockManager::new();
    let mut regs = MockRegs::new();
    regs.pwr_clock = true;
    regs.hsi_delay = Some(1);
    regs.switch_delay = Some(1);
    let result = run_hsi(cm.switch_to_hsi(10), &mut regs);
    let hsi = match result {
        Ok(m) => m,
        Err((_, e)) => panic!("switch failed: {:?}", e),
    };
    assert_eq!(hsi.sys_clock, 16_000_000);
    assert_eq!(hsi.msi_range(), MSIRange::Range4);
    assert_eq!(
        regs.ops,
        vec![
            (RegOp::ReadPwrClock, 1),
            (RegOp::ReadVoltageScaling, 0b01),
            (RegOp::EnableHsi16, 0),
            (RegOp::ReadHsi16Ready, 0),
            (RegOp::ReadHsi16Ready, 1),
            (RegOp::WriteSysClockSwitch(ClockSource::HSI16), 0),
            (RegOp::ReadSysClockStatus, 0),
            (RegOp::ReadSysClockStatus, 1),
            (RegOp::DisableMsi, 0),
        ]
    );
    let writes: Vec<RegOp> = ops_of(&regs)
        .into_iter()
        .filter(|op| {
            matches!(
                op,
                RegOp::EnablePwrClock
                    | RegOp::WriteFlashLatency(_)
                    | RegOp::SelectMsiRangeFromCr
                    | RegOp::WriteMsiRange(_)
                    | RegOp::EnableHsi16
                    | RegOp::WriteSysClockSwitch(_)
                    | RegOp::DisableMsi
                    | RegOp::WritePllConfig(_)
                    | RegOp::EnablePll
            )
        })
        .collect();
    assert_eq!(
        writes,
        vec![RegOp::EnableHsi16, RegOp::WriteSysClockSwitch(ClockSource::HSI16), RegOp::DisableMsi]
    );
    assert!(!regs.msi_on);
}

#[test]
fn hsi_switch_turns_on_power_clock_before_reading_voltage() {
    let cm = ClockManager::new();
    let mut regs = MockRegs::new();
    regs.pwr_delay = Some(1);
    let result = run_hsi(cm.switch_to_hsi(10), &mut regs);
    assert!(result.is_ok());
    assert_eq!(
        &ops_of(&regs)[..5],
        &[
            RegOp::ReadPwrClock,
            RegOp::EnablePwrClock,
            RegOp::ReadPwrClock,
            RegOp::ReadPwrClock,
            RegOp::ReadVoltageScaling,
        ]
    );
}

#[test]
fn hsi_switch_with_power_clock_stuck_times_out() {
    let cm = ClockManager::new();
    let mut regs = MockRegs::new();
    regs.pwr_delay = None;
    match run_hsi(cm.switch_to_hsi(2), &mut regs) {
        Ok(_) => panic!("the power clock never starts"),
        Err((_, e)) => assert_eq!(e, ClockError::HardwareTimeout),
    }
    assert_eq!(position(&regs, RegOp::ReadVoltageScaling), None);
    assert_eq!(position(&regs, RegOp::EnableHsi16), None);
}

#[test]
fn hsi_switch_waits_for_ready_before_multiplexer() {
    let cm = ClockManager::new();
    let mut regs = MockRegs::new();
    regs.pwr_clock = true;
    regs.hsi_delay = None;
    let result = run_hsi(cm.switch_to_hsi(3), &mut regs);
    assert!(matches!(result, Err((_, ClockError::HardwareTimeout))));
    assert_eq!(
        ops_of(&regs),
        vec![
            RegOp::ReadPwrClock,
            RegOp::ReadVoltageScaling,
            RegOp::EnableHsi16,
            RegOp::ReadHsi16Ready,
            RegOp::ReadHsi16Ready,
            RegOp::ReadHsi16Ready,
            RegOp::ReadHsi16Ready,
        ]
    );
    assert!(regs.msi_on);
}

#[test]
fn hsi_switch_keeps_msi_until_status_confirms() {
    let cm = ClockManager::new();
    let mut regs = MockRegs::new();
    regs.switch_delay = None;
    let result = run_hsi(cm.switch_to_hsi(2), &mut regs);
    match result {
        Ok(_) => panic!("the switch cannot succeed"),
        Err((cm, e)) => {
            assert_eq!(e, ClockError::HardwareTimeout);
            assert_eq!(cm.msi_range(), MSIRange::Range4);
            assert_eq!(cm.sys_clock_hz(), 1_000_000);
        }
    }
    assert_eq!(position(&regs, RegOp::DisableMsi), None);
    assert_eq!(*regs.ops.last().unwrap(), (RegOp::ReadSysClockStatus, 0));
    assert!(regs.msi_on);
}

#[test]
fn hsi_switch_at_reduced_voltage_raises_latency_first() {
    let cm = ClockManager::new();
    let mut regs = MockRegs::new();
    regs.pwr_clock = true;
    regs.vos = 0b10;
    let result = run_hsi(cm.switch_to_hsi(4), &mut regs);
    assert!(result.is_ok());
    assert_eq!(regs.ops[1], (RegOp::ReadVoltageScaling, 0b10));
    assert_eq!(regs.ops[2], (RegOp::WriteFlashLatency(FlashLatency::Latency2), 0));
    assert_eq!(regs.ops[3], (RegOp::EnableHsi16, 0));
    assert_eq!(*regs.ops.last().unwrap(), (RegOp::DisableMsi, 0));
}

#[test]
fn hsi_switch_from_fast_msi_keeps_higher_latency() {
    let cm = manager_at_range11();
    let mut regs = MockRegs::new();
    let result = run_hsi(cm.switch_to_hsi(4), &mut regs);
    assert!(result.is_ok());
    assert_eq!(
        ops_of(&regs),
        vec![
            RegOp::ReadPwrClock,
            RegOp::EnablePwrClock,
            RegOp::ReadPwrClock,
            RegOp::ReadVoltageScaling,
            RegOp::EnableHsi16,
            RegOp::ReadHsi16Ready,
            RegOp::WriteSysClockSwitch(ClockSource::HSI16),
            RegOp::ReadSysClockStatus,
            RegOp::DisableMsi,
        ]
    );
}

#[test]
fn hsi_switch_at_boosted_voltage_is_unsupported() {
    let cm = ClockManager::new();
    let mut regs = MockRegs::new();
    regs.pwr_clock = true;
    regs.vos = 0b00;
    match run_hsi(cm.switch_to_hsi(4), &mut regs) {
        Ok(_) => panic!("no latency table covers the boosted range"),
        Err((cm, e)) => {
            assert_eq!(e, ClockError::UnsupportedVoltageRange);
            assert_eq!(cm.msi_range(), MSIRange::Range4);
        }
    }
    assert_eq!(ops_of(&regs), vec![RegOp::ReadPwrClock, RegOp::ReadVoltageScaling]);
}

#[test]
fn hsi16_latency_table() {
    assert_eq!(hsi16_flash_latency(VoltageRange::VRange1), Ok(FlashLatency::Latency0));
    assert_eq!(hsi16_flash_latency(VoltageRange::VRange2), Ok(FlashLatency::Latency2));
    assert_eq!(
        hsi16_flash_latency(VoltageRange::VRange1Boost),
        Err(ClockError::UnsupportedVoltageRange)
    );
}

fn config_n40() -> PLLConfig {
    PLLConfig::new(0, 0, 0, false, false, false, 40, 0).unwrap()
}

#[test]
fn pll_config_words() {
    assert_eq!(config_n40().pllcfgr(), 0x0100_2801);
    let full = PLLConfig::new(2, 1, 3, true, true, true, 86, 7).unwrap();
    assert_eq!(full.pllcfgr(), 0x1373_5671);
}

#[test]
fn pll_config_rejects_out_of_range_fields() {
    assert_eq!(PLLConfig::new(0, 0, 0, false, false, false, 7, 0), None);
    assert_eq!(PLLConfig::new(0, 0, 0, false, false, false, 87, 0), None);
    assert_eq!(PLLConfig::new(0, 0, 0, false, false, false, 40, 8), None);
    assert_eq!(PLLConfig::new(0, 4, 0, false, false, false, 40, 0), None);
    assert_eq!(PLLConfig::new(0, 0, 4, false, false, false, 40, 0), None);
    assert_eq!(PLLConfig::new(1, 0, 0, false, false, false, 40, 0), None);
    assert_eq!(PLLConfig::new(32, 0, 0, false, false, false, 40, 0), None);
}

#[test]
fn enable_pll_programs_then_waits_for_lock() {
    let cm = ClockManager::new();
    let mut regs = MockRegs::new();
    regs.pll_delay = Some(2);
    let cm = match run_pll(cm.enable_pll(config_n40(), 5), &mut regs) {
        Ok(cm) => cm,
        Err((_, e)) => panic!("PLL failed: {:?}", e),
    };
    assert_eq!(cm.sys_clock, 1_000_000);
    assert_eq!(regs.pllcfgr, 0x0100_2801);
    assert_eq!(
        regs.ops,
        vec![
            (RegOp::WritePllConfig(0x0100_2801), 0),
            (RegOp::ReadMsiReady, 1),
            (RegOp::EnablePll, 0),
            (RegOp::ReadPllReady, 0),
            (RegOp::ReadPllReady, 0),
            (RegOp::ReadPllReady, 1),
        ]
    );
}

#[test]
fn enable_pll_with_unready_input_is_rejected() {
    let cm = ClockManager::new();
    let mut regs = MockRegs::new();
    regs.msi_ready = false;
    match run_pll(cm.enable_pll(config_n40(), 5), &mut regs) {
        Ok(_) => panic!("the input is not ready"),
        Err((cm, e)) => {
            assert_eq!(e, ClockError::SourceNotReady);
            assert_eq!(cm.msi_range(), MSIRange::Range4);
        }
    }
    assert_eq!(position(&regs, RegOp::EnablePll), None);
}

#[test]
fn enable_pll_that_never_locks_times_out() {
    let cm = ClockManager::new();
    let mut regs = MockRegs::new();
    regs.pll_delay = None;
    match run_pll(cm.enable_pll(config_n40(), 3), &mut regs) {
        Ok(_) => panic!("the PLL never locks"),
        Err((_, e)) => assert_eq!(e, ClockError::HardwareTimeout),
    }
    assert_eq!(regs.ops.len(), 3 + 4);
}

const ALL_RANGES: [MSIRange; 12] = [
    MSIRange::Range0,
    MSIRange::Range1,
    MSIRange::Range2,
    MSIRange::Range3,
    MSIRange::Range4,
    MSIRange::Range5,
    MSIRange::Range6,
    MSIRange::Range7,
    MSIRange::Range8,
    MSIRange::Range9,
    MSIRange::Range10,
    MSIRange::Range11,
];

fn wait_states(vrange: VoltageRange, range: MSIRange) -> u32 {
    flash_latency(vrange, range).unwrap().bits()
}

#[test]
fn full_voltage_latency_table() {
    let expected = [0, 0, 0, 0, 0, 0, 0, 0, 0, 1, 1, 2];
    for (range, want) in ALL_RANGES.iter().zip(expected.iter()) {
        assert_eq!(wait_states(VoltageRange::VRange1, *range), *want);
    }
}

#[test]
fn reduced_voltage_latency_table() {
    let expected = [0, 0, 0, 0, 0, 0, 0, 1, 2, 2, 2, 2];
    for (range, want) in ALL_RANGES.iter().zip(expected.iter()) {
        assert_eq!(wait_states(VoltageRange::VRange2, *range), *want);
    }
}

#[test]
fn reduced_voltage_latency_is_monotonic() {
    let lowest = wait_states(VoltageRange::VRange2, MSIRange::Range0);
    for pair in ALL_RANGES.windows(2) {
        assert!(pair[0].frequency() < pair[1].frequency());
        assert!(wait_states(VoltageRange::VRange2, pair[0]) <= wait_states(VoltageRange::VRange2, pair[1]));
        assert!(lowest <= wait_states(VoltageRange::VRange2, pair[1]));
    }
}

#[test]
fn fastest_step_needs_most_wait_states_at_full_voltage() {
    assert_eq!(flash_latency(VoltageRange::VRange1, MSIRange::Range11), Ok(FlashLatency::Latency2));
    for range in ALL_RANGES {
        assert!(wait_states(VoltageRange::VRange1, range) <= 2);
    }
}

#[test]
fn boosted_range_has_no_latency_table() {
    assert_eq!(
        flash_latency(VoltageRange::VRange1Boost, MSIRange::Range0),
        Err(ClockError::UnsupportedVoltageRange)
    );
}

#[test]
fn voltage_range_decoding() {
    assert_eq!(VoltageRange::from_vos(0b00), Some(VoltageRange::VRange1Boost));
    assert_eq!(VoltageRange::from_vos(0b01), Some(VoltageRange::VRange1));
    assert_eq!(VoltageRange::from_vos(0b10), Some(VoltageRange::VRange2));
    assert_eq!(VoltageRange::from_vos(0b11), None);
}

#[test]
fn msi_range_values() {
    let hz = [
        100_000, 200_000, 400_000, 800_000, 1_000_000, 2_000_000, 4_000_000, 8_000_000,
        16_000_000, 24_000_000, 32_000_000, 48_000_000,
    ];
    for (i, range) in ALL_RANGES.iter().enumerate() {
        assert_eq!(range.bits(), i as u32);
        assert_eq!(range.frequency(), hz[i]);
    }
}

#[test]
fn clock_source_selectors() {
    assert_eq!(ClockSource::MSI.selector(), 0b00);
    assert_eq!(ClockSource::HSI16.selector(), 0b01);
    assert_eq!(ClockSource::HSE.selector(), 0b10);
    assert_eq!(FlashLatency::Latency4.bits(), 4);
}

fn manager_at_range11() -> ClockManager<SourceMSI, PLLDisabled> {
    let mut regs = MockRegs::new();
    regs.pwr_clock = true;
    let (cm, result) = run_msi(ClockManager::new().update_msi_range(MSIRange::Range11, 4), &mut regs);
    assert_eq!(result, Ok(()));
    cm
}

#[test]
fn lowering_step_writes_latency_after_ready() {
    let cm = manager_at_range11();
    let mut regs = MockRegs::new();
    regs.pwr_clock = true;
    regs.msi_delay = Some(1);
    let (cm, result) = run_msi(cm.update_msi_range(MSIRange::Range4, 4), &mut regs);
    assert_eq!(result, Ok(()));
    assert_eq!(cm.msi_range(), MSIRange::Range4);
    assert_eq!(cm.sys_clock, 1_000_000);
    assert_eq!(
        regs.ops,
        vec![
            (RegOp::ReadMsiOn, 1),
            (RegOp::ReadMsiReady, 1),
            (RegOp::ReadPwrClock, 1),
            (RegOp::ReadVoltageScaling, 0b01),
            (RegOp::SelectMsiRangeFromCr, 0),
            (RegOp::WriteMsiRange(MSIRange::Range4), 0),
            (RegOp::ReadMsiReady, 0),
            (RegOp::ReadMsiReady, 1),
            (RegOp::WriteFlashLatency(FlashLatency::Latency0), 0),
        ]
    );
}

#[test]
fn lowering_step_that_never_settles_keeps_higher_latency() {
    let cm = manager_at_range11();
    let mut regs = MockRegs::new();
    regs.pwr_clock = true;
    regs.msi_delay = None;
    let (cm, result) = run_msi(cm.update_msi_range(MSIRange::Range9, 2), &mut regs);
    assert_eq!(result, Err(ClockError::HardwareTimeout));
    assert_eq!(cm.msi_range(), MSIRange::Range9);
    assert!(regs.ops.iter().all(|(op, _)| !matches!(op, RegOp::WriteFlashLatency(_))));
}

#[test]
fn equal_latency_is_written_before_range() {
    let cm = manager_at_range11();
    let mut regs = MockRegs::new();
    regs.pwr_clock = true;
    regs.vos = 0b10;
    let (cm, result) = run_msi(cm.update_msi_range(MSIRange::Range8, 4), &mut regs);
    assert_eq!(result, Ok(()));
    assert_eq!(cm.sys_clock, 16_000_000);
    let latency = position(&regs, RegOp::WriteFlashLatency(FlashLatency::Latency2)).unwrap();
    let range = position(&regs, RegOp::WriteMsiRange(MSIRange::Range8)).unwrap();
    assert!(latency < range);
}
