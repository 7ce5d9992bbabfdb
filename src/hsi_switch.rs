//! Switching the system clock from the MSI to the fixed 16MHz oscillator.

use crate::access::{Access, RegOp};
use crate::rcc::{
    hsi16_flash_latency, latency_for_vos_at, ClockError, ClockManager, ClockSource, FlashLatency,
    MSIRange, SourceHSI16, SourceMSI, VoltageRange, HSI16_HZ,
};
use vstd::prelude::*;

verus! {

/// Where a switch to the 16MHz oscillator stands.
#[derive(Clone, Copy, Debug)]
pub enum HsiStage {
    CheckPwrClock,
    EnablePwrClock,
    WaitPwrClock,
    ReadVoltage,
    RaiseLatency(FlashLatency),
    EnableHsi,
    WaitHsiReady,
    SelectHsi,
    WaitSwitch,
    DisableMsi,
    Finished(Result<(), ClockError>),
}

/// The latency the 16MHz oscillator needs at the voltage range that the VOS
/// value `bits` encodes.
pub open spec fn hsi16_latency(bits: u32) -> Result<FlashLatency, ClockError> {
    latency_for_vos_at(bits, HSI16_HZ as nat)
}

/// Whether, at the voltage range that `bits` encodes, the 16MHz oscillator
/// needs more wait states than the MSI at `current`. Only then is the flash
/// latency written; a latency that is already enough is left as it is.
pub open spec fn hsi16_raises_latency(bits: u32, current: MSIRange) -> bool {
    &&& hsi16_latency(bits) is Ok
    &&& latency_for_vos_at(bits, current.hz()) is Ok
    &&& hsi16_latency(bits)->Ok_0.wait_states() > latency_for_vos_at(
        bits,
        current.hz(),
    )->Ok_0.wait_states()
}

/// The access a switch asks for at `stage`.
pub open spec fn hsi_op(stage: HsiStage) -> Option<RegOp> {
    match stage {
        HsiStage::CheckPwrClock => Some(RegOp::ReadPwrClock),
        HsiStage::EnablePwrClock => Some(RegOp::EnablePwrClock),
        HsiStage::WaitPwrClock => Some(RegOp::ReadPwrClock),
        HsiStage::ReadVoltage => Some(RegOp::ReadVoltageScaling),
        HsiStage::RaiseLatency(l) => Some(RegOp::WriteFlashLatency(l)),
        HsiStage::EnableHsi => Some(RegOp::EnableHsi16),
        HsiStage::WaitHsiReady => Some(RegOp::ReadHsi16Ready),
        HsiStage::SelectHsi => Some(RegOp::WriteSysClockSwitch(ClockSource::HSI16)),
        HsiStage::WaitSwitch => Some(RegOp::ReadSysClockStatus),
        HsiStage::DisableMsi => Some(RegOp::DisableMsi),
        HsiStage::Finished(_) => None,
    }
}

/// The stage and poll budget after the access of `stage` answered `value`,
/// in a switch away from the MSI at `current`.
pub open spec fn hsi_transition(
    stage: HsiStage,
    value: u32,
    polls_left: u32,
    retries: u32,
    current: MSIRange,
) -> (HsiStage, u32) {
    match stage {
        HsiStage::CheckPwrClock => if value != 0 {
            (HsiStage::ReadVoltage, polls_left)
        } else {
            (HsiStage::EnablePwrClock, polls_left)
        },
        HsiStage::EnablePwrClock => (HsiStage::WaitPwrClock, retries),
        HsiStage::WaitPwrClock => if value != 0 {
            (HsiStage::ReadVoltage, polls_left)
        } else if polls_left == 0 {
            (HsiStage::Finished(Err(ClockError::HardwareTimeout)), polls_left)
        } else {
            (HsiStage::WaitPwrClock, (polls_left - 1) as u32)
        },
        HsiStage::ReadVoltage => match hsi16_latency(value) {
            Ok(l) => if hsi16_raises_latency(value, current) {
                (HsiStage::RaiseLatency(l), polls_left)
            } else {
                (HsiStage::EnableHsi, polls_left)
            },
            Err(e) => (HsiStage::Finished(Err(e)), polls_left),
        },
        HsiStage::RaiseLatency(_) => (HsiStage::EnableHsi, polls_left),
        HsiStage::EnableHsi => (HsiStage::WaitHsiReady, retries),
        HsiStage::WaitHsiReady => if value != 0 {
            (HsiStage::SelectHsi, polls_left)
        } else if polls_left == 0 {
            (HsiStage::Finished(Err(ClockError::HardwareTimeout)), polls_left)
        } else {
            (HsiStage::WaitHsiReady, (polls_left - 1) as u32)
        },
        HsiStage::SelectHsi => (HsiStage::WaitSwitch, retries),
        HsiStage::WaitSwitch => if value == ClockSource::HSI16.spec_selector() {
            (HsiStage::DisableMsi, polls_left)
        } else if polls_left == 0 {
            (HsiStage::Finished(Err(ClockError::HardwareTimeout)), polls_left)
        } else {
            (HsiStage::WaitSwitch, (polls_left - 1) as u32)
        },
        HsiStage::DisableMsi => (HsiStage::Finished(Ok(())), polls_left),
        HsiStage::Finished(r) => (HsiStage::Finished(r), polls_left),
    }
}

/// An upper bound on the accesses still to come.
pub open spec fn hsi_steps_left(stage: HsiStage, polls_left: u32, retries: u32) -> nat {
    let wait = retries as nat + 1;
    match stage {
        HsiStage::CheckPwrClock => 7 + 3 * wait,
        HsiStage::EnablePwrClock => 6 + 3 * wait,
        HsiStage::WaitPwrClock => polls_left as nat + 1 + 5 + 2 * wait,
        HsiStage::ReadVoltage => 5 + 2 * wait,
        HsiStage::RaiseLatency(_) => 4 + 2 * wait,
        HsiStage::EnableHsi => 3 + 2 * wait,
        HsiStage::WaitHsiReady => polls_left as nat + 1 + 2 + wait,
        HsiStage::SelectHsi => 2 + wait,
        HsiStage::WaitSwitch => polls_left as nat + 1 + 1,
        HsiStage::DisableMsi => 1,
        HsiStage::Finished(_) => 0,
    }
}

/// Whether an access to `op` may come right after `prev` in a switch away
/// from the MSI at `current`.
pub open spec fn hsi_follows(prev: Access, op: RegOp, current: MSIRange) -> bool {
    match op {
        RegOp::ReadPwrClock => prev.op == RegOp::EnablePwrClock || (prev.op
            == RegOp::ReadPwrClock && prev.value == 0),
        RegOp::EnablePwrClock => prev.op == RegOp::ReadPwrClock && prev.value == 0,
        RegOp::ReadVoltageScaling => prev.op == RegOp::ReadPwrClock && prev.value != 0,
        RegOp::WriteFlashLatency(l) => prev.op == RegOp::ReadVoltageScaling && hsi16_latency(
            prev.value,
        ) == Ok::<FlashLatency, ClockError>(l) && hsi16_raises_latency(prev.value, current),
        RegOp::EnableHsi16 => (prev.op == RegOp::ReadVoltageScaling && hsi16_latency(
            prev.value,
        ) is Ok && !hsi16_raises_latency(prev.value, current)) || prev.op is WriteFlashLatency,
        RegOp::ReadHsi16Ready => prev.op == RegOp::EnableHsi16 || (prev.op
            == RegOp::ReadHsi16Ready && prev.value == 0),
        RegOp::WriteSysClockSwitch(src) => src == ClockSource::HSI16 && prev.op
            == RegOp::ReadHsi16Ready && prev.value != 0,
        RegOp::ReadSysClockStatus => prev.op == RegOp::WriteSysClockSwitch(ClockSource::HSI16)
            || (prev.op == RegOp::ReadSysClockStatus && prev.value
            != ClockSource::HSI16.spec_selector()),
        RegOp::DisableMsi => prev.op == RegOp::ReadSysClockStatus && prev.value
            == ClockSource::HSI16.spec_selector(),
        _ => false,
    }
}

/// Whether `log`, switching away from the MSI at `current`, has the flash
/// latency ready for 16MHz before position `i`: the access at `j` read the
/// voltage range, a table covers it, and where 16MHz needs more wait states
/// than `current` the access right after wrote the latency 16MHz needs.
pub open spec fn hsi16_latency_prepared(
    log: Seq<Access>,
    j: int,
    i: int,
    current: MSIRange,
) -> bool {
    &&& 0 <= j < i <= log.len()
    &&& log[j].op == RegOp::ReadVoltageScaling
    &&& hsi16_latency(log[j].value) is Ok
    &&& (!hsi16_raises_latency(log[j].value, current) || (j + 1 < i && log[j + 1].op
        == RegOp::WriteFlashLatency(hsi16_latency(log[j].value)->Ok_0)))
}

/// A switch in progress, driven as [`crate::msi_update::MsiRangeUpdate`] is.
pub struct HsiSwitch<PLL> {
    manager: ClockManager<SourceMSI, PLL>,
    stage: HsiStage,
    retries: u32,
    polls_left: u32,
    vos_at: Ghost<int>,
    log: Ghost<Seq<Access>>,
}

impl<PLL> HsiSwitch<PLL> {
    pub closed spec fn stage(&self) -> HsiStage {
        self.stage
    }

    pub closed spec fn retries(&self) -> u32 {
        self.retries
    }

    pub closed spec fn polls_left(&self) -> u32 {
        self.polls_left
    }

    /// The MSI step the manager records.
    pub closed spec fn msi_range(&self) -> MSIRange {
        self.manager.range()
    }

    /// The system clock frequency the manager records.
    pub closed spec fn msi_hz(&self) -> nat {
        self.manager.hz()
    }

    /// Position in the log of the voltage-range read, once made.
    pub closed spec fn vos_read(&self) -> int {
        self.vos_at@
    }

    /// Every access performed so far, in order.
    pub closed spec fn log(&self) -> Seq<Access> {
        self.log@
    }

    pub open spec fn spec_pending(&self) -> Option<RegOp> {
        hsi_op(self.stage())
    }

    pub open spec fn steps_left(&self) -> nat {
        hsi_steps_left(self.stage(), self.polls_left(), self.retries())
    }

    /// The well-formedness of a switch: the log starts by reading the
    /// power-control clock gate; each access may follow the one before; the
    /// multiplexer is written only with the latency prepared as
    /// [`hsi16_latency_prepared`] says; and its last accesses are those the
    /// stage was reached by.
    pub closed spec fn wf(&self) -> bool {
        let log = self.log@;
        let n = log.len();
        let current = self.manager.range();
        let j = self.vos_at@;
        &&& self.manager.wf()
        &&& self.polls_left <= self.retries
        &&& (n > 0 ==> log[0].op == RegOp::ReadPwrClock)
        &&& forall|i: int| 0 < i < n ==> hsi_follows(log[i - 1], #[trigger] log[i].op, current)
        &&& forall|i: int|
            0 <= i < n && (#[trigger] log[i].op) is WriteSysClockSwitch ==> hsi16_latency_prepared(
                log,
                j,
                i,
                current,
            )
        &&& (self.stage is CheckPwrClock || self.stage is EnablePwrClock || self.stage is WaitPwrClock
            || self.stage is ReadVoltage) ==> forall|i: int|
            0 <= i < n ==> !((#[trigger] log[i].op) is WriteSysClockSwitch)
        &&& match self.stage {
            HsiStage::CheckPwrClock => n == 0,
            HsiStage::EnablePwrClock => n > 0 && log[n - 1].op == RegOp::ReadPwrClock && log[n
                - 1].value == 0,
            HsiStage::WaitPwrClock => n > 0 && (log[n - 1].op == RegOp::EnablePwrClock || (log[n
                - 1].op == RegOp::ReadPwrClock && log[n - 1].value == 0)),
            HsiStage::ReadVoltage => n > 0 && log[n - 1].op == RegOp::ReadPwrClock && log[n
                - 1].value != 0,
            HsiStage::RaiseLatency(l) => n > 0 && j == n - 1 && log[n - 1].op
                == RegOp::ReadVoltageScaling && hsi16_latency(log[n - 1].value) == Ok::<
                FlashLatency,
                ClockError,
            >(l) && hsi16_raises_latency(log[n - 1].value, current),
            HsiStage::EnableHsi => hsi16_latency_prepared(log, j, n as int, current) && ((j == n
                - 1 && log[n - 1].op == RegOp::ReadVoltageScaling) || (j == n - 2 && log[n
                - 1].op is WriteFlashLatency)),
            HsiStage::WaitHsiReady => hsi16_latency_prepared(log, j, n as int, current) && (log[n
                - 1].op == RegOp::EnableHsi16 || (log[n - 1].op == RegOp::ReadHsi16Ready && log[n
                - 1].value == 0)),
            HsiStage::SelectHsi => hsi16_latency_prepared(log, j, n as int, current) && log[n
                - 1].op == RegOp::ReadHsi16Ready && log[n - 1].value != 0,
            HsiStage::WaitSwitch => hsi16_latency_prepared(log, j, n as int, current) && (log[n
                - 1].op == RegOp::WriteSysClockSwitch(ClockSource::HSI16) || (log[n - 1].op
                == RegOp::ReadSysClockStatus && log[n - 1].value
                != ClockSource::HSI16.spec_selector())),
            HsiStage::DisableMsi => hsi16_latency_prepared(log, j, n as int, current) && log[n
                - 1].op == RegOp::ReadSysClockStatus && log[n - 1].value
                == ClockSource::HSI16.spec_selector(),
            HsiStage::Finished(Ok(())) => n > 0 && log[n - 1].op == RegOp::DisableMsi,
            HsiStage::Finished(Err(_)) => true,
        }
    }

    /// The next register access to perform, or `None` once the switch is over.
    pub fn pending(&self) -> (r: Option<RegOp>)
        ensures
            r == self.spec_pending(),
            r is None <==> self.steps_left() == 0,
    {
        match self.stage {
            HsiStage::CheckPwrClock => Some(RegOp::ReadPwrClock),
            HsiStage::EnablePwrClock => Some(RegOp::EnablePwrClock),
            HsiStage::WaitPwrClock => Some(RegOp::ReadPwrClock),
            HsiStage::ReadVoltage => Some(RegOp::ReadVoltageScaling),
            HsiStage::RaiseLatency(l) => Some(RegOp::WriteFlashLatency(l)),
            HsiStage::EnableHsi => Some(RegOp::EnableHsi16),
            HsiStage::WaitHsiReady => Some(RegOp::ReadHsi16Ready),
            HsiStage::SelectHsi => Some(RegOp::WriteSysClockSwitch(ClockSource::HSI16)),
            HsiStage::WaitSwitch => Some(RegOp::ReadSysClockStatus),
            HsiStage::DisableMsi => Some(RegOp::DisableMsi),
            HsiStage::Finished(_) => None,
        }
    }

    /// Takes the value that the pending access produced (0 for a write) and
    /// moves to the next stage.
    #[verifier::rlimit(60)]
    pub fn step(&mut self, value: u32)
        requires
            old(self).wf(),
            old(self).spec_pending() is Some,
        ensures
            final(self).wf(),
            (final(self).stage(), final(self).polls_left()) == hsi_transition(
                old(self).stage(),
                value,
                old(self).polls_left(),
                old(self).retries(),
                old(self).msi_range(),
            ),
            final(self).log() == old(self).log().push(
                Access { op: old(self).spec_pending()->Some_0, value },
            ),
            final(self).retries() == old(self).retries(),
            final(self).msi_range() == old(self).msi_range(),
            final(self).msi_hz() == old(self).msi_hz(),
            old(self).stage() is ReadVoltage ==> final(self).vos_read() == old(self).log().len(),
            !(old(self).stage() is ReadVoltage) ==> final(self).vos_read()
                == old(self).vos_read(),
            final(self).steps_left() < old(self).steps_left(),
    {
        let ghost op = hsi_op(self.stage)->Some_0;
        let ghost old_log = self.log@;
        self.log = Ghost(self.log@.push(Access { op, value }));
        match self.stage {
            HsiStage::CheckPwrClock => {
                self.stage = if value != 0 {
                    HsiStage::ReadVoltage
                } else {
                    HsiStage::EnablePwrClock
                };
            },
            HsiStage::EnablePwrClock => {
                self.stage = HsiStage::WaitPwrClock;
                self.polls_left = self.retries;
            },
            HsiStage::WaitPwrClock => {
                if value != 0 {
                    self.stage = HsiStage::ReadVoltage;
                } else if self.polls_left == 0 {
                    self.stage = HsiStage::Finished(Err(ClockError::HardwareTimeout));
                } else {
                    self.polls_left = self.polls_left - 1;
                }
            },
            HsiStage::ReadVoltage => {
                self.vos_at = Ghost(old_log.len() as int);
                self.stage = match VoltageRange::from_vos(value) {
                    Some(vrange) => match (
                        hsi16_flash_latency(vrange),
                        crate::rcc::flash_latency(vrange, self.manager.msi_range()),
                    ) {
                        (Ok(new), Ok(current)) => if new.bits() > current.bits() {
                            HsiStage::RaiseLatency(new)
                        } else {
                            HsiStage::EnableHsi
                        },
                        (Ok(_), Err(_)) => HsiStage::EnableHsi,
                        (Err(e), _) => HsiStage::Finished(Err(e)),
                    },
                    None => HsiStage::Finished(Err(ClockError::UnsupportedVoltageRange)),
                };
            },
            HsiStage::RaiseLatency(_) => {
                self.stage = HsiStage::EnableHsi;
            },
            HsiStage::EnableHsi => {
                self.stage = HsiStage::WaitHsiReady;
                self.polls_left = self.retries;
            },
            HsiStage::WaitHsiReady => {
                if value != 0 {
                    self.stage = HsiStage::SelectHsi;
                } else if self.polls_left == 0 {
                    self.stage = HsiStage::Finished(Err(ClockError::HardwareTimeout));
                } else {
                    self.polls_left = self.polls_left - 1;
                }
            },
            HsiStage::SelectHsi => {
                self.stage = HsiStage::WaitSwitch;
                self.polls_left = self.retries;
            },
            HsiStage::WaitSwitch => {
                if value == ClockSource::HSI16.selector() {
                    self.stage = HsiStage::DisableMsi;
                } else if self.polls_left == 0 {
                    self.stage = HsiStage::Finished(Err(ClockError::HardwareTimeout));
                } else {
                    self.polls_left = self.polls_left - 1;
                }
            },
            HsiStage::DisableMsi => {
                self.stage = HsiStage::Finished(Ok(()));
            },
            HsiStage::Finished(_) => {},
        }
        proof {
            let log = self.log@;
            let n = log.len();
            let current = self.manager.range();
            let j = self.vos_at@;
            assert(log[n - 1] == Access { op, value });
            if 0 <= j < n - 1 {
                assert(log[j] == old_log[j]);
            }
            if 0 <= j + 1 < n - 1 {
                assert(log[j + 1] == old_log[j + 1]);
            }
            assert forall|i: int| 0 < i < n implies hsi_follows(
                log[i - 1],
                #[trigger] log[i].op,
                current,
            ) by {
                if i < n - 1 {
                    assert(log[i] == old_log[i]);
                    assert(log[i - 1] == old_log[i - 1]);
                }
            }
            assert forall|i: int|
                0 <= i < n && (self.stage is CheckPwrClock || self.stage is EnablePwrClock
                    || self.stage is WaitPwrClock || self.stage is ReadVoltage) implies !((
            #[trigger] log[i].op) is WriteSysClockSwitch) by {
                if i < n - 1 {
                    assert(log[i] == old_log[i]);
                }
            }
            assert forall|i: int|
                0 <= i < n && (#[trigger] log[i].op) is WriteSysClockSwitch implies hsi16_latency_prepared(
                log,
                j,
                i,
                current,
            ) by {
                if i < n - 1 {
                    assert(log[i] == old_log[i]);
                    assert(old_log[i].op is WriteSysClockSwitch);
                    assert(hsi16_latency_prepared(old_log, j, i, current));
                }
            }
        }
    }

    /// Ends the switch: on success, the manager tagged with the 16MHz
    /// oscillator as source; otherwise the MSI-tagged manager, unchanged, with
    /// the error. After a timeout the clock tree is as the last access left it.
    pub fn finish(self) -> (r: Result<
        ClockManager<SourceHSI16, PLL>,
        (ClockManager<SourceMSI, PLL>, ClockError),
    >)
        requires
            self.wf(),
            self.spec_pending() is None,
        ensures
            match r {
                Ok(m) => self.stage() matches HsiStage::Finished(Ok(_)) && m.wf() && m.range()
                    == self.msi_range(),
                Err((m, e)) => self.stage() == HsiStage::Finished(Err(e)) && m.wf() && m.range()
                    == self.msi_range() && m.hz() == self.msi_hz(),
            },
    {
        match self.stage {
            HsiStage::Finished(Err(e)) => Err((self.manager, e)),
            HsiStage::Finished(Ok(_)) => Ok(self.manager.into_hsi16()),
            _ => Err((self.manager, ClockError::InvalidTransition)),
        }
    }
}

/// In every switch: the power-control clock gate is read first; the flash
/// latency is written only right after the voltage-range read, and only
/// where 16MHz needs more wait states than the committed MSI step; the
/// multiplexer is written only right after HSIRDY read set, only with the
/// 16MHz oscillator's selector, and only once the latency is ready for
/// 16MHz; and the MSI is turned off only right after the multiplexer status
/// read back that selector.
pub proof fn lemma_switch_order<PLL>(s: &HsiSwitch<PLL>, i: int)
    requires
        s.wf(),
        0 <= i < s.log().len(),
    ensures
        i == 0 ==> s.log()[i].op == RegOp::ReadPwrClock,
        s.log()[i].op is WriteFlashLatency ==> i > 0 && s.log()[i - 1].op
            == RegOp::ReadVoltageScaling && hsi16_raises_latency(
            s.log()[i - 1].value,
            s.msi_range(),
        ) && s.log()[i].op == RegOp::WriteFlashLatency(hsi16_latency(s.log()[i - 1].value)->Ok_0),
        s.log()[i].op == RegOp::ReadHsi16Ready ==> (s.log()[i - 1].op == RegOp::EnableHsi16 || (
        s.log()[i - 1].op == RegOp::ReadHsi16Ready && s.log()[i - 1].value == 0)),
        s.log()[i].op is WriteSysClockSwitch ==> s.log()[i].op == RegOp::WriteSysClockSwitch(
            ClockSource::HSI16,
        ) && s.log()[i - 1].op == RegOp::ReadHsi16Ready && s.log()[i - 1].value != 0
            && hsi16_latency_prepared(s.log(), s.vos_read(), i, s.msi_range()),
        s.log()[i].op == RegOp::DisableMsi ==> s.log()[i - 1].op == RegOp::ReadSysClockStatus
            && s.log()[i - 1].value == ClockSource::HSI16.spec_selector(),
{
    if i > 0 {
        assert(hsi_follows(s.log()[i - 1], s.log()[i].op, s.msi_range()));
    }
}

/// A switch that ends without error has turned the MSI off as its last
/// access.
pub proof fn lemma_switch_success_ends_with_msi_off<PLL>(s: &HsiSwitch<PLL>)
    requires
        s.wf(),
        s.stage() == HsiStage::Finished(Ok(())),
    ensures
        s.log().len() > 0,
        s.log().last().op == RegOp::DisableMsi,
{
}

impl<PLL> ClockManager<SourceMSI, PLL> {
    /// Begins moving the system clock to the fixed 16MHz oscillator: turn on
    /// the power-control clock if it is off, read the voltage range (stopping
    /// with `UnsupportedVoltageRange` where no table covers it), raise the
    /// flash latency to what 16MHz needs if the committed MSI step needs less,
    /// enable the oscillator, wait for HSIRDY, write the multiplexer selector,
    /// wait until the multiplexer status reads that selector, and turn the MSI
    /// off. A latency that is already enough is left as it is. Each wait reads
    /// its flag once and then up to `retries` more times before giving up with
    /// `HardwareTimeout`. A manager tagged with the new source comes back from
    /// [`HsiSwitch::finish`].
    pub fn switch_to_hsi(self, retries: u32) -> (r: HsiSwitch<PLL>)
        requires
            self.wf(),
        ensures
            r.wf(),
            r.stage() == HsiStage::CheckPwrClock,
            r.retries() == retries,
            r.msi_range() == self.range(),
            r.msi_hz() == self.hz(),
            r.log() == Seq::<Access>::empty(),
            r.steps_left() == 3 * retries + 10,
    {
        HsiSwitch {
            manager: self,
            stage: HsiStage::CheckPwrClock,
            retries,
            polls_left: retries,
            vos_at: Ghost(0),
            log: Ghost(Seq::empty()),
        }
    }
}

} // verus!
