//! Changing the step of the adjustable internal oscillator (MSI).

use crate::access::{Access, RegOp};
use crate::rcc::{
    flash_latency, latency_for_vos, ClockError, ClockManager, FlashLatency, MSIRange, SourceMSI,
    VoltageRange,
};
use vstd::prelude::*;

verus! {

/// Where a range change stands.
#[derive(Clone, Copy, Debug)]
pub enum MsiStage {
    CheckOn,
    CheckReady,
    CheckPwrClock,
    EnablePwrClock,
    WaitPwrClock,
    ReadVoltage,
    WriteLatency(FlashLatency),
    /// Carries the latency to write once the new step is ready, when the
    /// new step needs fewer wait states than the committed one.
    SelectRange(Option<FlashLatency>),
    WriteRange(Option<FlashLatency>),
    WaitReady(Option<FlashLatency>),
    LowerLatency(FlashLatency),
    Finished(Result<(), ClockError>),
}

/// Whether, at the voltage range that the VOS value `bits` encodes, the step
/// `target` needs fewer wait states than the step `current`.
pub open spec fn lowers_latency(bits: u32, target: MSIRange, current: MSIRange) -> bool {
    &&& latency_for_vos(bits, target) is Ok
    &&& latency_for_vos(bits, current) is Ok
    &&& latency_for_vos(bits, target)->Ok_0.wait_states() < latency_for_vos(
        bits,
        current,
    )->Ok_0.wait_states()
}

/// The access a range change toward `target` asks for at `stage`.
pub open spec fn msi_op(stage: MsiStage, target: MSIRange) -> Option<RegOp> {
    match stage {
        MsiStage::CheckOn => Some(RegOp::ReadMsiOn),
        MsiStage::CheckReady => Some(RegOp::ReadMsiReady),
        MsiStage::CheckPwrClock => Some(RegOp::ReadPwrClock),
        MsiStage::EnablePwrClock => Some(RegOp::EnablePwrClock),
        MsiStage::WaitPwrClock => Some(RegOp::ReadPwrClock),
        MsiStage::ReadVoltage => Some(RegOp::ReadVoltageScaling),
        MsiStage::WriteLatency(l) => Some(RegOp::WriteFlashLatency(l)),
        MsiStage::SelectRange(_) => Some(RegOp::SelectMsiRangeFromCr),
        MsiStage::WriteRange(_) => Some(RegOp::WriteMsiRange(target)),
        MsiStage::WaitReady(_) => Some(RegOp::ReadMsiReady),
        MsiStage::LowerLatency(l) => Some(RegOp::WriteFlashLatency(l)),
        MsiStage::Finished(_) => None,
    }
}

/// The stage and poll budget after the access of `stage` answered `value`,
/// in a change from the step `current` to `target`. A wait re-reads its flag
/// while `polls_left` allows, and each wait starts with `retries` re-reads.
pub open spec fn msi_transition(
    stage: MsiStage,
    value: u32,
    polls_left: u32,
    retries: u32,
    target: MSIRange,
    current: MSIRange,
) -> (MsiStage, u32) {
    match stage {
        MsiStage::CheckOn => if value != 0 {
            (MsiStage::CheckReady, polls_left)
        } else {
            (MsiStage::CheckPwrClock, polls_left)
        },
        MsiStage::CheckReady => if value != 0 {
            (MsiStage::CheckPwrClock, polls_left)
        } else {
            (MsiStage::Finished(Err(ClockError::SourceNotReady)), polls_left)
        },
        MsiStage::CheckPwrClock => if value != 0 {
            (MsiStage::ReadVoltage, polls_left)
        } else {
            (MsiStage::EnablePwrClock, polls_left)
        },
        MsiStage::EnablePwrClock => (MsiStage::WaitPwrClock, retries),
        MsiStage::WaitPwrClock => if value != 0 {
            (MsiStage::ReadVoltage, polls_left)
        } else if polls_left == 0 {
            (MsiStage::Finished(Err(ClockError::HardwareTimeout)), polls_left)
        } else {
            (MsiStage::WaitPwrClock, (polls_left - 1) as u32)
        },
        MsiStage::ReadVoltage => match latency_for_vos(value, target) {
            Ok(l) => if lowers_latency(value, target, current) {
                (MsiStage::SelectRange(Some(l)), polls_left)
            } else {
                (MsiStage::WriteLatency(l), polls_left)
            },
            Err(e) => (MsiStage::Finished(Err(e)), polls_left),
        },
        MsiStage::WriteLatency(_) => (MsiStage::SelectRange(None), polls_left),
        MsiStage::SelectRange(later) => (MsiStage::WriteRange(later), polls_left),
        MsiStage::WriteRange(later) => (MsiStage::WaitReady(later), retries),
        MsiStage::WaitReady(later) => if value != 0 {
            match later {
                Some(l) => (MsiStage::LowerLatency(l), polls_left),
                None => (MsiStage::Finished(Ok(())), polls_left),
            }
        } else if polls_left == 0 {
            (MsiStage::Finished(Err(ClockError::HardwareTimeout)), polls_left)
        } else {
            (MsiStage::WaitReady(later), (polls_left - 1) as u32)
        },
        MsiStage::LowerLatency(_) => (MsiStage::Finished(Ok(())), polls_left),
        MsiStage::Finished(r) => (MsiStage::Finished(r), polls_left),
    }
}

/// An upper bound on the accesses still to come.
pub open spec fn msi_steps_left(stage: MsiStage, polls_left: u32, retries: u32) -> nat {
    let wait = retries as nat + 1;
    match stage {
        MsiStage::CheckOn => 10 + 2 * wait,
        MsiStage::CheckReady => 9 + 2 * wait,
        MsiStage::CheckPwrClock => 8 + 2 * wait,
        MsiStage::EnablePwrClock => 7 + 2 * wait,
        MsiStage::WaitPwrClock => polls_left as nat + 1 + 4 + wait,
        MsiStage::ReadVoltage => 4 + wait,
        MsiStage::WriteLatency(_) => 3 + wait,
        MsiStage::SelectRange(later) => 2 + wait + later_writes(later),
        MsiStage::WriteRange(later) => 1 + wait + later_writes(later),
        MsiStage::WaitReady(later) => polls_left as nat + 1 + later_writes(later),
        MsiStage::LowerLatency(_) => 1,
        MsiStage::Finished(_) => 0,
    }
}

/// Accesses a deferred latency write adds.
pub open spec fn later_writes(later: Option<FlashLatency>) -> nat {
    if later is Some {
        1
    } else {
        0
    }
}

/// Whether the write of the new step at `i` in `log` is preceded as a range
/// change from `current` to `target` requires: MSIRGSEL set just before, and
/// before that either the flash latency the new step needs, written right
/// after the voltage range was read, or the voltage-range read itself when
/// the new step needs fewer wait states than `current` (that lower latency
/// is written only once the new step is ready).
pub open spec fn range_write_prepared(
    log: Seq<Access>,
    i: int,
    target: MSIRange,
    current: MSIRange,
) -> bool {
    &&& 2 <= i < log.len()
    &&& log[i].op == RegOp::WriteMsiRange(target)
    &&& log[i - 1].op == RegOp::SelectMsiRangeFromCr
    &&& {
        ||| (i >= 3 && log[i - 3].op == RegOp::ReadVoltageScaling && !lowers_latency(
            log[i - 3].value,
            target,
            current,
        ) && latency_for_vos(log[i - 3].value, target) is Ok && log[i - 2].op
            == RegOp::WriteFlashLatency(latency_for_vos(log[i - 3].value, target)->Ok_0))
        ||| (log[i - 2].op == RegOp::ReadVoltageScaling && lowers_latency(
            log[i - 2].value,
            target,
            current,
        ))
    }
}

/// A range change in progress. Ask [`MsiRangeUpdate::pending`] for the next
/// register access, perform it, and hand its value to
/// [`MsiRangeUpdate::step`]; once nothing is pending,
/// [`MsiRangeUpdate::finish`] returns the manager and the outcome.
pub struct MsiRangeUpdate<PLL> {
    manager: ClockManager<SourceMSI, PLL>,
    target: MSIRange,
    stage: MsiStage,
    retries: u32,
    polls_left: u32,
    range_written: bool,
    start: Ghost<MSIRange>,
    log: Ghost<Seq<Access>>,
}

impl<PLL> MsiRangeUpdate<PLL> {
    pub closed spec fn target(&self) -> MSIRange {
        self.target
    }

    pub closed spec fn stage(&self) -> MsiStage {
        self.stage
    }

    pub closed spec fn retries(&self) -> u32 {
        self.retries
    }

    pub closed spec fn polls_left(&self) -> u32 {
        self.polls_left
    }

    /// The MSI step committed before the change began.
    pub closed spec fn start(&self) -> MSIRange {
        self.start@
    }

    /// The MSI step the manager records now.
    pub closed spec fn committed(&self) -> MSIRange {
        self.manager.range()
    }

    /// Every access performed so far, in order.
    pub closed spec fn log(&self) -> Seq<Access> {
        self.log@
    }

    /// Whether the new step has been written to RCC_CR.MSIRANGE.
    pub closed spec fn written(&self) -> bool {
        self.range_written
    }

    pub open spec fn spec_pending(&self) -> Option<RegOp> {
        msi_op(self.stage(), self.target())
    }

    pub open spec fn steps_left(&self) -> nat {
        msi_steps_left(self.stage(), self.polls_left(), self.retries())
    }

    /// The well-formedness of a range change: the log starts with the read
    /// of MSION, every write of the new step in it was prepared as
    /// [`range_write_prepared`] says, its last accesses are those the stage was
    /// reached by, and the manager records the new step exactly when it has
    /// been written.
    pub closed spec fn wf(&self) -> bool {
        let log = self.log@;
        let n = log.len();
        let target = self.target;
        let start = self.start@;
        &&& self.manager.wf()
        &&& self.polls_left <= self.retries
        &&& (n > 0 ==> log[0].op == RegOp::ReadMsiOn)
        &&& forall|i: int|
            0 <= i < n && (#[trigger] log[i].op) is WriteMsiRange ==> range_write_prepared(
                log,
                i,
                target,
                start,
            )
        &&& self.manager.range() == if self.range_written {
            target
        } else {
            start
        }
        &&& (!self.range_written ==> forall|i: int|
            0 <= i < n ==> !((#[trigger] log[i].op) is WriteMsiRange))
        &&& match self.stage {
            MsiStage::CheckOn => n == 0 && !self.range_written,
            MsiStage::CheckReady => n > 0 && log[n - 1].op == RegOp::ReadMsiOn && log[n - 1].value
                != 0 && !self.range_written,
            MsiStage::CheckPwrClock => n > 0 && !self.range_written,
            MsiStage::EnablePwrClock => n > 0 && !self.range_written,
            MsiStage::WaitPwrClock => n > 0 && !self.range_written,
            MsiStage::ReadVoltage => n > 0 && !self.range_written,
            MsiStage::WriteLatency(l) => n > 0 && log[n - 1].op == RegOp::ReadVoltageScaling
                && !lowers_latency(log[n - 1].value, target, start) && latency_for_vos(
                log[n - 1].value,
                target,
            ) == Ok::<FlashLatency, ClockError>(l) && !self.range_written,
            MsiStage::SelectRange(later) => n > 0 && !self.range_written && match later {
                None => n >= 2 && log[n - 2].op == RegOp::ReadVoltageScaling && !lowers_latency(
                    log[n - 2].value,
                    target,
                    start,
                ) && latency_for_vos(log[n - 2].value, target) is Ok && log[n - 1].op
                    == RegOp::WriteFlashLatency(latency_for_vos(log[n - 2].value, target)->Ok_0),
                Some(_) => log[n - 1].op == RegOp::ReadVoltageScaling && lowers_latency(
                    log[n - 1].value,
                    target,
                    start,
                ),
            },
            MsiStage::WriteRange(later) => n > 0 && !self.range_written && log[n - 1].op
                == RegOp::SelectMsiRangeFromCr && match later {
                None => n >= 3 && log[n - 3].op == RegOp::ReadVoltageScaling && !lowers_latency(
                    log[n - 3].value,
                    target,
                    start,
                ) && latency_for_vos(log[n - 3].value, target) is Ok && log[n - 2].op
                    == RegOp::WriteFlashLatency(latency_for_vos(log[n - 3].value, target)->Ok_0),
                Some(_) => n >= 2 && log[n - 2].op == RegOp::ReadVoltageScaling && lowers_latency(
                    log[n - 2].value,
                    target,
                    start,
                ),
            },
            MsiStage::WaitReady(_) => n > 0 && self.range_written,
            MsiStage::LowerLatency(_) => n > 0 && log[n - 1].op == RegOp::ReadMsiReady && log[n
                - 1].value != 0 && self.range_written,
            MsiStage::Finished(Ok(())) => n > 0 && self.range_written && ((log[n - 1].op
                == RegOp::ReadMsiReady && log[n - 1].value != 0) || (n >= 2 && log[n - 1].op
                is WriteFlashLatency && log[n - 2].op == RegOp::ReadMsiReady && log[n - 2].value
                != 0)),
            MsiStage::Finished(Err(_)) => true,
        }
    }

    /// The next register access to perform, or `None` once the change is over.
    pub fn pending(&self) -> (r: Option<RegOp>)
        ensures
            r == self.spec_pending(),
            r is None <==> self.steps_left() == 0,
    {
        match self.stage {
            MsiStage::CheckOn => Some(RegOp::ReadMsiOn),
            MsiStage::CheckReady => Some(RegOp::ReadMsiReady),
            MsiStage::CheckPwrClock => Some(RegOp::ReadPwrClock),
            MsiStage::EnablePwrClock => Some(RegOp::EnablePwrClock),
            MsiStage::WaitPwrClock => Some(RegOp::ReadPwrClock),
            MsiStage::ReadVoltage => Some(RegOp::ReadVoltageScaling),
            MsiStage::WriteLatency(l) => Some(RegOp::WriteFlashLatency(l)),
            MsiStage::SelectRange(_) => Some(RegOp::SelectMsiRangeFromCr),
            MsiStage::WriteRange(_) => Some(RegOp::WriteMsiRange(self.target)),
            MsiStage::WaitReady(_) => Some(RegOp::ReadMsiReady),
            MsiStage::LowerLatency(l) => Some(RegOp::WriteFlashLatency(l)),
            MsiStage::Finished(_) => None,
        }
    }

    /// Takes the value that the pending access produced (0 for a write) and
    /// moves to the next stage. Writing the new step commits it to the
    /// manager.
    pub fn step(&mut self, value: u32)
        requires
            old(self).wf(),
            old(self).spec_pending() is Some,
        ensures
            final(self).wf(),
            (final(self).stage(), final(self).polls_left()) == msi_transition(
                old(self).stage(),
                value,
                old(self).polls_left(),
                old(self).retries(),
                old(self).target(),
                old(self).start(),
            ),
            final(self).log() == old(self).log().push(
                Access { op: old(self).spec_pending()->Some_0, value },
            ),
            final(self).target() == old(self).target(),
            final(self).retries() == old(self).retries(),
            final(self).start() == old(self).start(),
            final(self).written() == (old(self).written() || old(self).stage() is WriteRange),
            final(self).steps_left() < old(self).steps_left(),
    {
        let ghost op = msi_op(self.stage, self.target)->Some_0;
        let ghost old_log = self.log@;
        self.log = Ghost(self.log@.push(Access { op, value }));
        match self.stage {
            MsiStage::CheckOn => {
                self.stage = if value != 0 {
                    MsiStage::CheckReady
                } else {
                    MsiStage::CheckPwrClock
                };
            },
            MsiStage::CheckReady => {
                self.stage = if value != 0 {
                    MsiStage::CheckPwrClock
                } else {
                    MsiStage::Finished(Err(ClockError::SourceNotReady))
                };
            },
            MsiStage::CheckPwrClock => {
                self.stage = if value != 0 {
                    MsiStage::ReadVoltage
                } else {
                    MsiStage::EnablePwrClock
                };
            },
            MsiStage::EnablePwrClock => {
                self.stage = MsiStage::WaitPwrClock;
                self.polls_left = self.retries;
            },
            MsiStage::WaitPwrClock => {
                if value != 0 {
                    self.stage = MsiStage::ReadVoltage;
                } else if self.polls_left == 0 {
                    self.stage = MsiStage::Finished(Err(ClockError::HardwareTimeout));
                } else {
                    self.polls_left = self.polls_left - 1;
                }
            },
            MsiStage::ReadVoltage => {
                self.stage = match VoltageRange::from_vos(value) {
                    Some(vrange) => match (
                        flash_latency(vrange, self.target),
                        flash_latency(vrange, self.manager.msi_range()),
                    ) {
                        (Ok(new), Ok(current)) => if new.bits() < current.bits() {
                            MsiStage::SelectRange(Some(new))
                        } else {
                            MsiStage::WriteLatency(new)
                        },
                        (Ok(new), Err(_)) => MsiStage::WriteLatency(new),
                        (Err(e), _) => MsiStage::Finished(Err(e)),
                    },
                    None => MsiStage::Finished(Err(ClockError::UnsupportedVoltageRange)),
                };
            },
            MsiStage::WriteLatency(_) => {
                self.stage = MsiStage::SelectRange(None);
            },
            MsiStage::SelectRange(later) => {
                self.stage = MsiStage::WriteRange(later);
            },
            MsiStage::WriteRange(later) => {
                self.manager.commit_msi_range(self.target);
                self.range_written = true;
                self.stage = MsiStage::WaitReady(later);
                self.polls_left = self.retries;
            },
            MsiStage::WaitReady(later) => {
                if value != 0 {
                    self.stage = match later {
                        Some(l) => MsiStage::LowerLatency(l),
                        None => MsiStage::Finished(Ok(())),
                    };
                } else if self.polls_left == 0 {
                    self.stage = MsiStage::Finished(Err(ClockError::HardwareTimeout));
                } else {
                    self.polls_left = self.polls_left - 1;
                }
            },
            MsiStage::LowerLatency(_) => {
                self.stage = MsiStage::Finished(Ok(()));
            },
            MsiStage::Finished(_) => {},
        }
        proof {
            let log = self.log@;
            let n = log.len();
            assert(log[n - 1] == Access { op, value });
            assert forall|i: int|
                0 <= i < n && (#[trigger] log[i].op) is WriteMsiRange implies range_write_prepared(
                log,
                i,
                self.target,
                self.start@,
            ) by {
                if i < n - 1 {
                    assert(log[i] == old_log[i]);
                    assert(log[i - 1] == old_log[i - 1]);
                    assert(log[i - 2] == old_log[i - 2]);
                    if i >= 3 {
                        assert(log[i - 3] == old_log[i - 3]);
                    }
                    assert(range_write_prepared(old_log, i, self.target, self.start@));
                }
            }
            assert forall|i: int| 0 <= i < n && !self.range_written implies !((
            #[trigger] log[i].op) is WriteMsiRange) by {
                if i < n - 1 {
                    assert(log[i] == old_log[i]);
                }
            }
        }
    }

    /// Ends the change: the manager, now recording `target` if the new step
    /// was written, and the outcome.
    pub fn finish(self) -> (r: (ClockManager<SourceMSI, PLL>, Result<(), ClockError>))
        requires
            self.wf(),
            self.spec_pending() is None,
        ensures
            self.stage() == MsiStage::Finished(r.1),
            r.0.wf(),
            r.0.range() == if self.written() {
                self.target()
            } else {
                self.start()
            },
    {
        let result = match self.stage {
            MsiStage::Finished(res) => res,
            _ => Ok(()),
        };
        (self.manager, result)
    }
}

/// In every range change, each write of a new MSI step comes right after
/// MSIRGSEL was set. Before that comes either the flash latency that the new
/// step needs at the voltage range read just before, or, when the new step
/// needs fewer wait states than the committed one, that voltage-range read
/// itself.
pub proof fn lemma_latency_prepared_before_range<PLL>(u: &MsiRangeUpdate<PLL>, i: int)
    requires
        u.wf(),
        0 <= i < u.log().len(),
        u.log()[i].op is WriteMsiRange,
    ensures
        range_write_prepared(u.log(), i, u.target(), u.start()),
{
}

/// A range change that ends without error has read MSIRDY set after the new
/// step was written; its last access is that read, or the write of a lower
/// flash latency right after it.
pub proof fn lemma_success_observes_ready<PLL>(u: &MsiRangeUpdate<PLL>)
    requires
        u.wf(),
        u.stage() == MsiStage::Finished(Ok(())),
    ensures
        u.written(),
        u.committed() == u.target(),
        u.log().len() > 0,
        (u.log().last().op == RegOp::ReadMsiReady && u.log().last().value != 0) || (u.log().len()
            >= 2 && u.log().last().op is WriteFlashLatency && u.log()[u.log().len() - 2].op
            == RegOp::ReadMsiReady && u.log()[u.log().len() - 2].value != 0),
{
}

impl<PLL> ClockManager<SourceMSI, PLL> {
    /// Begins changing the MSI to `new_range`. Each wait for a ready flag
    /// reads it once and then up to `retries` more times before giving up with
    /// `HardwareTimeout`.
    ///
    /// The change checks that the MSI is off or ready (else
    /// `SourceNotReady`), turns on the power-control clock if it is off, and
    /// reads the voltage range (stopping with `UnsupportedVoltageRange` where
    /// no latency table covers it). It then writes the flash latency that the
    /// new step needs, sets MSIRGSEL, writes the new step, and waits for
    /// MSIRDY. When the new step needs fewer wait states than the committed
    /// one, the latency is written last instead, once MSIRDY is set, so that
    /// the flash never runs with too few wait states. The whole change makes
    /// at most `2 * retries + 12` accesses.
    pub fn update_msi_range(self, new_range: MSIRange, retries: u32) -> (r: MsiRangeUpdate<PLL>)
        requires
            self.wf(),
        ensures
            r.wf(),
            r.target() == new_range,
            r.start() == self.range(),
            r.retries() == retries,
            r.stage() == MsiStage::CheckOn,
            r.log() == Seq::<Access>::empty(),
            !r.written(),
            r.steps_left() == 2 * retries + 12,
    {
        let ghost start = self.range();
        MsiRangeUpdate {
            manager: self,
            target: new_range,
            stage: MsiStage::CheckOn,
            retries,
            polls_left: retries,
            range_written: false,
            start: Ghost(start),
            log: Ghost(Seq::empty()),
        }
    }
}

} // verus!
