//! Turning on the frequency-multiplying stage (PLL), fed by the MSI.

use crate::access::{Access, RegOp};
use crate::rcc::{ClockError, ClockManager, PLLConfig, PLLDisabled, PLLEnabled, SourceMSI};
use vstd::prelude::*;

verus! {

/// Where turning on the PLL stands.
#[derive(Clone, Copy, Debug)]
pub enum PllStage {
    WriteConfig,
    CheckInput,
    EnablePll,
    WaitPllReady,
    Finished(Result<(), ClockError>),
}

/// The access that turning on the PLL with RCC_PLLCFGR value `word` asks for
/// at `stage`.
pub open spec fn pll_op(stage: PllStage, word: u32) -> Option<RegOp> {
    match stage {
        PllStage::WriteConfig => Some(RegOp::WritePllConfig(word)),
        PllStage::CheckInput => Some(RegOp::ReadMsiReady),
        PllStage::EnablePll => Some(RegOp::EnablePll),
        PllStage::WaitPllReady => Some(RegOp::ReadPllReady),
        PllStage::Finished(_) => None,
    }
}

/// The stage and poll budget after the access of `stage` answered `value`.
pub open spec fn pll_transition(stage: PllStage, value: u32, polls_left: u32, retries: u32) -> (
    PllStage,
    u32,
) {
    match stage {
        PllStage::WriteConfig => (PllStage::CheckInput, polls_left),
        PllStage::CheckInput => if value != 0 {
            (PllStage::EnablePll, polls_left)
        } else {
            (PllStage::Finished(Err(ClockError::SourceNotReady)), polls_left)
        },
        PllStage::EnablePll => (PllStage::WaitPllReady, retries),
        PllStage::WaitPllReady => if value != 0 {
            (PllStage::Finished(Ok(())), polls_left)
        } else if polls_left == 0 {
            (PllStage::Finished(Err(ClockError::HardwareTimeout)), polls_left)
        } else {
            (PllStage::WaitPllReady, (polls_left - 1) as u32)
        },
        PllStage::Finished(r) => (PllStage::Finished(r), polls_left),
    }
}

/// An upper bound on the accesses still to come.
pub open spec fn pll_steps_left(stage: PllStage, polls_left: u32, retries: u32) -> nat {
    match stage {
        PllStage::WriteConfig => 4 + retries as nat,
        PllStage::CheckInput => 3 + retries as nat,
        PllStage::EnablePll => 2 + retries as nat,
        PllStage::WaitPllReady => polls_left as nat + 1,
        PllStage::Finished(_) => 0,
    }
}

/// Whether `log` begins as turning on the PLL must: RCC_PLLCFGR written with
/// `word`, then MSIRDY read set, then PLLON set.
pub open spec fn pll_started(log: Seq<Access>, word: u32) -> bool {
    &&& log.len() >= 3
    &&& log[0].op == RegOp::WritePllConfig(word)
    &&& log[1].op == RegOp::ReadMsiReady
    &&& log[1].value != 0
    &&& log[2].op == RegOp::EnablePll
}

/// Turning on the PLL in progress, driven as
/// [`crate::msi_update::MsiRangeUpdate`] is.
pub struct PllEnable {
    manager: ClockManager<SourceMSI, PLLDisabled>,
    word: u32,
    stage: PllStage,
    retries: u32,
    polls_left: u32,
    log: Ghost<Seq<Access>>,
}

impl PllEnable {
    /// The RCC_PLLCFGR value being programmed.
    pub closed spec fn word(&self) -> u32 {
        self.word
    }

    pub closed spec fn stage(&self) -> PllStage {
        self.stage
    }

    pub closed spec fn retries(&self) -> u32 {
        self.retries
    }

    pub closed spec fn polls_left(&self) -> u32 {
        self.polls_left
    }

    /// The manager handed in.
    pub closed spec fn manager(&self) -> ClockManager<SourceMSI, PLLDisabled> {
        self.manager
    }

    /// Every access performed so far, in order.
    pub closed spec fn log(&self) -> Seq<Access> {
        self.log@
    }

    pub open spec fn spec_pending(&self) -> Option<RegOp> {
        pll_op(self.stage(), self.word())
    }

    pub open spec fn steps_left(&self) -> nat {
        pll_steps_left(self.stage(), self.polls_left(), self.retries())
    }

    /// The well-formedness: the log holds exactly the accesses that the stage
    /// was reached by.
    pub closed spec fn wf(&self) -> bool {
        let log = self.log@;
        let n = log.len();
        &&& self.manager.wf()
        &&& self.polls_left <= self.retries
        &&& match self.stage {
            PllStage::WriteConfig => n == 0,
            PllStage::CheckInput => n == 1 && log[0].op == RegOp::WritePllConfig(self.word),
            PllStage::EnablePll => n == 2 && log[0].op == RegOp::WritePllConfig(self.word)
                && log[1].op == RegOp::ReadMsiReady && log[1].value != 0,
            PllStage::WaitPllReady => pll_started(log, self.word) && (n == 3 || (log[n - 1].op
                == RegOp::ReadPllReady && log[n - 1].value == 0)),
            PllStage::Finished(Ok(())) => pll_started(log, self.word) && n > 3 && log[n - 1].op
                == RegOp::ReadPllReady && log[n - 1].value != 0,
            PllStage::Finished(Err(e)) => (e == ClockError::SourceNotReady && n == 2 && log[0].op
                == RegOp::WritePllConfig(self.word) && log[1].op == RegOp::ReadMsiReady
                && log[1].value == 0) || (e == ClockError::HardwareTimeout && pll_started(
                log,
                self.word,
            ) && n > 3 && log[n - 1].op == RegOp::ReadPllReady && log[n - 1].value == 0),
        }
    }

    /// The next register access to perform, or `None` once it is over.
    pub fn pending(&self) -> (r: Option<RegOp>)
        ensures
            r == self.spec_pending(),
            r is None <==> self.steps_left() == 0,
    {
        match self.stage {
            PllStage::WriteConfig => Some(RegOp::WritePllConfig(self.word)),
            PllStage::CheckInput => Some(RegOp::ReadMsiReady),
            PllStage::EnablePll => Some(RegOp::EnablePll),
            PllStage::WaitPllReady => Some(RegOp::ReadPllReady),
            PllStage::Finished(_) => None,
        }
    }

    /// Takes the value that the pending access produced (0 for a write) and
    /// moves to the next stage.
    pub fn step(&mut self, value: u32)
        requires
            old(self).wf(),
            old(self).spec_pending() is Some,
        ensures
            final(self).wf(),
            (final(self).stage(), final(self).polls_left()) == pll_transition(
                old(self).stage(),
                value,
                old(self).polls_left(),
                old(self).retries(),
            ),
            final(self).log() == old(self).log().push(
                Access { op: old(self).spec_pending()->Some_0, value },
            ),
            final(self).word() == old(self).word(),
            final(self).retries() == old(self).retries(),
            final(self).manager() == old(self).manager(),
            final(self).steps_left() < old(self).steps_left(),
    {
        let ghost op = pll_op(self.stage, self.word)->Some_0;
        let ghost old_log = self.log@;
        self.log = Ghost(self.log@.push(Access { op, value }));
        match self.stage {
            PllStage::WriteConfig => {
                self.stage = PllStage::CheckInput;
            },
            PllStage::CheckInput => {
                self.stage = if value != 0 {
                    PllStage::EnablePll
                } else {
                    PllStage::Finished(Err(ClockError::SourceNotReady))
                };
            },
            PllStage::EnablePll => {
                self.stage = PllStage::WaitPllReady;
                self.polls_left = self.retries;
            },
            PllStage::WaitPllReady => {
                if value != 0 {
                    self.stage = PllStage::Finished(Ok(()));
                } else if self.polls_left == 0 {
                    self.stage = PllStage::Finished(Err(ClockError::HardwareTimeout));
                } else {
                    self.polls_left = self.polls_left - 1;
                }
            },
            PllStage::Finished(_) => {},
        }
        proof {
            let log = self.log@;
            let n = log.len();
            assert(log[n - 1] == Access { op, value });
            if n > 1 {
                assert(log[0] == old_log[0]);
            }
            if n > 2 {
                assert(log[1] == old_log[1]);
            }
            if n > 3 {
                assert(log[2] == old_log[2]);
            }
        }
    }

    /// Ends it: on success, the manager tagged with the PLL on; otherwise the
    /// manager handed in, unchanged, with the error.
    pub fn finish(self) -> (r: Result<
        ClockManager<SourceMSI, PLLEnabled>,
        (ClockManager<SourceMSI, PLLDisabled>, ClockError),
    >)
        requires
            self.wf(),
            self.spec_pending() is None,
        ensures
            match r {
                Ok(m) => self.stage() matches PllStage::Finished(Ok(_)) && m.wf() && m.range()
                    == self.manager().range(),
                Err((m, e)) => self.stage() == PllStage::Finished(Err(e)) && m
                    == self.manager(),
            },
    {
        match self.stage {
            PllStage::Finished(Err(e)) => Err((self.manager, e)),
            PllStage::Finished(Ok(_)) => Ok(self.manager.into_pll_enabled()),
            _ => Err((self.manager, ClockError::InvalidTransition)),
        }
    }
}

/// Turning on the PLL writes its configuration, reads the MSI ready and sets
/// PLLON before it can succeed, and succeeds only on a PLLRDY read found set.
/// When the MSI reads not ready, PLLON is never set and `SourceNotReady`
/// comes back.
pub proof fn lemma_pll_order(p: &PllEnable)
    requires
        p.wf(),
    ensures
        p.stage() matches PllStage::Finished(Ok(_)) ==> pll_started(p.log(), p.word())
            && p.log().last().op == RegOp::ReadPllReady && p.log().last().value != 0,
        p.stage() == PllStage::Finished(Err(ClockError::SourceNotReady)) ==> p.log().len() == 2
            && p.log()[1].op == RegOp::ReadMsiReady && p.log()[1].value == 0 && !(p.log()[0].op
            == RegOp::EnablePll),
{
}

impl ClockManager<SourceMSI, PLLDisabled> {
    /// Begins turning on the PLL with `config`, fed by the MSI: write
    /// RCC_PLLCFGR, check that the MSI is ready (else `SourceNotReady`), set
    /// PLLON and wait for PLLRDY, reading it once and then up to `retries` more
    /// times before giving up with `HardwareTimeout`. The system clock source
    /// stays the MSI; a manager tagged with the PLL on comes back from
    /// [`PllEnable::finish`].
    pub fn enable_pll(self, config: PLLConfig, retries: u32) -> (r: PllEnable)
        requires
            self.wf(),
        ensures
            r.wf(),
            r.word() == config.word(),
            r.manager() == self,
            r.retries() == retries,
            r.stage() == PllStage::WriteConfig,
            r.log() == Seq::<Access>::empty(),
            r.steps_left() == retries + 4,
    {
        PllEnable {
            manager: self,
            word: config.pllcfgr(),
            stage: PllStage::WriteConfig,
            retries,
            polls_left: retries,
            log: Ghost(Seq::empty()),
        }
    }
}

} // verus!
