//! The run itself, as a step machine the driver walks.
//!
//! A run is linear: check that the selected toolchain targets are
//! installed, ensure the NDK, build each selected architecture in table
//! order, package each in the same order, stop. Every command the machine
//! issues stands for external work; the driver reports its outcome, and any
//! failure moves the machine to the failed state, from which only a
//! failing stop is ever issued again.

use vstd::prelude::*;
use crate::arch::Arch;
use crate::arch::ArchSpec;
use crate::arch::select_archs;
use crate::arch::selected;
use crate::arch::views_of;

verus! {

/// Where the run stands.
#[derive(PartialEq, Eq, Structural, Clone, Copy, Debug)]
pub enum Phase {
    /// Checking that every selected toolchain target is installed.
    CheckTargets,
    /// Making sure the NDK is available.
    EnsureNdk,
    /// Building the architecture at this table position.
    Build { index: usize },
    /// Packaging the architecture at this table position.
    Package { index: usize },
    /// The run finished.
    Done,
    /// A subprocess failed; the run is over.
    Failed,
}

/// What the machine asks the driver to do next.
#[derive(PartialEq, Eq, Structural, Clone, Copy, Debug)]
pub enum Command {
    /// Make sure every selected toolchain target is installed.
    CheckTargets,
    /// Make the NDK available, as the acquisition plan decides.
    EnsureNdk,
    /// Build the architecture at this position of the selection.
    Build { index: usize },
    /// Package the architecture at this position of the selection.
    Package { index: usize },
    /// Stop, successfully or not.
    Stop { ok: bool },
}

/// How the last commanded piece of external work ended.
#[derive(PartialEq, Eq, Structural, Clone, Copy, Debug)]
pub enum Outcome {
    /// Every subprocess the command needed reported success.
    Success,
    /// A subprocess reported failure.
    Failure,
}

/// The orchestrator: the selected architectures and where the run stands.
pub struct Orchestrator {
    /// The selected architectures, in table order.
    pub archs: Vec<Arch>,
    /// Where the run stands.
    pub phase: Phase,
}

/// The phase after one step: any failure is fatal; otherwise the run moves
/// through target check, NDK, the builds, the packagings, and is done.
pub open spec fn spec_next_phase(phase: Phase, n: nat, outcome: Outcome) -> Phase {
    if outcome == Outcome::Failure {
        Phase::Failed
    } else {
        match phase {
            Phase::CheckTargets => Phase::EnsureNdk,
            Phase::EnsureNdk => if n == 0 {
                Phase::Done
            } else {
                Phase::Build { index: 0 }
            },
            Phase::Build { index } => if index + 1 < n {
                Phase::Build { index: (index + 1) as usize }
            } else {
                Phase::Package { index: 0 }
            },
            Phase::Package { index } => if index + 1 < n {
                Phase::Package { index: (index + 1) as usize }
            } else {
                Phase::Done
            },
            Phase::Done => Phase::Done,
            Phase::Failed => Phase::Failed,
        }
    }
}

/// The command a phase asks for.
pub open spec fn spec_command(phase: Phase) -> Command {
    match phase {
        Phase::CheckTargets => Command::CheckTargets,
        Phase::EnsureNdk => Command::EnsureNdk,
        Phase::Build { index } => Command::Build { index },
        Phase::Package { index } => Command::Package { index },
        Phase::Done => Command::Stop { ok: true },
        Phase::Failed => Command::Stop { ok: false },
    }
}

impl Orchestrator {
    /// A phase never points past the selection.
    pub open spec fn wf(self) -> bool {
        &&& (self.phase matches Phase::Build { index } ==> index < self.archs@.len())
        &&& (self.phase matches Phase::Package { index } ==> index < self.archs@.len())
    }

    /// The views of the selected architectures.
    pub open spec fn selection(self) -> Seq<ArchSpec> {
        views_of(self.archs@)
    }

    /// A fresh run over the architectures the prefix selects.
    pub fn new(prefix: &str) -> (s: Self)
        ensures
            s.selection() == selected(prefix@),
            s.phase == Phase::CheckTargets,
            s.wf(),
    {
        Orchestrator { archs: select_archs(prefix), phase: Phase::CheckTargets }
    }

    /// The command the current phase asks for.
    pub fn current_command(&self) -> (c: Command)
        ensures
            c == spec_command(self.phase),
    {
        match self.phase {
            Phase::CheckTargets => Command::CheckTargets,
            Phase::EnsureNdk => Command::EnsureNdk,
            Phase::Build { index } => Command::Build { index },
            Phase::Package { index } => Command::Package { index },
            Phase::Done => Command::Stop { ok: true },
            Phase::Failed => Command::Stop { ok: false },
        }
    }

    /// Advances the run by the outcome of the last command and returns the
    /// next one. A failure outcome moves the run to the failed state at
    /// once; no architecture after it is built or packaged.
    pub fn step(&mut self, outcome: Outcome) -> (c: Command)
        requires
            old(self).wf(),
        ensures
            final(self).archs == old(self).archs,
            final(self).phase == spec_next_phase(old(self).phase, old(self).archs@.len() as nat, outcome),
            c == spec_command(final(self).phase),
            final(self).wf(),
    {
        let n = self.archs.len();
        self.phase = if matches!(outcome, Outcome::Failure) {
            Phase::Failed
        } else {
            match self.phase {
                Phase::CheckTargets => Phase::EnsureNdk,
                Phase::EnsureNdk => if n == 0 {
                    Phase::Done
                } else {
                    Phase::Build { index: 0 }
                },
                Phase::Build { index } => if index + 1 < n {
                    Phase::Build { index: index + 1 }
                } else {
                    Phase::Package { index: 0 }
                },
                Phase::Package { index } => if index + 1 < n {
                    Phase::Package { index: index + 1 }
                } else {
                    Phase::Done
                },
                Phase::Done => Phase::Done,
                Phase::Failed => Phase::Failed,
            }
        };
        self.current_command()
    }
}

/// The phase a fresh run stands in after `k` steps whose outcomes were all
/// successes, over a selection of `n` architectures.
pub open spec fn phase_after_successes(n: nat, k: nat) -> Phase
    decreases k,
{
    if k == 0 {
        Phase::CheckTargets
    } else {
        spec_next_phase(phase_after_successes(n, (k - 1) as nat), n, Outcome::Success)
    }
}

/// The phases of an all-success run, written out: the target check, the
/// NDK step, the builds in table order, the packagings in the same order,
/// then done.
pub open spec fn expected_phase(n: nat, k: nat) -> Phase {
    if k == 0 {
        Phase::CheckTargets
    } else if k == 1 {
        Phase::EnsureNdk
    } else if n == 0 {
        Phase::Done
    } else if k < n + 2 {
        Phase::Build { index: (k - 2) as usize }
    } else if k < 2 * n + 2 {
        Phase::Package { index: (k - n - 2) as usize }
    } else {
        Phase::Done
    }
}

/// Law: a run in which every subprocess succeeds is linear: it checks the
/// targets, ensures the NDK, builds each selected architecture in table
/// order, packages each in the same order, and is done — nothing is
/// repeated, skipped, or reordered.
pub proof fn lemma_successful_run_is_linear(n: nat, k: nat)
    requires
        n <= usize::MAX,
    ensures
        phase_after_successes(n, k) == expected_phase(n, k),
    decreases k,
{
    if k > 0 {
        lemma_successful_run_is_linear(n, (k - 1) as nat);
    }
}

/// The command sequence of an all-success run over `n` architectures.
pub open spec fn success_commands(n: nat) -> Seq<Command> {
    seq![Command::CheckTargets, Command::EnsureNdk] + Seq::new(
        n,
        |i: int| Command::Build { index: i as usize },
    ) + Seq::new(n, |i: int| Command::Package { index: i as usize }) + seq![
        Command::Stop { ok: true },
    ]
}

/// Law: the `k`-th command of an all-success run over `n` architectures is
/// the `k`-th entry of that run's command sequence: one build and one
/// packaging per architecture, in table order, between the toolchain steps
/// and a successful stop.
pub proof fn lemma_successful_run_commands(n: nat, k: nat)
    requires
        n <= usize::MAX,
        k < 2 * n + 3,
    ensures
        spec_command(phase_after_successes(n, k)) == success_commands(n)[k as int],
{
    lemma_successful_run_is_linear(n, k);
}

/// Law: a failed subprocess halts the run immediately: whatever the phase,
/// a failure outcome moves the machine to the failed state, whose only
/// command is a failing stop.
pub proof fn lemma_failure_is_fatal(phase: Phase, n: nat)
    ensures
        spec_next_phase(phase, n, Outcome::Failure) == Phase::Failed,
        spec_command(Phase::Failed) == (Command::Stop { ok: false }),
{
}

/// Law: the failed state is absorbing: no later step leaves it, so no
/// further architecture is built or packaged after a failure.
pub proof fn lemma_failed_is_absorbing(n: nat, outcome: Outcome)
    ensures
        spec_next_phase(Phase::Failed, n, outcome) == Phase::Failed,
        spec_command(spec_next_phase(Phase::Failed, n, outcome)) == (Command::Stop { ok: false }),
{
}

} // verus!
