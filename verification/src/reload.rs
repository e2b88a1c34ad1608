//! The reload coordinator: the one place where the configuration snapshot
//! changes.
//!
//! The coordinator is idle or reloading. A reload is asked for from outside;
//! the coordinator has the configuration loaded again and, when the answer
//! comes, either publishes the new snapshot and retires the listener of the
//! old one, or keeps the old snapshot and goes on as if nothing had been
//! asked. A request to terminate waits for a reload that is under way.

use crate::config::Config;
use vstd::prelude::*;

verus! {

/// Whether a reload is under way.
#[derive(Clone, Copy, Debug, PartialEq, Eq, Structural)]
pub enum Phase {
    Idle,
    Reloading,
}

/// What reaches the coordinator.
pub enum Signal {
    /// A reload is asked for.
    Reload,
    /// The configuration was loaded again: the new snapshot, or nothing where
    /// it could not be loaded.
    Loaded(Option<Config>),
    /// The process is to end.
    Terminate,
}

/// What the coordinator has done about a signal, and what is left to do
/// outside.
#[derive(Clone, Copy, Debug, PartialEq, Eq, Structural)]
pub enum Outcome {
    /// Nothing is to be done.
    Ignored,
    /// The configuration is to be loaded from where it was loaded at start.
    Load,
    /// The snapshot stays. With `exit` set the process then ends.
    Abandoned { exit: bool },
    /// A new snapshot is current. The working directory follows its root, the
    /// two stores of the cache take its capacities and size limit, the
    /// listener of generation `retired` is stopped and one of generation
    /// `started` is bound. With `exit` set the process ends instead of
    /// binding.
    Applied { retired: u64, started: u64, exit: bool },
    /// The marker file of the process is removed and the process ends with
    /// status 0.
    Exit,
}

/// The coordinator: the current snapshot, the generation of its listener,
/// and the phase.
pub struct ReloadCoordinator {
    current: Config,
    generation: u64,
    phase: Phase,
    exiting: bool,
}

impl ReloadCoordinator {
    /// The current snapshot.
    pub closed spec fn current(&self) -> Config {
        self.current
    }

    /// The generation of the listener that serves the current snapshot.
    pub closed spec fn generation(&self) -> u64 {
        self.generation
    }

    /// Whether a reload is under way.
    pub closed spec fn phase(&self) -> Phase {
        self.phase
    }

    /// Whether the process ends once the reload under way is over.
    pub closed spec fn exiting(&self) -> bool {
        self.exiting
    }

    /// A request to terminate is only ever kept for a reload under way.
    pub open spec fn wf(&self) -> bool {
        self.exiting() ==> self.phase() == Phase::Reloading
    }

    /// What a signal leads to.
    pub open spec fn outcome(&self, signal: Signal) -> Outcome {
        match (self.phase(), signal) {
            (Phase::Idle, Signal::Reload) => Outcome::Load,
            (Phase::Reloading, Signal::Reload) => Outcome::Ignored,
            (Phase::Idle, Signal::Loaded(_)) => Outcome::Ignored,
            (Phase::Reloading, Signal::Loaded(None)) => Outcome::Abandoned { exit: self.exiting() },
            (Phase::Reloading, Signal::Loaded(Some(_))) => Outcome::Applied {
                retired: self.generation(),
                started: (self.generation() + 1) as u64,
                exit: self.exiting(),
            },
            (Phase::Idle, Signal::Terminate) => Outcome::Exit,
            (Phase::Reloading, Signal::Terminate) => Outcome::Ignored,
        }
    }

    /// The snapshot after a signal: the one that was loaded, where a reload
    /// under way succeeded, and the one before in every other case.
    pub open spec fn snapshot_after(&self, signal: Signal) -> Config {
        match (self.phase(), signal) {
            (Phase::Reloading, Signal::Loaded(Some(config))) => config,
            _ => self.current(),
        }
    }

    /// The phase after a signal.
    pub open spec fn phase_after(&self, signal: Signal) -> Phase {
        match (self.phase(), signal) {
            (Phase::Idle, Signal::Reload) => Phase::Reloading,
            (Phase::Reloading, Signal::Loaded(_)) => Phase::Idle,
            (phase, _) => phase,
        }
    }

    /// The coordinator at start: `config` is current, its listener is of
    /// generation `generation`, and no reload is under way.
    pub fn new(config: Config, generation: u64) -> (c: ReloadCoordinator)
        ensures
            c.wf(),
            c.current() == config,
            c.generation() == generation,
            c.phase() == Phase::Idle,
            !c.exiting(),
    {
        ReloadCoordinator { current: config, generation, phase: Phase::Idle, exiting: false }
    }

    /// The current snapshot.
    pub fn snapshot(&self) -> (config: &Config)
        ensures
            *config == self.current(),
    {
        &self.current
    }

    /// The generation of the current listener.
    pub fn current_generation(&self) -> (generation: u64)
        ensures
            generation == self.generation(),
    {
        self.generation
    }

    /// Whether a reload is under way.
    pub fn is_reloading(&self) -> (b: bool)
        ensures
            b == (self.phase() == Phase::Reloading),
    {
        match self.phase {
            Phase::Reloading => true,
            Phase::Idle => false,
        }
    }

    /// Takes one signal. The snapshot changes only when a reload under way
    /// has loaded a new one, and the generation grows by one exactly then. A
    /// second request for a reload while one is under way changes nothing. A
    /// request to terminate ends the process at once when idle, and after
    /// the reload when one is under way.
    pub fn on_signal(&mut self, signal: Signal) -> (outcome: Outcome)
        requires
            old(self).wf(),
            old(self).generation() < u64::MAX,
        ensures
            final(self).wf(),
            outcome == old(self).outcome(signal),
            final(self).current() == old(self).snapshot_after(signal),
            final(self).phase() == old(self).phase_after(signal),
            final(self).generation() == (if outcome is Applied {
                old(self).generation() + 1
            } else {
                old(self).generation() as int
            }),
            final(self).exiting() == (final(self).phase() == Phase::Reloading && (old(
                self,
            ).exiting() || signal is Terminate)),
    {
        match self.phase {
            Phase::Idle => match signal {
                Signal::Reload => {
                    self.phase = Phase::Reloading;
                    Outcome::Load
                },
                Signal::Loaded(_) => Outcome::Ignored,
                Signal::Terminate => Outcome::Exit,
            },
            Phase::Reloading => match signal {
                Signal::Reload => Outcome::Ignored,
                Signal::Loaded(None) => {
                    let exit = self.exiting;
                    self.phase = Phase::Idle;
                    self.exiting = false;
                    Outcome::Abandoned { exit }
                },
                Signal::Loaded(Some(config)) => {
                    let exit = self.exiting;
                    let retired = self.generation;
                    self.current = config;
                    self.generation = retired + 1;
                    self.phase = Phase::Idle;
                    self.exiting = false;
                    Outcome::Applied { retired, started: retired + 1, exit }
                },
                Signal::Terminate => {
                    self.exiting = true;
                    Outcome::Ignored
                },
            },
        }
    }
}

/// Reload atomicity: a reload that cannot load a configuration leaves the
/// current snapshot exactly as it was, and the generation with it.
pub proof fn lemma_failed_reload_keeps_snapshot(before: ReloadCoordinator)
    ensures
        before.snapshot_after(Signal::Loaded(None)) == before.current(),
        before.snapshot_after(Signal::Reload) == before.current(),
        before.snapshot_after(Signal::Terminate) == before.current(),
        !(before.outcome(Signal::Loaded(None)) is Applied),
{
}

/// A request for a reload is idempotent: while a reload is under way, a
/// second request is ignored and changes neither snapshot nor phase.
pub proof fn lemma_second_reload_is_ignored(before: ReloadCoordinator)
    requires
        before.phase() == Phase::Reloading,
    ensures
        before.outcome(Signal::Reload) == Outcome::Ignored,
        before.phase_after(Signal::Reload) == Phase::Reloading,
        before.snapshot_after(Signal::Reload) == before.current(),
{
}

} // verus!
