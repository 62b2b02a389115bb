use vstd::prelude::*;
use crate::cpu::CpuCycle;

verus! {

/// Why setting up an engine failed, with the platform error code.
#[derive(Clone, Copy, Debug, PartialEq, Eq, Structural)]
pub enum SetupError {
    /// The kernel could not allocate a ring.
    RingCreation(i32),
    /// The worker bounds could not be registered with a ring.
    Registration(i32),
    /// The kernel refused to read or set the thread's CPU affinity.
    Affinity(i32),
    /// The first submission of a ring failed.
    Submit(i32),
}

/// The next thing the caller performs during setup.
#[derive(Clone, Copy, Debug, PartialEq, Eq, Structural)]
pub enum SetupAction {
    /// Create ring `i` and register its worker bounds.
    Create(usize),
    /// Save the calling thread's current affinity mask.
    SaveMask,
    /// Pin the calling thread to the given CPU, to set up ring `ring`.
    Pin { ring: usize, cpu: usize },
    /// Fill ring `i` to its target depth and submit it once.
    Prime(usize),
    /// Give the calling thread back its saved affinity mask.
    Restore,
    /// Every ring is created and primed, and the mask is restored.
    Done,
    /// Setup stopped on this error.
    Failed(SetupError),
}

/// Where setup stands: the action handed out last.
#[derive(Clone, Copy, Debug, PartialEq, Eq, Structural)]
pub enum SetupPhase {
    Create(usize),
    SaveMask,
    Pin(usize),
    Prime(usize),
    Restore,
    Finished,
}

/// Setup of one engine's rings as a state machine: the caller performs each
/// action handed out and reports how it went. Affinity is a scoped resource:
/// once the thread was pinned, setup ends only after the saved mask was
/// restored, on success and on failure alike.
pub struct Setup {
    num_rings: usize,
    phase: SetupPhase,
    cycle: CpuCycle,
    pinned: bool,
    restore_failed: bool,
    failure: Option<SetupError>,
}

impl Setup {
    pub closed spec fn phase(&self) -> SetupPhase {
        self.phase
    }

    /// Whether the thread may be pinned to some CPU other than its saved mask.
    pub closed spec fn pinned(&self) -> bool {
        self.pinned
    }

    /// Whether the kernel refused to restore the saved mask.
    pub closed spec fn restore_failed(&self) -> bool {
        self.restore_failed
    }

    /// The first failure seen, kept while the mask is restored.
    pub closed spec fn failure(&self) -> Option<SetupError> {
        self.failure
    }

    pub closed spec fn num_rings(&self) -> nat {
        self.num_rings as nat
    }

    pub closed spec fn cycle(&self) -> CpuCycle {
        self.cycle
    }

    pub closed spec fn wf(&self) -> bool {
        &&& self.cycle.wf()
        &&& match self.phase {
            SetupPhase::Create(i) => i < self.num_rings && !self.pinned && !self.restore_failed
                && self.failure is None,
            SetupPhase::SaveMask => !self.pinned && !self.restore_failed && self.failure is None,
            SetupPhase::Pin(i) => i < self.num_rings && !self.restore_failed && self.failure is None,
            SetupPhase::Prime(i) => i < self.num_rings && !self.restore_failed && self.failure is None,
            SetupPhase::Restore => !self.restore_failed,
            SetupPhase::Finished => (self.pinned ==> self.restore_failed) && (self.restore_failed
                ==> self.failure is Some),
        }
    }

    /// Setup of `num_rings` rings on the CPUs of `cpus`, taken in turn. Its
    /// first action is `first_action()`.
    pub fn new(num_rings: usize, cpus: Vec<usize>) -> (r: Setup)
        ensures
            r.wf(),
            r.num_rings() == num_rings,
            !r.pinned(),
            !r.restore_failed(),
            r.failure() is None,
            r.cycle().taken() == 0,
            cpus@.len() > 0 ==> r.cycle().cpus() == cpus@,
            cpus@.len() == 0 ==> r.cycle().cpus() == seq![0usize],
            r.phase() == if num_rings > 0 { SetupPhase::Create(0) } else { SetupPhase::SaveMask },
    {
        let phase = if num_rings > 0 {
            SetupPhase::Create(0)
        } else {
            SetupPhase::SaveMask
        };
        Setup { num_rings, phase, cycle: CpuCycle::new(cpus), pinned: false, restore_failed: false, failure: None }
    }

    /// The action that opens setup: creating the first ring, or saving the
    /// mask when there is no ring.
    pub fn first_action(&self) -> (r: SetupAction)
        requires
            self.phase() == SetupPhase::Create(0) || self.phase() == SetupPhase::SaveMask,
        ensures
            self.phase() == SetupPhase::Create(0) ==> r == SetupAction::Create(0),
            self.phase() == SetupPhase::SaveMask ==> r == SetupAction::SaveMask,
    {
        match self.phase {
            SetupPhase::Create(_) => SetupAction::Create(0),
            _ => SetupAction::SaveMask,
        }
    }

    /// The action that ends setup in its current state.
    fn outcome(&self) -> (r: SetupAction)
        ensures
            r == match self.failure {
                Some(e) => SetupAction::Failed(e),
                None => SetupAction::Done,
            },
    {
        match self.failure {
            Some(e) => SetupAction::Failed(e),
            None => SetupAction::Done,
        }
    }

    /// Hands out the next CPU and records the thread as pinned.
    fn pin(&mut self, ring: usize) -> (r: SetupAction)
        requires
            old(self).wf(),
            ring < old(self).num_rings,
            old(self).failure is None,
        ensures
            final(self).wf(),
            final(self).pinned(),
            final(self).restore_failed() == old(self).restore_failed(),
            final(self).phase() == SetupPhase::Pin(ring),
            final(self).failure() == old(self).failure(),
            final(self).num_rings() == old(self).num_rings(),
            final(self).cycle().cpus() == old(self).cycle().cpus(),
            final(self).cycle().taken() == old(self).cycle().taken() + 1,
            r == (SetupAction::Pin {
                ring,
                cpu: old(self).cycle().cpus()[(old(self).cycle().taken() % (old(
                    self,
                ).cycle().cpus().len() as nat)) as int],
            }),
    {
        let cpu = self.cycle.next_cpu();
        self.pinned = true;
        self.phase = SetupPhase::Pin(ring);
        SetupAction::Pin { ring, cpu }
    }

    /// Keeps the first failure and moves on to restoring the mask.
    fn fail_pinned(&mut self, e: SetupError) -> (r: SetupAction)
        requires
            old(self).wf(),
            !old(self).restore_failed(),
        ensures
            final(self).wf(),
            r == SetupAction::Restore,
            final(self).phase() == SetupPhase::Restore,
            final(self).pinned() == old(self).pinned(),
            final(self).restore_failed() == old(self).restore_failed(),
            final(self).failure() == Some(e),
            final(self).num_rings() == old(self).num_rings(),
            final(self).cycle() == old(self).cycle(),
    {
        self.failure = Some(e);
        self.phase = SetupPhase::Restore;
        SetupAction::Restore
    }

    /// Takes the report of the last action (`None` when it succeeded) and
    /// hands out the next one.
    pub fn step(&mut self, report: Option<SetupError>) -> (r: SetupAction)
        requires
            old(self).wf(),
        ensures
            final(self).wf(),
            final(self).num_rings() == old(self).num_rings(),
            final(self).cycle().cpus() == old(self).cycle().cpus(),
            // The mask is back whenever setup ends, unless restoring it failed.
            r is Done ==> !final(self).pinned() && !final(self).restore_failed(),
            r is Failed ==> !final(self).pinned() || final(self).restore_failed(),
            final(self).restore_failed() == (old(self).restore_failed() || (old(self).phase() is Restore
                && report is Some)),
            r is Done || r is Failed <==> final(self).phase() is Finished,
            match old(self).phase() {
                SetupPhase::Create(i) => match report {
                    Some(e) => r == SetupAction::Failed(e),
                    None => if i + 1 < old(self).num_rings() {
                        r == SetupAction::Create((i + 1) as usize)
                    } else {
                        r == SetupAction::SaveMask
                    },
                },
                SetupPhase::SaveMask => match report {
                    Some(e) => r == SetupAction::Failed(e),
                    None => if old(self).num_rings() > 0 {
                        r matches SetupAction::Pin { ring, cpu } && ring == 0
                    } else {
                        r == SetupAction::Restore
                    },
                },
                SetupPhase::Pin(i) => match report {
                    Some(e) => r == SetupAction::Restore && final(self).failure() == Some(e),
                    None => r == SetupAction::Prime(i),
                },
                SetupPhase::Prime(i) => match report {
                    Some(e) => r == SetupAction::Restore && final(self).failure() == Some(e),
                    None => if i + 1 < old(self).num_rings() {
                        r matches SetupAction::Pin { ring, cpu } && ring == i + 1
                    } else {
                        r == SetupAction::Restore
                    },
                },
                SetupPhase::Restore => match (report, old(self).failure()) {
                    (_, Some(f)) => r == SetupAction::Failed(f),
                    (Some(e), None) => r == SetupAction::Failed(e),
                    (None, None) => r == SetupAction::Done,
                },
                SetupPhase::Finished => *final(self) == *old(self) && r == match old(self).failure() {
                    Some(f) => SetupAction::Failed(f),
                    None => SetupAction::Done,
                },
            },
            r matches SetupAction::Pin { ring, cpu } ==> cpu == old(self).cycle().cpus()[(old(
                self,
            ).cycle().taken() % (old(self).cycle().cpus().len() as nat)) as int],
    {
        match self.phase {
            SetupPhase::Create(i) => match report {
                Some(e) => {
                    self.failure = Some(e);
                    self.phase = SetupPhase::Finished;
                    SetupAction::Failed(e)
                },
                None => {
                    if i + 1 < self.num_rings {
                        self.phase = SetupPhase::Create(i + 1);
                        SetupAction::Create(i + 1)
                    } else {
                        self.phase = SetupPhase::SaveMask;
                        SetupAction::SaveMask
                    }
                },
            },
            SetupPhase::SaveMask => match report {
                Some(e) => {
                    self.failure = Some(e);
                    self.phase = SetupPhase::Finished;
                    SetupAction::Failed(e)
                },
                None => {
                    if self.num_rings > 0 {
                        self.pin(0)
                    } else {
                        self.phase = SetupPhase::Restore;
                        SetupAction::Restore
                    }
                },
            },
            SetupPhase::Pin(i) => match report {
                Some(e) => self.fail_pinned(e),
                None => {
                    self.phase = SetupPhase::Prime(i);
                    SetupAction::Prime(i)
                },
            },
            SetupPhase::Prime(i) => match report {
                Some(e) => self.fail_pinned(e),
                None => {
                    if i + 1 < self.num_rings {
                        self.pin(i + 1)
                    } else {
                        self.phase = SetupPhase::Restore;
                        SetupAction::Restore
                    }
                },
            },
            SetupPhase::Restore => {
                match report {
                    None => {
                        self.pinned = false;
                    },
                    Some(e) => {
                        self.restore_failed = true;
                        if self.failure.is_none() {
                            self.failure = Some(e);
                        }
                    },
                }
                self.phase = SetupPhase::Finished;
                self.outcome()
            },
            SetupPhase::Finished => self.outcome(),
        }
    }
}

} // verus!
