use vstd::prelude::*;

verus! {

/// Lifecycle state of an erosion droplet.
#[derive(Clone, Copy, Debug, PartialEq, Eq, Structural)]
pub enum DropletPhase {
    Active,
    Terminated,
}

/// What a droplet does at the end of a simulation step.
#[derive(Clone, Copy, Debug, PartialEq, Eq, Structural)]
pub enum StepOutcome {
    /// The droplet keeps flowing.
    Continue,
    /// The droplet came to rest: it deposits all the sediment it still carries
    /// at its position and terminates.
    Settle,
    /// The droplet's water is used up: it terminates without depositing the
    /// remainder.
    Evaporate,
}

/// Water budget and phase of one droplet.
///
/// The droplet starts with a full unit of water and loses the same positive
/// amount at every step; `budget` is the number of steps after which no water
/// is left, and `taken` the number of steps simulated so far.
pub struct DropletLife {
    taken: u32,
    budget: u32,
    phase: DropletPhase,
}

impl DropletLife {
    /// Steps simulated so far.
    pub closed spec fn steps_taken(&self) -> nat {
        self.taken as nat
    }

    /// Steps after which the water is exhausted.
    pub closed spec fn step_budget(&self) -> nat {
        self.budget as nat
    }

    pub closed spec fn spec_phase(&self) -> DropletPhase {
        self.phase
    }

    /// No more steps than the budget were taken, and an active droplet always
    /// has water left.
    pub open spec fn wf(&self) -> bool {
        &&& self.steps_taken() <= self.step_budget()
        &&& self.spec_phase() == DropletPhase::Active ==> self.steps_taken() < self.step_budget()
    }

    /// The droplet after one step ending with the given speed test.
    pub closed spec fn next(&self, slow: bool) -> DropletLife {
        let taken = (self.taken + 1) as u32;
        DropletLife {
            taken,
            budget: self.budget,
            phase: if slow || taken >= self.budget {
                DropletPhase::Terminated
            } else {
                DropletPhase::Active
            },
        }
    }

    /// The droplet after steps ending with the speed tests `slows`, one per
    /// step, for as long as it stays active.
    pub open spec fn run(&self, slows: Seq<bool>) -> DropletLife
        decreases slows.len(),
    {
        if slows.len() == 0 || self.spec_phase() != DropletPhase::Active {
            *self
        } else {
            self.next(slows[0]).run(slows.drop_first())
        }
    }

    /// Steps an active droplet can still take at most.
    pub open spec fn steps_left(&self) -> nat {
        (self.step_budget() - self.steps_taken()) as nat
    }

    /// A freshly spawned droplet whose water lasts `budget` steps. Without any
    /// water it never becomes active.
    pub fn new(budget: u32) -> (r: DropletLife)
        ensures
            r.wf(),
            r.steps_taken() == 0,
            r.step_budget() == budget,
            r.spec_phase() == (if budget > 0 {
                DropletPhase::Active
            } else {
                DropletPhase::Terminated
            }),
    {
        DropletLife {
            taken: 0,
            budget,
            phase: if budget > 0 {
                DropletPhase::Active
            } else {
                DropletPhase::Terminated
            },
        }
    }

    pub fn phase(&self) -> (r: DropletPhase)
        ensures
            r == self.spec_phase(),
    {
        self.phase
    }

    pub fn is_active(&self) -> (r: bool)
        ensures
            r == (self.spec_phase() == DropletPhase::Active),
    {
        match self.phase {
            DropletPhase::Active => true,
            DropletPhase::Terminated => false,
        }
    }

    /// Steps simulated so far (each one cost one decrement of water).
    pub fn steps(&self) -> (r: u32)
        ensures
            r == self.steps_taken(),
    {
        self.taken
    }

    /// Steps after which the water is exhausted.
    pub fn budget(&self) -> (r: u32)
        ensures
            r == self.step_budget(),
    {
        self.budget
    }

    /// Ends one simulation step of an active droplet: one decrement of water is
    /// spent; a droplet moving slower than the rest threshold settles,
    /// otherwise one that has no water left evaporates, otherwise it goes on.
    /// Every step brings the droplet strictly closer to the end of its budget,
    /// so no droplet is simulated for more than its budget of steps.
    pub fn advance(&mut self, slow: bool) -> (r: StepOutcome)
        requires
            old(self).wf(),
            old(self).spec_phase() == DropletPhase::Active,
        ensures
            *final(self) == old(self).next(slow),
            final(self).wf(),
            final(self).step_budget() == old(self).step_budget(),
            final(self).steps_taken() == old(self).steps_taken() + 1,
            final(self).steps_left() < old(self).steps_left(),
            slow ==> r == StepOutcome::Settle,
            !slow && final(self).steps_taken() < final(self).step_budget() ==> r
                == StepOutcome::Continue,
            !slow && final(self).steps_taken() == final(self).step_budget() ==> r
                == StepOutcome::Evaporate,
            final(self).spec_phase() == (if r == StepOutcome::Continue {
                DropletPhase::Active
            } else {
                DropletPhase::Terminated
            }),
    {
        self.taken = self.taken + 1;
        if slow {
            self.phase = DropletPhase::Terminated;
            StepOutcome::Settle
        } else if self.taken < self.budget {
            StepOutcome::Continue
        } else {
            self.phase = DropletPhase::Terminated;
            StepOutcome::Evaporate
        }
    }
}

/// Every droplet terminates: whatever the speed tests at the ends of its steps,
/// a droplet is no longer active after as many steps as its water budget lasts.
pub proof fn lemma_droplet_terminates(d: DropletLife, slows: Seq<bool>)
    requires
        d.wf(),
        slows.len() >= d.steps_left(),
    ensures
        d.run(slows).spec_phase() == DropletPhase::Terminated,
    decreases slows.len(),
{
    if d.spec_phase() == DropletPhase::Active {
        let n = d.next(slows[0]);
        assert(n.wf());
        lemma_droplet_terminates(n, slows.drop_first());
    }
}

} // verus!
