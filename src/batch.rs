//! The jobs of one run and where each stands: waiting for a slot,
//! transferring, or done with its outcome.

use vstd::prelude::*;

use crate::error::ConfigError;
use crate::limiter::Limiter;
use crate::transfer::Outcome;

verus! {

/// Where one job of a run stands.
#[derive(Clone, Copy, Debug, PartialEq, Eq, Structural)]
pub enum JobState {
    /// Its task exists and waits for a slot.
    Waiting,
    /// It holds a slot and is in its network or disk phase.
    Transferring,
    /// It ended, with this outcome.
    Done(Outcome),
}

/// The number of jobs in `s` that are transferring.
pub open spec fn transferring_count(s: Seq<JobState>) -> nat
    decreases s.len(),
{
    if s.len() == 0 {
        0
    } else if s.last() is Transferring {
        transferring_count(s.drop_last()) + 1
    } else {
        transferring_count(s.drop_last())
    }
}

proof fn lemma_count_update(s: Seq<JobState>, i: int, x: JobState)
    requires
        0 <= i < s.len(),
    ensures
        transferring_count(s.update(i, x)) + (if s[i] is Transferring {
            1int
        } else {
            0
        }) == transferring_count(s) + (if x is Transferring {
            1int
        } else {
            0
        }),
    decreases s.len(),
{
    if i == s.len() - 1 {
        assert(s.update(i, x).drop_last() =~= s.drop_last());
    } else {
        assert(s.update(i, x).drop_last() =~= s.drop_last().update(i, x));
        lemma_count_update(s.drop_last(), i, x);
    }
}

/// The jobs of a run, each with its state, and the limiter they share.
pub struct Batch {
    states: Vec<JobState>,
    limiter: Limiter,
}

impl Batch {
    /// The state of each job, in job order.
    pub closed spec fn states_view(&self) -> Seq<JobState> {
        self.states@
    }

    /// How many jobs may transfer at once.
    pub closed spec fn limit(&self) -> nat {
        self.limiter.cap()
    }

    /// The run's invariant: the limiter is well formed and its taken slots are
    /// exactly the transferring jobs.
    pub closed spec fn wf(&self) -> bool {
        self.limiter.wf() && self.limiter.held() == transferring_count(self.states@)
    }

    /// A run of `n_jobs` waiting jobs, at most `jobs` of which transfer at
    /// once. A limit of zero is refused.
    pub fn new(n_jobs: usize, jobs: usize) -> (r: Result<Batch, ConfigError>)
        ensures
            r is Err <==> jobs == 0,
            match r {
                Ok(b) => b.wf() && b.limit() == jobs && b.states_view() == Seq::new(
                    n_jobs as nat,
                    |i: int| JobState::Waiting,
                ),
                Err(e) => e == ConfigError::ZeroJobs,
            },
    {
        let limiter = match Limiter::new(jobs) {
            Ok(l) => l,
            Err(e) => return Err(e),
        };
        let mut states: Vec<JobState> = Vec::new();
        let mut i: usize = 0;
        while i < n_jobs
            invariant
                i <= n_jobs,
                states@ =~= Seq::new(i as nat, |k: int| JobState::Waiting),
                transferring_count(states@) == 0,
            decreases n_jobs - i,
        {
            let ghost before = states@;
            states.push(JobState::Waiting);
            assert(states@.drop_last() =~= before);
            i = i + 1;
        }
        Ok(Batch { states, limiter })
    }

    /// The number of jobs.
    pub fn len(&self) -> (r: usize)
        ensures
            r == self.states_view().len(),
    {
        self.states.len()
    }

    /// The state of job `i`.
    pub fn state(&self, i: usize) -> (r: JobState)
        requires
            i < self.states_view().len(),
        ensures
            r == self.states_view()[i as int],
    {
        self.states[i]
    }

    /// The number of jobs transferring now.
    pub fn transferring(&self) -> (r: usize)
        requires
            self.wf(),
        ensures
            r == transferring_count(self.states_view()),
    {
        self.limiter.in_flight()
    }

    /// Lets job `i` start if it is waiting and a slot is free, and says
    /// whether it did. No other job is touched.
    pub fn try_start(&mut self, i: usize) -> (r: bool)
        requires
            old(self).wf(),
            i < old(self).states_view().len(),
        ensures
            final(self).wf(),
            final(self).limit() == old(self).limit(),
            r == (old(self).states_view()[i as int] is Waiting && transferring_count(
                old(self).states_view(),
            ) < old(self).limit()),
            r ==> final(self).states_view() == old(self).states_view().update(
                i as int,
                JobState::Transferring,
            ),
            !r ==> final(self).states_view() == old(self).states_view(),
    {
        match self.states[i] {
            JobState::Waiting => {},
            _ => return false,
        }
        if !self.limiter.try_acquire() {
            return false;
        }
        proof {
            lemma_count_update(self.states@, i as int, JobState::Transferring);
        }
        self.states.set(i, JobState::Transferring);
        true
    }

    /// Records that job `i` ended with `outcome` and frees its slot. The
    /// other jobs go on as they were.
    pub fn finish(&mut self, i: usize, outcome: Outcome)
        requires
            old(self).wf(),
            i < old(self).states_view().len(),
            old(self).states_view()[i as int] is Transferring,
        ensures
            final(self).wf(),
            final(self).limit() == old(self).limit(),
            final(self).states_view() == old(self).states_view().update(
                i as int,
                JobState::Done(outcome),
            ),
    {
        proof {
            lemma_count_update(self.states@, i as int, JobState::Done(outcome));
        }
        self.limiter.release();
        self.states.set(i, JobState::Done(outcome));
    }

    /// Whether every job has ended.
    pub fn all_done(&self) -> (r: bool)
        ensures
            r == forall|k: int| 0 <= k < self.states_view().len() ==> (#[trigger] self.states_view()[k]) is Done,
    {
        let mut i: usize = 0;
        while i < self.states.len()
            invariant
                i <= self.states@.len(),
                forall|k: int| 0 <= k < i ==> (#[trigger] self.states@[k]) is Done,
            decreases self.states.len() - i,
        {
            match self.states[i] {
                JobState::Done(_) => {},
                _ => return false,
            }
            i = i + 1;
        }
        true
    }
}

/// In a well-formed run, at no moment are more jobs transferring than the
/// limit allows; every operation above keeps a run well formed.
pub proof fn lemma_at_most_limit_transferring(b: Batch)
    requires
        b.wf(),
    ensures
        transferring_count(b.states_view()) <= b.limit(),
        1 <= b.limit(),
{
    crate::limiter::lemma_within_capacity(b.limiter);
}

} // verus!
