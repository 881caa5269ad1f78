use vstd::prelude::*;

verus! {

/// The error wrapper of the task runtime.
#[derive(Debug)]
pub enum Error<T> {
    BuildError { inner_error: Box<T> },
}

/// The values of the successful results, in order.
pub open spec fn spec_oks<T, E>(s: Seq<Result<T, E>>) -> Seq<T>
    decreases s.len(),
{
    if s.len() == 0 {
        Seq::empty()
    } else {
        match s.last() {
            Ok(v) => spec_oks(s.drop_last()).push(v),
            Err(_) => spec_oks(s.drop_last()),
        }
    }
}

/// The errors of the failed results, in order.
pub open spec fn spec_errs<T, E>(s: Seq<Result<T, E>>) -> Seq<E>
    decreases s.len(),
{
    if s.len() == 0 {
        Seq::empty()
    } else {
        match s.last() {
            Ok(_) => spec_errs(s.drop_last()),
            Err(e) => spec_errs(s.drop_last()).push(e),
        }
    }
}

/// Law: the partition is complete — every build result lands in exactly
/// one of the two halves, so one failed build omits exactly its own unit
/// from the run set and no other.
pub proof fn lemma_partition_complete<T, E>(s: Seq<Result<T, E>>)
    ensures
        spec_oks(s).len() + spec_errs(s).len() == s.len(),
    decreases s.len(),
{
    if s.len() > 0 {
        lemma_partition_complete(s.drop_last());
    }
}

/// Partition a round of build results: the units that built, in order, and
/// the errors of those that did not. One failed build never removes another
/// unit from the run set.
pub fn keep_successes<T, E>(results: Vec<Result<T, E>>) -> (r: (Vec<T>, Vec<E>))
    ensures
        r.0@ == spec_oks(results@),
        r.1@ == spec_errs(results@),
{
    let ghost orig = results@;
    let mut rest = results;
    let mut kept: Vec<T> = Vec::new();
    let mut failed: Vec<E> = Vec::new();
    while rest.len() > 0
        invariant
            rest@.len() <= orig.len(),
            rest@ == orig.subrange(orig.len() - rest@.len(), orig.len() as int),
            kept@ == spec_oks(orig.take(orig.len() - rest@.len())),
            failed@ == spec_errs(orig.take(orig.len() - rest@.len())),
        decreases rest.len(),
    {
        let ghost p = orig.len() - rest@.len();
        let x = rest.remove(0);
        proof {
            assert(x == orig[p]);
            assert(rest@ =~= orig.subrange(p + 1, orig.len() as int));
            assert(orig.take(p + 1).drop_last() =~= orig.take(p));
            assert(orig.take(p + 1).last() == orig[p]);
        }
        match x {
            Ok(v) => kept.push(v),
            Err(e) => failed.push(e),
        }
    }
    proof {
        assert(orig.take(orig.len() as int) =~= orig);
    }
    (kept, failed)
}

/// The phases of one run of the orchestrator.
#[derive(Clone, Copy, Debug, Eq, PartialEq, Structural)]
pub enum RunPhase {
    Idle,
    Building,
    Running,
    ShuttingDown,
    Terminated,
}

/// The mathematical value of an [`Orchestrator`].
pub struct OrchestratorView {
    pub phase: RunPhase,
    pub spawned: usize,
    pub joined: usize,
    pub build_failures: usize,
    pub cancel_sent: bool,
}

/// The state machine that coordinates one run: build every registered
/// unit, spawn what built, and on the first exit or an external interrupt
/// broadcast the single cancellation signal, then join everything.
pub struct Orchestrator {
    phase: RunPhase,
    spawned: usize,
    joined: usize,
    build_failures: usize,
    cancel_sent: bool,
}

impl View for Orchestrator {
    type V = OrchestratorView;

    closed spec fn view(&self) -> OrchestratorView {
        OrchestratorView {
            phase: self.phase,
            spawned: self.spawned,
            joined: self.joined,
            build_failures: self.build_failures,
            cancel_sent: self.cancel_sent,
        }
    }
}

impl Orchestrator {
    /// The invariant of every reachable orchestrator state: no unit joins
    /// that was not spawned, the cancellation broadcast happens exactly on
    /// entering shutdown, and a terminated run has joined every unit.
    pub open spec fn inv(&self) -> bool {
        &&& self@.joined <= self@.spawned
        &&& (self@.cancel_sent <==> (self@.phase is ShuttingDown || self@.phase is Terminated))
        &&& (self@.phase is Terminated ==> self@.joined == self@.spawned)
        &&& ((self@.phase is Idle || self@.phase is Building) ==> self@.spawned == 0
            && self@.joined == 0 && self@.build_failures == 0)
    }

    pub fn new() -> (r: Orchestrator)
        ensures
            r.inv(),
            r@ == (OrchestratorView {
                phase: RunPhase::Idle,
                spawned: 0,
                joined: 0,
                build_failures: 0,
                cancel_sent: false,
            }),
    {
        Orchestrator {
            phase: RunPhase::Idle,
            spawned: 0,
            joined: 0,
            build_failures: 0,
            cancel_sent: false,
        }
    }

    /// Enter the building phase.
    pub fn begin_building(&mut self)
        requires
            old(self).inv(),
            old(self)@.phase is Idle,
        ensures
            final(self).inv(),
            final(self)@ == (OrchestratorView {
                phase: RunPhase::Building,
                spawned: 0,
                joined: 0,
                build_failures: 0,
                cancel_sent: false,
            }),
    {
        self.phase = RunPhase::Building;
    }

    /// Record the outcome of the build phase and enter the running phase:
    /// `built` units are spawned, `failed` build failures were logged and
    /// their units simply omitted from the run set.
    pub fn record_builds(&mut self, built: usize, failed: usize)
        requires
            old(self).inv(),
            old(self)@.phase is Building,
        ensures
            final(self).inv(),
            final(self)@ == (OrchestratorView {
                phase: RunPhase::Running,
                spawned: built,
                joined: 0,
                build_failures: failed,
                cancel_sent: false,
            }),
    {
        self.phase = RunPhase::Running;
        self.spawned = built;
        self.build_failures = failed;
    }

    /// An external interrupt (an operator-requested stop): enter shutdown.
    /// The result says whether to broadcast the cancellation signal now;
    /// with this step the broadcast happens exactly once per run.
    pub fn on_interrupt(&mut self) -> (broadcast_now: bool)
        requires
            old(self).inv(),
            old(self)@.phase is Running,
        ensures
            final(self).inv(),
            broadcast_now == !old(self)@.cancel_sent,
            final(self)@ == (OrchestratorView {
                phase: RunPhase::ShuttingDown,
                spawned: old(self)@.spawned,
                joined: old(self)@.joined,
                build_failures: old(self)@.build_failures,
                cancel_sent: true,
            }),
    {
        let broadcast_now = !self.cancel_sent;
        self.phase = RunPhase::ShuttingDown;
        self.cancel_sent = true;
        broadcast_now
    }

    /// One spawned unit finished (on its own or after the signal). The
    /// first exit of a running set is treated as "the run is over" and
    /// enters shutdown; the result says whether to broadcast the
    /// cancellation signal now, so the broadcast happens exactly once.
    pub fn on_unit_exit(&mut self) -> (broadcast_now: bool)
        requires
            old(self).inv(),
            old(self)@.phase is Running || old(self)@.phase is ShuttingDown,
            old(self)@.joined < old(self)@.spawned,
        ensures
            final(self).inv(),
            broadcast_now == !old(self)@.cancel_sent,
            final(self)@ == (OrchestratorView {
                phase: RunPhase::ShuttingDown,
                spawned: old(self)@.spawned,
                joined: (old(self)@.joined + 1) as usize,
                build_failures: old(self)@.build_failures,
                cancel_sent: true,
            }),
    {
        let broadcast_now = !self.cancel_sent;
        self.phase = RunPhase::ShuttingDown;
        self.cancel_sent = true;
        self.joined = self.joined + 1;
        broadcast_now
    }

    /// Every spawned unit has been joined: the run is terminated.
    pub fn finish(&mut self)
        requires
            old(self).inv(),
            old(self)@.phase is ShuttingDown,
            old(self)@.joined == old(self)@.spawned,
        ensures
            final(self).inv(),
            final(self)@ == (OrchestratorView {
                phase: RunPhase::Terminated,
                spawned: old(self)@.spawned,
                joined: old(self)@.joined,
                build_failures: old(self)@.build_failures,
                cancel_sent: true,
            }),
    {
        self.phase = RunPhase::Terminated;
    }

    /// The current phase.
    pub fn phase(&self) -> (r: RunPhase)
        ensures
            r == self@.phase,
    {
        self.phase
    }

    /// How many units were spawned.
    pub fn spawned(&self) -> (r: usize)
        ensures
            r == self@.spawned,
    {
        self.spawned
    }

    /// How many spawned units have been joined.
    pub fn joined(&self) -> (r: usize)
        ensures
            r == self@.joined,
    {
        self.joined
    }

    /// How many build failures were logged.
    pub fn build_failures(&self) -> (r: usize)
        ensures
            r == self@.build_failures,
    {
        self.build_failures
    }
}

} // verus!
