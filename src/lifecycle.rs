use vstd::prelude::*;

verus! {

/// Where the embedded interpreter stands in its one lifetime per process.
#[derive(Clone, Copy, Debug, PartialEq, Eq, Structural)]
pub enum Phase {
    Uninitialized,
    Running,
    Stopped,
}

/// A call that the current phase does not allow.
#[derive(Clone, Copy, Debug, PartialEq, Eq, Structural)]
pub enum LifecycleError {
    /// `start` while the interpreter is already running.
    AlreadyRunning,
    /// `start` after `stop`: the interpreter cannot be initialised twice.
    RestartAfterStop,
    /// `stop`, or an interpreter operation, before `start`.
    NotStarted,
    /// `stop`, or an interpreter operation, after `stop`.
    AlreadyStopped,
}

/// The guarded handle of the process-wide interpreter. Every interpreter
/// operation goes through it, so that the phase decides what is legal.
pub struct Engine {
    phase: Phase,
    starts: u64,
    stops: u64,
}

/// Counts of the transitions so far, as a function of the phase alone:
/// each transition happens at most once.
pub open spec fn starts_of(p: Phase) -> nat {
    match p {
        Phase::Uninitialized => 0,
        _ => 1,
    }
}

pub open spec fn stops_of(p: Phase) -> nat {
    match p {
        Phase::Stopped => 1,
        _ => 0,
    }
}

/// The phase after a `start` in phase `p`, and whether it was accepted.
pub open spec fn start_result(p: Phase) -> Result<Phase, LifecycleError> {
    match p {
        Phase::Uninitialized => Ok(Phase::Running),
        Phase::Running => Err(LifecycleError::AlreadyRunning),
        Phase::Stopped => Err(LifecycleError::RestartAfterStop),
    }
}

/// The phase after a `stop` in phase `p`, and whether it was accepted.
pub open spec fn stop_result(p: Phase) -> Result<Phase, LifecycleError> {
    match p {
        Phase::Running => Ok(Phase::Stopped),
        Phase::Uninitialized => Err(LifecycleError::NotStarted),
        Phase::Stopped => Err(LifecycleError::AlreadyStopped),
    }
}

/// Whether interpreter operations may be issued in phase `p`.
pub open spec fn usable_in(p: Phase) -> Result<(), LifecycleError> {
    match p {
        Phase::Running => Ok(()),
        Phase::Uninitialized => Err(LifecycleError::NotStarted),
        Phase::Stopped => Err(LifecycleError::AlreadyStopped),
    }
}

/// A request to the lifecycle.
#[derive(Clone, Copy, Debug, PartialEq, Eq, Structural)]
pub enum Request {
    Start,
    Stop,
}

/// The outcome of a request in phase `p`.
pub open spec fn request_result(p: Phase, r: Request) -> Result<Phase, LifecycleError> {
    match r {
        Request::Start => start_result(p),
        Request::Stop => stop_result(p),
    }
}

/// The phase after a request: the new phase if accepted, else unchanged.
pub open spec fn after(p: Phase, r: Request) -> Phase {
    match request_result(p, r) {
        Ok(q) => q,
        Err(_) => p,
    }
}

/// The phase after the requests `rs`, in turn.
pub open spec fn after_all(p: Phase, rs: Seq<Request>) -> Phase
    decreases rs.len(),
{
    if rs.len() == 0 {
        p
    } else {
        after_all(after(p, rs[0]), rs.drop_first())
    }
}

/// How many of the requests `rs`, made in turn from phase `p`, are accepted
/// requests of kind `kind`.
pub open spec fn accepted(p: Phase, rs: Seq<Request>, kind: Request) -> nat
    decreases rs.len(),
{
    if rs.len() == 0 {
        0
    } else {
        (if rs[0] == kind && request_result(p, rs[0]) is Ok {
            1nat
        } else {
            0nat
        }) + accepted(after(p, rs[0]), rs.drop_first(), kind)
    }
}

proof fn lemma_accepted_bounded(p: Phase, rs: Seq<Request>)
    ensures
        accepted(p, rs, Request::Start) + starts_of(p) <= 1,
        accepted(p, rs, Request::Stop) + stops_of(p) <= 1,
        p == Phase::Stopped ==> after_all(p, rs) == Phase::Stopped,
        p != Phase::Uninitialized ==> after_all(p, rs) != Phase::Uninitialized,
    decreases rs.len(),
{
    if rs.len() > 0 {
        lemma_accepted_bounded(after(p, rs[0]), rs.drop_first());
    }
}

/// Over any sequence of start and stop requests on a fresh interpreter, at
/// most one start and at most one stop are accepted. Once stopped it stays
/// stopped whatever is requested after, no later start is accepted, and the
/// next start is refused as a restart.
pub proof fn lemma_start_stop_once(rs: Seq<Request>, more: Seq<Request>)
    ensures
        accepted(Phase::Uninitialized, rs, Request::Start) <= 1,
        accepted(Phase::Uninitialized, rs, Request::Stop) <= 1,
        after_all(Phase::Uninitialized, rs) == Phase::Stopped ==> start_result(
            after_all(Phase::Uninitialized, rs),
        ) == Err::<Phase, LifecycleError>(LifecycleError::RestartAfterStop),
        after_all(Phase::Uninitialized, rs) == Phase::Stopped ==> after_all(
            Phase::Uninitialized,
            rs + more,
        ) == Phase::Stopped,
        after_all(Phase::Uninitialized, rs) == Phase::Stopped ==> accepted(
            after_all(Phase::Uninitialized, rs),
            more,
            Request::Start,
        ) == 0,
{
    lemma_accepted_bounded(Phase::Uninitialized, rs);
    lemma_after_all_append(Phase::Uninitialized, rs, more);
    lemma_accepted_bounded(after_all(Phase::Uninitialized, rs), more);
}

proof fn lemma_after_all_append(p: Phase, a: Seq<Request>, b: Seq<Request>)
    ensures
        after_all(p, a + b) == after_all(after_all(p, a), b),
    decreases a.len(),
{
    if a.len() > 0 {
        assert((a + b).drop_first() =~= a.drop_first() + b);
        assert((a + b)[0] == a[0]);
        lemma_after_all_append(after(p, a[0]), a.drop_first(), b);
    } else {
        assert(a + b =~= b);
    }
}

impl Engine {
    pub closed spec fn phase_spec(&self) -> Phase {
        self.phase
    }

    /// How many times `start` has been accepted.
    pub closed spec fn starts(&self) -> nat {
        self.starts as nat
    }

    /// How many times `stop` has been accepted.
    pub closed spec fn stops(&self) -> nat {
        self.stops as nat
    }

    pub closed spec fn wf(&self) -> bool {
        &&& self.starts as nat == starts_of(self.phase)
        &&& self.stops as nat == stops_of(self.phase)
    }

    /// A handle to an interpreter that has not been started.
    pub fn new() -> (r: Engine)
        ensures
            r.wf(),
            r.phase_spec() == Phase::Uninitialized,
            r.starts() == 0,
            r.stops() == 0,
    {
        Engine { phase: Phase::Uninitialized, starts: 0, stops: 0 }
    }

    pub fn phase(&self) -> (r: Phase)
        ensures
            r == self.phase_spec(),
    {
        self.phase
    }

    pub fn is_running(&self) -> (r: bool)
        ensures
            r == (self.phase_spec() == Phase::Running),
    {
        self.phase == Phase::Running
    }

    /// Records a start. Accepted only once, from `Uninitialized`; a start
    /// while running or after a stop is refused and changes nothing.
    pub fn start(&mut self) -> (r: Result<(), LifecycleError>)
        requires
            old(self).wf(),
        ensures
            final(self).wf(),
            match start_result(old(self).phase_spec()) {
                Ok(p) => r == Ok::<(), LifecycleError>(()) && final(self).phase_spec() == p
                    && final(self).starts() == old(self).starts() + 1
                    && final(self).stops() == old(self).stops(),
                Err(e) => r == Err::<(), LifecycleError>(e) && *final(self) == *old(self),
            },
    {
        match self.phase {
            Phase::Uninitialized => {
                self.phase = Phase::Running;
                self.starts = self.starts + 1;
                Ok(())
            },
            Phase::Running => Err(LifecycleError::AlreadyRunning),
            Phase::Stopped => Err(LifecycleError::RestartAfterStop),
        }
    }

    /// Records a stop. Accepted only once, from `Running`.
    pub fn stop(&mut self) -> (r: Result<(), LifecycleError>)
        requires
            old(self).wf(),
        ensures
            final(self).wf(),
            match stop_result(old(self).phase_spec()) {
                Ok(p) => r == Ok::<(), LifecycleError>(()) && final(self).phase_spec() == p
                    && final(self).stops() == old(self).stops() + 1
                    && final(self).starts() == old(self).starts(),
                Err(e) => r == Err::<(), LifecycleError>(e) && *final(self) == *old(self),
            },
    {
        match self.phase {
            Phase::Running => {
                self.phase = Phase::Stopped;
                self.stops = self.stops + 1;
                Ok(())
            },
            Phase::Uninitialized => Err(LifecycleError::NotStarted),
            Phase::Stopped => Err(LifecycleError::AlreadyStopped),
        }
    }

    /// The guard in front of every interpreter operation: `Ok` exactly
    /// while the interpreter is running.
    pub fn ensure_running(&self) -> (r: Result<(), LifecycleError>)
        ensures
            r == usable_in(self.phase_spec()),
    {
        match self.phase {
            Phase::Running => Ok(()),
            Phase::Uninitialized => Err(LifecycleError::NotStarted),
            Phase::Stopped => Err(LifecycleError::AlreadyStopped),
        }
    }
}

} // verus!
