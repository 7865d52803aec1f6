//! Service lifecycle: Bootstrapped -> Serving -> Draining -> Terminated.
//!
//! The service starts once the namespace is joined and the kernel channel is
//! open, serves until a termination signal or an explicit stop request
//! arrives, drains in-flight calls, and terminates after the serving task has
//! observed the stop and the teardown is done. The stop request travels over
//! a single-use rendezvous: sending it a second time is a no-op, never a
//! deadlock and never an error.

use vstd::prelude::*;

verus! {

/// The phases of the service, in order.
#[derive(Clone, Copy, PartialEq, Eq, Structural, Debug)]
pub enum ServicePhase {
    /// Namespace joined and kernel channel opened; not yet serving.
    Bootstrapped,
    /// Registered with the call dispatcher and accepting calls.
    Serving,
    /// Stop observed; in-flight calls allowed to finish.
    Draining,
    /// Unregistered, teardown done; the process exits.
    Terminated,
}

/// What moves the service between phases.
#[derive(Clone, Copy, PartialEq, Eq, Structural, Debug)]
pub enum ServiceEvent {
    /// Connect, initialize, register and start all succeeded.
    ServerStarted,
    /// A termination signal or an explicit stop request arrived.
    StopRequested,
    /// The serving task observed the stop, unregistered and tore down.
    Drained,
}

/// Position of a phase along the one-way lifecycle.
pub open spec fn phase_rank(p: ServicePhase) -> nat {
    match p {
        ServicePhase::Bootstrapped => 0,
        ServicePhase::Serving => 1,
        ServicePhase::Draining => 2,
        ServicePhase::Terminated => 3,
    }
}

/// The lifecycle transition function. Events that do not apply to the
/// current phase leave it unchanged: in particular a second stop request
/// finds the service already draining (or terminated) and changes nothing.
pub open spec fn next_phase(p: ServicePhase, e: ServiceEvent) -> ServicePhase {
    match (p, e) {
        (ServicePhase::Bootstrapped, ServiceEvent::ServerStarted) => ServicePhase::Serving,
        (ServicePhase::Serving, ServiceEvent::StopRequested) => ServicePhase::Draining,
        (ServicePhase::Draining, ServiceEvent::Drained) => ServicePhase::Terminated,
        _ => p,
    }
}

/// Advances the lifecycle by one event.
pub fn advance(p: ServicePhase, e: ServiceEvent) -> (r: ServicePhase)
    ensures
        r == next_phase(p, e),
{
    match (p, e) {
        (ServicePhase::Bootstrapped, ServiceEvent::ServerStarted) => ServicePhase::Serving,
        (ServicePhase::Serving, ServiceEvent::StopRequested) => ServicePhase::Draining,
        (ServicePhase::Draining, ServiceEvent::Drained) => ServicePhase::Terminated,
        (other, _) => other,
    }
}

/// A duplicate stop request changes nothing: stopping is idempotent.
pub proof fn lemma_stop_idempotent(p: ServicePhase)
    ensures
        next_phase(next_phase(p, ServiceEvent::StopRequested), ServiceEvent::StopRequested)
            == next_phase(p, ServiceEvent::StopRequested),
{
}

/// The lifecycle never moves backwards: every event leaves the phase where
/// it is or moves it forward, so each phase is entered at most once.
pub proof fn lemma_phase_monotone(p: ServicePhase, e: ServiceEvent)
    ensures
        phase_rank(next_phase(p, e)) >= phase_rank(p),
        next_phase(p, e) != p ==> phase_rank(next_phase(p, e)) == phase_rank(p) + 1,
{
}

/// The phase after a whole sequence of events, in order.
pub open spec fn run_phases(p: ServicePhase, evs: Seq<ServiceEvent>) -> ServicePhase
    decreases evs.len(),
{
    if evs.len() == 0 {
        p
    } else {
        run_phases(next_phase(p, evs.first()), evs.drop_first())
    }
}

/// Running a concatenation is running the parts in turn.
pub proof fn lemma_run_phases_append(p: ServicePhase, a: Seq<ServiceEvent>, b: Seq<ServiceEvent>)
    ensures
        run_phases(p, a + b) == run_phases(run_phases(p, a), b),
    decreases a.len(),
{
    if a.len() == 0 {
        assert(a + b =~= b);
    } else {
        assert((a + b).first() == a.first());
        assert((a + b).drop_first() =~= a.drop_first() + b);
        lemma_run_phases_append(next_phase(p, a.first()), a.drop_first(), b);
    }
}

/// Over any event sequence the lifecycle only moves forward: no phase is
/// ever re-entered, however many events arrive.
pub proof fn lemma_run_phases_monotone(p: ServicePhase, evs: Seq<ServiceEvent>)
    ensures
        phase_rank(run_phases(p, evs)) >= phase_rank(p),
    decreases evs.len(),
{
    if evs.len() > 0 {
        lemma_phase_monotone(p, evs.first());
        lemma_run_phases_monotone(next_phase(p, evs.first()), evs.drop_first());
    }
}

/// Running a single event is one transition.
pub proof fn lemma_run_phases_one(p: ServicePhase, e: ServiceEvent)
    ensures
        run_phases(p, seq![e]) == next_phase(p, e),
{
    let evs = seq![e];
    assert(evs.len() == 1);
    assert(evs.first() == e);
    let tail = evs.drop_first();
    assert(tail =~= Seq::<ServiceEvent>::empty());
    assert(run_phases(p, evs) == run_phases(next_phase(p, e), tail));
    assert(run_phases(next_phase(p, e), tail) == next_phase(p, e));
}

/// A duplicated stop request, wherever it arrives in the service's life,
/// changes nothing: the service passes through each phase at most once and
/// the second request neither deadlocks nor errors.
pub proof fn lemma_duplicate_stop_ignored(
    p: ServicePhase,
    pre: Seq<ServiceEvent>,
    post: Seq<ServiceEvent>,
)
    ensures
        run_phases(p, pre + seq![ServiceEvent::StopRequested, ServiceEvent::StopRequested] + post)
            == run_phases(p, pre + seq![ServiceEvent::StopRequested] + post),
{
    let s = ServiceEvent::StopRequested;
    let q = run_phases(p, pre);
    lemma_run_phases_append(p, pre + seq![s, s], post);
    lemma_run_phases_append(p, pre, seq![s, s]);
    lemma_run_phases_append(p, pre + seq![s], post);
    lemma_run_phases_append(p, pre, seq![s]);
    lemma_run_phases_one(q, s);
    assert(seq![s, s].first() == s);
    assert(seq![s, s].drop_first() =~= seq![s]);
    assert(run_phases(q, seq![s, s]) == run_phases(next_phase(q, s), seq![s]));
    lemma_run_phases_one(next_phase(q, s), s);
    lemma_stop_idempotent(q);
}

/// Terminated is absorbing: no event revives the service.
pub proof fn lemma_terminated_final(e: ServiceEvent)
    ensures
        next_phase(ServicePhase::Terminated, e) == ServicePhase::Terminated,
{
}

/// The single-use stop rendezvous. Firing it reports whether this call was
/// the one that delivered the signal; later calls return without effect, so
/// a duplicate stop neither blocks nor errors.
pub struct StopSignal {
    fired: bool,
}

impl StopSignal {
    pub closed spec fn is_fired(self) -> bool {
        self.fired
    }

    /// A fresh, unfired stop signal.
    pub fn new() -> (r: StopSignal)
        ensures
            !r.is_fired(),
    {
        StopSignal { fired: false }
    }

    /// Delivers the stop signal. Returns true only on the first call.
    pub fn fire(&mut self) -> (delivered: bool)
        ensures
            final(self).is_fired(),
            delivered == !old(self).is_fired(),
    {
        let was = self.fired;
        self.fired = true;
        !was
    }
}

} // verus!
