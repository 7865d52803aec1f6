//! Namespace bootstrap: the one-shot privileged sequence that binds the
//! process to its target network namespace before any concurrency exists.
//!
//! The steps are irrevocable process-wide mutations, so they run in a fixed
//! order and any failure is fatal: there is no rollback and no retry. The
//! sequence is decided here; an unverified runner performs each step and
//! reports whether it succeeded. Only a run in which every step succeeded
//! yields a [`NamespaceJoined`] token, and the manager cannot be built
//! without one.

use vstd::prelude::*;

verus! {

/// The privileged steps of the bootstrap, in the order they must run.
#[derive(Clone, Copy, PartialEq, Eq, Structural, Debug)]
pub enum BootStep {
    /// Open the namespace handle in the namespace registry, read-only,
    /// close-on-exec.
    OpenNsHandle,
    /// Join the network namespace named by the open handle.
    JoinNetNs,
    /// Close the handle; it is no longer needed once joined.
    CloseHandle,
    /// Detach the mount namespace so later mount changes stay process-local.
    UnshareMount,
    /// Recursively re-mount the root as a private slave mount, preventing
    /// propagation to the parent mount namespace.
    RemountRootSlave,
    /// Unmount the inherited sysfs view.
    UnmountSys,
    /// Mount a fresh sysfs labeled with the namespace name, so device
    /// enumeration reflects the joined namespace.
    MountSysFs,
}

/// The bootstrap sequence.
pub open spec fn bootstrap_plan_spec() -> Seq<BootStep> {
    seq![
        BootStep::OpenNsHandle,
        BootStep::JoinNetNs,
        BootStep::CloseHandle,
        BootStep::UnshareMount,
        BootStep::RemountRootSlave,
        BootStep::UnmountSys,
        BootStep::MountSysFs,
    ]
}

/// The bootstrap sequence, for the runner to perform in order.
pub fn bootstrap_plan() -> (r: Vec<BootStep>)
    ensures
        r@ == bootstrap_plan_spec(),
{
    let mut r: Vec<BootStep> = Vec::new();
    r.push(BootStep::OpenNsHandle);
    r.push(BootStep::JoinNetNs);
    r.push(BootStep::CloseHandle);
    r.push(BootStep::UnshareMount);
    r.push(BootStep::RemountRootSlave);
    r.push(BootStep::UnmountSys);
    r.push(BootStep::MountSysFs);
    proof {
        assert(r@ =~= bootstrap_plan_spec());
    }
    r
}

/// The shutdown mounts, reversing the bootstrap's last steps in inverse
/// order. They are best-effort: a failure is reported, not retried.
#[derive(Clone, Copy, PartialEq, Eq, Structural, Debug)]
pub enum TeardownStep {
    /// Unmount the namespace-local sysfs.
    UnmountSysFs,
    /// Unmount the namespace registry entry.
    UnmountNsDir,
}

/// The teardown sequence.
pub open spec fn teardown_plan_spec() -> Seq<TeardownStep> {
    seq![TeardownStep::UnmountSysFs, TeardownStep::UnmountNsDir]
}

/// The teardown sequence, for the runner to perform in order.
pub fn teardown_plan() -> (r: Vec<TeardownStep>)
    ensures
        r@ == teardown_plan_spec(),
{
    let mut r: Vec<TeardownStep> = Vec::new();
    r.push(TeardownStep::UnmountSysFs);
    r.push(TeardownStep::UnmountNsDir);
    proof {
        assert(r@ =~= teardown_plan_spec());
    }
    r
}

/// Evidence that the whole bootstrap sequence ran and every step succeeded.
/// The namespace join is irrevocable for the process, so the token has no
/// way back; it exists only to gate the manager's construction.
pub struct NamespaceJoined {
    confirmed: bool,
}

impl NamespaceJoined {
    pub closed spec fn wf(self) -> bool {
        self.confirmed
    }
}

/// Turns the runner's per-step outcomes into the capability token: one
/// outcome per step of the plan, all successful. Anything less is a fatal
/// bootstrap failure and yields nothing.
pub fn confirm_bootstrap(outcomes: &Vec<bool>) -> (r: Option<NamespaceJoined>)
    ensures
        r is Some <==> (outcomes@.len() == bootstrap_plan_spec().len() && (forall|i: int|
            0 <= i < outcomes@.len() ==> outcomes@[i])),
        r matches Some(t) ==> t.wf(),
{
    if outcomes.len() != 7 {
        return None;
    }
    let mut i: usize = 0;
    while i < outcomes.len()
        invariant
            i <= outcomes@.len(),
            forall|j: int| 0 <= j < i ==> outcomes@[j],
        decreases outcomes.len() - i,
    {
        if !outcomes[i] {
            return None;
        }
        i = i + 1;
    }
    Some(NamespaceJoined { confirmed: true })
}

} // verus!
