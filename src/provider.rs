//! The contract a resource provider's `create` / `destroy` pair follows, as the controller
//! sees it: what a failed create leaves behind, and which resources still need teardown.
use vstd::prelude::*;

verus! {

/// What a failed provider call left behind.
#[derive(Clone, Copy, Debug, PartialEq, Eq, Structural)]
pub enum Resources {
    /// Nothing was created; safe to retry from scratch and nothing to destroy.
    Clear,
    /// Partial state exists; destroy must still be attempted.
    Remaining,
}

/// An error reported by a provider's `create` or `destroy`.
#[derive(Clone, Debug)]
pub struct ProviderError {
    pub resources: Resources,
    pub message: String,
}

impl ProviderError {
    pub fn new(resources: Resources, message: String) -> (r: ProviderError)
        ensures
            r.resources == resources,
            r.message@ == message@,
    {
        ProviderError { resources, message }
    }

    /// Whether the failed call obliges the controller to run destroy later.
    pub fn requires_destroy(&self) -> (r: bool)
        ensures
            r == (self.resources == Resources::Remaining),
    {
        match self.resources {
            Resources::Clear => false,
            Resources::Remaining => true,
        }
    }
}

/// Where the controller stands with one declared resource, in creation order.
#[derive(Clone, Copy, Debug, PartialEq, Eq, Structural)]
pub enum ResourceState {
    /// No agent job has been started for it.
    Pending,
    /// Its create job runs.
    Creating,
    /// Create succeeded.
    Created,
    /// Create failed with the given severity.
    CreateFailed(Resources),
    /// Its destroy job runs.
    Destroying,
    /// Destroy succeeded.
    Destroyed,
    /// Destroy failed; it is not attempted again.
    DestroyFailed,
}

/// What the resource's agent has last published about it.
#[derive(Clone, Copy, Debug, PartialEq, Eq, Structural)]
pub enum AgentReport {
    Working,
    CreateSucceeded,
    CreateFailed(Resources),
    DestroySucceeded,
    DestroyFailed,
}

/// A resource in this state may hold something in the outside world and has not been
/// handed to destroy yet. A create job that was still running counts, since it may have
/// created something before it ended.
pub open spec fn needs_destroy(s: ResourceState) -> bool {
    match s {
        ResourceState::Creating | ResourceState::Created => true,
        ResourceState::CreateFailed(r) => r == Resources::Remaining,
        _ => false,
    }
}

pub fn state_needs_destroy(s: ResourceState) -> (r: bool)
    ensures
        r == needs_destroy(s),
{
    match s {
        ResourceState::Creating | ResourceState::Created => true,
        ResourceState::CreateFailed(r) => match r {
            Resources::Clear => false,
            Resources::Remaining => true,
        },
        _ => false,
    }
}

/// The indices below `k` whose resource needs destroy, highest first.
pub open spec fn teardown_from(states: Seq<ResourceState>, k: int) -> Seq<int>
    decreases k,
{
    if k <= 0 {
        seq![]
    } else if needs_destroy(states[k - 1]) {
        seq![k - 1].add(teardown_from(states, k - 1))
    } else {
        teardown_from(states, k - 1)
    }
}

/// The order in which the resources in `states` (creation order) are destroyed.
pub open spec fn teardown_order_of(states: Seq<ResourceState>) -> Seq<int> {
    teardown_from(states, states.len() as int)
}

/// The indices of the resources to destroy, in reverse creation order.
pub fn teardown_order(states: &Vec<ResourceState>) -> (r: Vec<usize>)
    ensures
        r@.map_values(|x: usize| x as int) == teardown_order_of(states@),
{
    let mut out: Vec<usize> = Vec::new();
    let mut k: usize = states.len();
    proof {
        assert(teardown_from(states@, states@.len() as int) =~= seq![].add(
            teardown_from(states@, k as int),
        ));
    }
    while k > 0
        invariant
            k <= states.len(),
            teardown_order_of(states@) =~= out@.map_values(|x: usize| x as int).add(
                teardown_from(states@, k as int),
            ),
        decreases k,
    {
        let s = states[k - 1];
        let ghost before = out@;
        if state_needs_destroy(s) {
            out.push(k - 1);
            assert(out@.map_values(|x: usize| x as int) =~= before.map_values(
                |x: usize| x as int,
            ).push(k - 1));
        }
        proof {
            assert(teardown_order_of(states@) =~= out@.map_values(|x: usize| x as int).add(
                teardown_from(states@, k - 1),
            ));
        }
        k = k - 1;
    }
    proof {
        assert(teardown_order_of(states@) =~= out@.map_values(|x: usize| x as int).add(seq![]));
    }
    out
}

proof fn lemma_teardown_bounds(states: Seq<ResourceState>, k: int)
    requires
        0 <= k <= states.len(),
    ensures
        forall|n: int|
            0 <= n < teardown_from(states, k).len() ==> {
                &&& teardown_from(states, k)[n] < k
                &&& needs_destroy(states[teardown_from(states, k)[n]])
            },
        forall|n: int, m: int|
            0 <= n < m < teardown_from(states, k).len() ==> teardown_from(states, k)[n]
                > teardown_from(states, k)[m],
        forall|i: int|
            0 <= i < k && needs_destroy(states[i]) ==> teardown_from(states, k).contains(i),
    decreases k,
{
    if k > 0 {
        lemma_teardown_bounds(states, k - 1);
        let t = teardown_from(states, k - 1);
        if needs_destroy(states[k - 1]) {
            let u = seq![k - 1].add(t);
            assert forall|i: int| 0 <= i < k && needs_destroy(states[i]) implies u.contains(i) by {
                if i == k - 1 {
                    assert(u[0] == i);
                } else {
                    assert(0 <= i < k - 1 && needs_destroy(states[i]));
                    assert(t.contains(i));
                    let n = choose|n: int| 0 <= n < t.len() && t[n] == i;
                    assert(u[n + 1] == i);
                }
            }
        }
    }
}

/// Teardown goes in strict reverse order of creation, and it takes exactly the resources
/// that may hold something: one that failed with nothing left behind is never destroyed,
/// one that failed with something left behind is destroyed exactly once.
pub proof fn lemma_teardown_reverse_and_exact(states: Seq<ResourceState>)
    ensures
        forall|n: int, m: int|
            0 <= n < m < teardown_order_of(states).len() ==> teardown_order_of(states)[n]
                > teardown_order_of(states)[m],
        forall|i: int|
            0 <= i < states.len() ==> (teardown_order_of(states).contains(i) <==> needs_destroy(
                states[i],
            )),
        forall|i: int|
            0 <= i < states.len() && states[i] == ResourceState::CreateFailed(Resources::Clear)
                ==> !teardown_order_of(states).contains(i),
        forall|i: int|
            0 <= i < states.len() && states[i] == ResourceState::CreateFailed(
                Resources::Remaining,
            ) ==> teardown_order_of(states).contains(i),
        forall|n: int, m: int|
            0 <= n < teardown_order_of(states).len() && 0 <= m < teardown_order_of(states).len()
                && teardown_order_of(states)[n] == teardown_order_of(states)[m] ==> n == m,
{
    let t = teardown_order_of(states);
    lemma_teardown_bounds(states, states.len() as int);
    assert forall|i: int| 0 <= i < states.len() implies (t.contains(i) <==> needs_destroy(
        states[i],
    )) by {
        if t.contains(i) {
            let n = choose|n: int| 0 <= n < t.len() && t[n] == i;
            assert(needs_destroy(states[t[n]]));
        }
    }
    assert forall|n: int, m: int|
        0 <= n < t.len() && 0 <= m < t.len() && t[n] == t[m] implies n == m by {
        if n < m {
            assert(t[n] > t[m]);
        } else if m < n {
            assert(t[m] > t[n]);
        }
    }
}

} // verus!
