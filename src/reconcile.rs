//! The controller's state machine: from the cached `Test` to the next action, and the change
//! that each action makes to the object before it is written back with the version last read.
use vstd::prelude::*;
use crate::finalizer::{main_token, pod_token, safe_to_delete, with_added, with_removed};
use crate::model::{ControllerStatus, Test, TestInterface, TestReport, TestState};
use crate::provider::{needs_destroy, state_needs_destroy, AgentReport, ResourceState, Resources};

verus! {

/// What the controller does next for one `Test`.
#[derive(Clone, Copy, Debug, PartialEq, Eq, Structural)]
pub enum Action {
    /// Take ownership of the object.
    AddMainFinalizer,
    /// Launch the create job of the resource at this index and add the pod finalizer.
    StartResource(usize),
    /// The resource's agent reported a successful create.
    RecordCreated(usize),
    /// The resource's agent reported a failed create; the test has failed.
    RecordCreateFailed(usize, Resources),
    /// Launch the test-agent job and add the pod finalizer.
    StartTest,
    /// The test agent reported its outcome (`true`: passed).
    RecordTestResult(bool),
    /// Make sure the jobs have ended, then drop the pod finalizer.
    RemovePodFinalizer,
    /// Launch the destroy job of the resource at this index.
    StartDestroy(usize),
    /// The resource's agent reported the outcome of destroy (`true`: succeeded).
    RecordDestroyed(usize, bool),
    /// Release the object to the control plane.
    RemoveMainFinalizer,
    /// An agent is at work: look again later.
    Requeue,
    /// Nothing to do until the object changes.
    Idle,
}

/// The parts of a `Test` that the state machine reads.
pub struct Snapshot {
    pub finalizers: Seq<Seq<char>>,
    pub deleting: bool,
    /// Controller-side state of each declared resource, in creation order.
    pub resources: Seq<ResourceState>,
    /// Agent-side report of each declared resource.
    pub reports: Seq<AgentReport>,
    pub test: TestState,
    pub report: TestReport,
}

/// The lifecycle phase that a snapshot is in.
#[derive(Clone, Copy, Debug, PartialEq, Eq, Structural)]
pub enum Phase {
    Initial,
    ResourcesPending,
    TestRunning,
    Completed,
    Failed,
    Deleting,
}

pub open spec fn stored_states(t: Test) -> Seq<ResourceState> {
    match t.controller_view() {
        Some(c) => c.resources@,
        None => Seq::empty(),
    }
}

pub open spec fn stored_reports(t: Test) -> Seq<AgentReport> {
    match t.agent_view() {
        Some(a) => a.resources@,
        None => Seq::empty(),
    }
}

/// State of resource `i`; one with no stored entry has not been started.
pub open spec fn state_at(t: Test, i: int) -> ResourceState {
    if i < stored_states(t).len() {
        stored_states(t)[i]
    } else {
        ResourceState::Pending
    }
}

/// Report of resource `i`; one with no stored entry is still at work.
pub open spec fn report_at(t: Test, i: int) -> AgentReport {
    if i < stored_reports(t).len() {
        stored_reports(t)[i]
    } else {
        AgentReport::Working
    }
}

pub open spec fn snapshot(t: Test) -> Snapshot {
    Snapshot {
        finalizers: t.finalizer_view(),
        deleting: t.deletion_requested,
        resources: Seq::new(t.resources@.len(), |i: int| state_at(t, i)),
        reports: Seq::new(t.resources@.len(), |i: int| report_at(t, i)),
        test: match t.controller_view() {
            Some(c) => c.test,
            None => TestState::NotStarted,
        },
        report: match t.agent_view() {
            Some(a) => a.test,
            None => TestReport::Working,
        },
    }
}

/// The first index at or after `k` whose resource is not created yet; the length if none.
pub open spec fn first_unready(rs: Seq<ResourceState>, k: int) -> int
    decreases rs.len() - k,
{
    if k < 0 || k >= rs.len() {
        rs.len() as int
    } else if rs[k] == ResourceState::Created {
        first_unready(rs, k + 1)
    } else {
        k
    }
}

/// Teardown of this resource is still ahead or under way.
pub open spec fn teardown_open(s: ResourceState) -> bool {
    needs_destroy(s) || s == ResourceState::Destroying
}

/// The highest index below `k` whose teardown is open; -1 if none.
pub open spec fn last_open(rs: Seq<ResourceState>, k: int) -> int
    decreases k,
{
    if k <= 0 {
        -1
    } else if teardown_open(rs[k - 1]) {
        k - 1
    } else {
        last_open(rs, k - 1)
    }
}

pub open spec fn deleting_action(s: Snapshot) -> Action {
    if !s.finalizers.contains(main_token()) {
        Action::Idle
    } else if s.finalizers.contains(pod_token()) {
        Action::RemovePodFinalizer
    } else if !safe_to_delete(s.finalizers) {
        Action::Requeue
    } else {
        let j = last_open(s.resources, s.resources.len() as int);
        if j < 0 {
            Action::RemoveMainFinalizer
        } else if s.resources[j] == ResourceState::Destroying {
            match s.reports[j] {
                AgentReport::DestroySucceeded => Action::RecordDestroyed(j as usize, true),
                AgentReport::DestroyFailed => Action::RecordDestroyed(j as usize, false),
                _ => Action::Requeue,
            }
        } else {
            Action::StartDestroy(j as usize)
        }
    }
}

pub open spec fn running_action(s: Snapshot) -> Action {
    let i = first_unready(s.resources, 0);
    if i < s.resources.len() {
        match s.resources[i] {
            ResourceState::Pending => Action::StartResource(i as usize),
            ResourceState::Creating => match s.reports[i] {
                AgentReport::CreateSucceeded => Action::RecordCreated(i as usize),
                AgentReport::CreateFailed(r) => Action::RecordCreateFailed(i as usize, r),
                _ => Action::Requeue,
            },
            _ => Action::Idle,
        }
    } else {
        match s.test {
            TestState::NotStarted => Action::StartTest,
            TestState::Running => match s.report {
                TestReport::Passed => Action::RecordTestResult(true),
                TestReport::Failed => Action::RecordTestResult(false),
                TestReport::Working => Action::Requeue,
            },
            _ => Action::Idle,
        }
    }
}

/// The action the controller takes in state `s`.
pub open spec fn next_action_of(s: Snapshot) -> Action {
    if s.deleting {
        deleting_action(s)
    } else if !s.finalizers.contains(main_token()) {
        Action::AddMainFinalizer
    } else {
        running_action(s)
    }
}

pub open spec fn with_state(s: Snapshot, i: usize, r: ResourceState) -> Snapshot {
    if i < s.resources.len() {
        Snapshot { resources: s.resources.update(i as int, r), ..s }
    } else {
        s
    }
}

/// The state after the controller has carried out `a` in `s`.
pub open spec fn effect_of(s: Snapshot, a: Action) -> Snapshot {
    match a {
        Action::AddMainFinalizer => Snapshot {
            finalizers: with_added(s.finalizers, main_token()),
            ..s
        },
        Action::StartResource(i) => if i < s.resources.len() {
            Snapshot {
                finalizers: with_added(s.finalizers, pod_token()),
                resources: s.resources.update(i as int, ResourceState::Creating),
                ..s
            }
        } else {
            s
        },
        Action::RecordCreated(i) => with_state(s, i, ResourceState::Created),
        Action::RecordCreateFailed(i, r) => with_state(s, i, ResourceState::CreateFailed(r)),
        Action::StartTest => Snapshot {
            finalizers: with_added(s.finalizers, pod_token()),
            test: TestState::Running,
            ..s
        },
        Action::RecordTestResult(passed) => Snapshot {
            test: if passed {
                TestState::Passed
            } else {
                TestState::Failed
            },
            ..s
        },
        Action::RemovePodFinalizer => Snapshot {
            finalizers: with_removed(s.finalizers, pod_token()),
            ..s
        },
        Action::StartDestroy(i) => with_state(s, i, ResourceState::Destroying),
        Action::RecordDestroyed(i, ok) => with_state(
            s,
            i,
            if ok {
                ResourceState::Destroyed
            } else {
                ResourceState::DestroyFailed
            },
        ),
        Action::RemoveMainFinalizer => Snapshot {
            finalizers: with_removed(s.finalizers, main_token()),
            ..s
        },
        Action::Requeue | Action::Idle => s,
    }
}

pub open spec fn phase_of(s: Snapshot) -> Phase {
    if s.deleting {
        Phase::Deleting
    } else if !s.finalizers.contains(main_token()) {
        Phase::Initial
    } else {
        let i = first_unready(s.resources, 0);
        if i < s.resources.len() {
            match s.resources[i] {
                ResourceState::CreateFailed(_) => Phase::Failed,
                _ => Phase::ResourcesPending,
            }
        } else {
            match s.test {
                TestState::Passed => Phase::Completed,
                TestState::Failed => Phase::Failed,
                _ => Phase::TestRunning,
            }
        }
    }
}

proof fn lemma_last_open(rs: Seq<ResourceState>, k: int)
    requires
        0 <= k <= rs.len(),
    ensures
        -1 <= last_open(rs, k) < k,
        last_open(rs, k) >= 0 ==> teardown_open(rs[last_open(rs, k)]),
        forall|m: int| last_open(rs, k) < m < k ==> !teardown_open(#[trigger] rs[m]),
    decreases k,
{
    if k > 0 {
        lemma_last_open(rs, k - 1);
    }
}

proof fn lemma_first_unready(rs: Seq<ResourceState>, k: int)
    requires
        0 <= k <= rs.len(),
    ensures
        k <= first_unready(rs, k) <= rs.len(),
        first_unready(rs, k) < rs.len() ==> rs[first_unready(rs, k)] != ResourceState::Created,
        forall|m: int| k <= m < first_unready(rs, k) ==> #[trigger] rs[m] == ResourceState::Created,
    decreases rs.len() - k,
{
    if k < rs.len() {
        lemma_first_unready(rs, k + 1);
    }
}

/// The controller-side state of every declared resource, absent entries read as pending.
pub fn resource_states(t: &Test) -> (r: Vec<ResourceState>)
    ensures
        r@ == snapshot(*t).resources,
{
    let stored: Vec<ResourceState> = match &t.status {
        Some(s) => match &s.controller {
            Some(c) => c.duplicate().resources,
            None => Vec::new(),
        },
        None => Vec::new(),
    };
    let n = t.resources.len();
    let mut out: Vec<ResourceState> = Vec::new();
    let mut i: usize = 0;
    while i < n
        invariant
            i <= n,
            n == t.resources@.len(),
            stored@ == stored_states(*t),
            out@ =~= Seq::new(i as nat, |k: int| state_at(*t, k)),
        decreases n - i,
    {
        if i < stored.len() {
            out.push(stored[i]);
        } else {
            out.push(ResourceState::Pending);
        }
        i = i + 1;
    }
    out
}

/// The agent-side report of every declared resource, absent entries read as still at work.
pub fn agent_reports(t: &Test) -> (r: Vec<AgentReport>)
    ensures
        r@ == snapshot(*t).reports,
{
    let stored: Vec<AgentReport> = match &t.status {
        Some(s) => match &s.agent {
            Some(a) => a.duplicate().resources,
            None => Vec::new(),
        },
        None => Vec::new(),
    };
    let n = t.resources.len();
    let mut out: Vec<AgentReport> = Vec::new();
    let mut i: usize = 0;
    while i < n
        invariant
            i <= n,
            n == t.resources@.len(),
            stored@ == stored_reports(*t),
            out@ =~= Seq::new(i as nat, |k: int| report_at(*t, k)),
        decreases n - i,
    {
        if i < stored.len() {
            out.push(stored[i]);
        } else {
            out.push(AgentReport::Working);
        }
        i = i + 1;
    }
    out
}

fn test_state(t: &Test) -> (r: TestState)
    ensures
        r == snapshot(*t).test,
{
    match &t.status {
        Some(s) => match &s.controller {
            Some(c) => c.test,
            None => TestState::NotStarted,
        },
        None => TestState::NotStarted,
    }
}

fn test_report(t: &Test) -> (r: TestReport)
    ensures
        r == snapshot(*t).report,
{
    match &t.status {
        Some(s) => match &s.agent {
            Some(a) => a.test,
            None => TestReport::Working,
        },
        None => TestReport::Working,
    }
}

/// The first resource, in creation order, that is not created yet.
pub fn first_unready_index(rs: &Vec<ResourceState>) -> (r: usize)
    ensures
        r as int == first_unready(rs@, 0),
{
    let mut i: usize = 0;
    while i < rs.len() && rs[i] == ResourceState::Created
        invariant
            i <= rs.len(),
            first_unready(rs@, 0) == first_unready(rs@, i as int),
        decreases rs.len() - i,
    {
        i = i + 1;
    }
    i
}

/// The last resource, in creation order, whose teardown is ahead or under way.
pub fn last_open_index(rs: &Vec<ResourceState>) -> (r: Option<usize>)
    ensures
        match r {
            Some(j) => j as int == last_open(rs@, rs@.len() as int),
            None => last_open(rs@, rs@.len() as int) < 0,
        },
{
    let mut k: usize = rs.len();
    while k > 0
        invariant
            k <= rs.len(),
            last_open(rs@, rs@.len() as int) == last_open(rs@, k as int),
        decreases k,
    {
        let s = rs[k - 1];
        if state_needs_destroy(s) || s == ResourceState::Destroying {
            return Some(k - 1);
        }
        k = k - 1;
    }
    None
}

/// Decides what the controller does next for the cached test.
pub fn next_action(ti: &TestInterface) -> (a: Action)
    ensures
        a == next_action_of(snapshot(ti.test_view())),
{
    let t = ti.test();
    let rs = resource_states(t);
    let reports = agent_reports(t);
    proof {
        lemma_last_open(rs@, rs@.len() as int);
    }
    if ti.is_delete_requested() {
        if !ti.has_main_finalizer() {
            Action::Idle
        } else if ti.has_pod_finalizer() {
            Action::RemovePodFinalizer
        } else if !ti.is_safe_to_delete() {
            Action::Requeue
        } else {
            match last_open_index(&rs) {
                None => Action::RemoveMainFinalizer,
                Some(j) => {
                    if rs[j] == ResourceState::Destroying {
                        match reports[j] {
                            AgentReport::DestroySucceeded => Action::RecordDestroyed(j, true),
                            AgentReport::DestroyFailed => Action::RecordDestroyed(j, false),
                            _ => Action::Requeue,
                        }
                    } else {
                        Action::StartDestroy(j)
                    }
                },
            }
        }
    } else if !ti.has_main_finalizer() {
        Action::AddMainFinalizer
    } else {
        let i = first_unready_index(&rs);
        if i < rs.len() {
            match rs[i] {
                ResourceState::Pending => Action::StartResource(i),
                ResourceState::Creating => match reports[i] {
                    AgentReport::CreateSucceeded => Action::RecordCreated(i),
                    AgentReport::CreateFailed(r) => Action::RecordCreateFailed(i, r),
                    _ => Action::Requeue,
                },
                _ => Action::Idle,
            }
        } else {
            match test_state(t) {
                TestState::NotStarted => Action::StartTest,
                TestState::Running => match test_report(t) {
                    TestReport::Passed => Action::RecordTestResult(true),
                    TestReport::Failed => Action::RecordTestResult(false),
                    TestReport::Working => Action::Requeue,
                },
                _ => Action::Idle,
            }
        }
    }
}

/// The lifecycle phase of the cached test.
pub fn phase(ti: &TestInterface) -> (p: Phase)
    ensures
        p == phase_of(snapshot(ti.test_view())),
{
    let t = ti.test();
    let rs = resource_states(t);
    if ti.is_delete_requested() {
        Phase::Deleting
    } else if !ti.has_main_finalizer() {
        Phase::Initial
    } else {
        let i = first_unready_index(&rs);
        if i < rs.len() {
            match rs[i] {
                ResourceState::CreateFailed(_) => Phase::Failed,
                _ => Phase::ResourcesPending,
            }
        } else {
            match test_state(t) {
                TestState::Passed => Phase::Completed,
                TestState::Failed => Phase::Failed,
                _ => Phase::TestRunning,
            }
        }
    }
}

proof fn lemma_snapshot_frame(t1: Test, t2: Test)
    requires
        t1.status == t2.status,
        t1.resources@ == t2.resources@,
    ensures
        snapshot(t2) == (Snapshot {
            finalizers: t2.finalizer_view(),
            deleting: t2.deletion_requested,
            ..snapshot(t1)
        }),
{
    assert(snapshot(t2).resources =~= snapshot(t1).resources);
    assert(snapshot(t2).reports =~= snapshot(t1).reports);
}

/// Writes a normalized controller status with `states` and `test`.
fn store_controller_status(ti: &mut TestInterface, states: Vec<ResourceState>, test: TestState)
    requires
        states@.len() == old(ti).test_view().resources@.len(),
    ensures
        snapshot(final(ti).test_view()) == (Snapshot {
            resources: states@,
            test,
            ..snapshot(old(ti).test_view())
        }),
        final(ti).test_view().resources == old(ti).test_view().resources,
        final(ti).test_view().agent_view() == old(ti).test_view().agent_view(),
{
    let ghost states_view = states@;
    ti.set_controller_status(ControllerStatus { resources: states, test });
    proof {
        let t0 = old(ti).test_view();
        let t1 = final(ti).test_view();
        assert(snapshot(t1).resources =~= states_view);
        assert(snapshot(t1).reports =~= snapshot(t0).reports);
    }
}

fn set_resource_state(ti: &mut TestInterface, i: usize, r: ResourceState)
    ensures
        snapshot(final(ti).test_view()) == with_state(snapshot(old(ti).test_view()), i, r),
        final(ti).test_view().resources == old(ti).test_view().resources,
        final(ti).test_view().agent_view() == old(ti).test_view().agent_view(),
{
    let mut rs = resource_states(ti.test());
    if i < rs.len() {
        let ts = test_state(ti.test());
        rs.set(i, r);
        store_controller_status(ti, rs, ts);
    }
}

fn set_test_state(ti: &mut TestInterface, ts: TestState)
    ensures
        snapshot(final(ti).test_view()) == (Snapshot {
            test: ts,
            ..snapshot(old(ti).test_view())
        }),
        final(ti).test_view().resources == old(ti).test_view().resources,
        final(ti).test_view().agent_view() == old(ti).test_view().agent_view(),
{
    let rs = resource_states(ti.test());
    store_controller_status(ti, rs, ts);
}

/// Carries out `a` on the cached test: the object that is then written back to the
/// control plane against the version last read.
pub fn apply(ti: &mut TestInterface, a: Action)
    ensures
        snapshot(final(ti).test_view()) == effect_of(snapshot(old(ti).test_view()), a),
        final(ti).test_view().resources == old(ti).test_view().resources,
        final(ti).test_view().agent_view() == old(ti).test_view().agent_view(),
{
    let ghost t0 = ti.test_view();
    match a {
        Action::AddMainFinalizer => {
            ti.add_main_finalizer();
            proof {
                lemma_snapshot_frame(t0, ti.test_view());
            }
        },
        Action::StartResource(i) => {
            if i < ti.test().resources.len() {
                set_resource_state(ti, i, ResourceState::Creating);
                let ghost t1 = ti.test_view();
                ti.add_pod_finalizer();
                proof {
                    lemma_snapshot_frame(t1, ti.test_view());
                }
            }
        },
        Action::RecordCreated(i) => set_resource_state(ti, i, ResourceState::Created),
        Action::RecordCreateFailed(i, r) => set_resource_state(
            ti,
            i,
            ResourceState::CreateFailed(r),
        ),
        Action::StartTest => {
            set_test_state(ti, TestState::Running);
            let ghost t1 = ti.test_view();
            ti.add_pod_finalizer();
            proof {
                lemma_snapshot_frame(t1, ti.test_view());
            }
        },
        Action::RecordTestResult(passed) => {
            if passed {
                set_test_state(ti, TestState::Passed);
            } else {
                set_test_state(ti, TestState::Failed);
            }
        },
        Action::RemovePodFinalizer => {
            ti.remove_pod_finalizer();
            proof {
                lemma_snapshot_frame(t0, ti.test_view());
            }
        },
        Action::StartDestroy(i) => set_resource_state(ti, i, ResourceState::Destroying),
        Action::RecordDestroyed(i, ok) => {
            if ok {
                set_resource_state(ti, i, ResourceState::Destroyed);
            } else {
                set_resource_state(ti, i, ResourceState::DestroyFailed);
            }
        },
        Action::RemoveMainFinalizer => {
            ti.remove_main_finalizer();
            proof {
                lemma_snapshot_frame(t0, ti.test_view());
            }
        },
        Action::Requeue | Action::Idle => {},
    }
}

/// A snapshot that a real object can produce: one report per resource, indices fit `usize`.
pub open spec fn valid_snapshot(s: Snapshot) -> bool {
    s.resources.len() == s.reports.len() <= usize::MAX
}

/// The teardown of this resource has been handed to destroy.
pub open spec fn torn_down(r: ResourceState) -> bool {
    r == ResourceState::Destroying || r == ResourceState::Destroyed || r
        == ResourceState::DestroyFailed
}

proof fn lemma_tokens_differ()
    ensures
        main_token() != pod_token(),
{
    reveal_strlit("owned");
    reveal_strlit("test-pod");
    assert(main_token().len() != pod_token().len());
}

/// The main finalizer is released last. The controller removes it only once the pod
/// finalizer is gone, at most the main finalizer is left, and no resource still awaits or
/// undergoes destroy; and no other action takes the main finalizer away.
pub proof fn lemma_main_finalizer_released_last(s: Snapshot, a: Action)
    requires
        valid_snapshot(s),
    ensures
        next_action_of(s) == Action::RemoveMainFinalizer ==> {
            &&& s.deleting
            &&& !s.finalizers.contains(pod_token())
            &&& safe_to_delete(s.finalizers)
            &&& forall|i: int| 0 <= i < s.resources.len() ==> !teardown_open(s.resources[i])
        },
        a != Action::RemoveMainFinalizer && s.finalizers.contains(main_token()) ==> effect_of(
            s,
            a,
        ).finalizers.contains(main_token()),
{
    lemma_last_open(s.resources, s.resources.len() as int);
    lemma_tokens_differ();
    if a != Action::RemoveMainFinalizer && s.finalizers.contains(main_token()) {
        let f = s.finalizers;
        assert(f.push(main_token())[f.len() as int] == main_token());
        assert(f.push(pod_token())[f.len() as int] == pod_token());
        assert(f.push(pod_token()).contains(main_token())) by {
            let k = choose|k: int| 0 <= k < f.len() && f[k] == main_token();
            assert(f.push(pod_token())[k] == main_token());
        }
        f.lemma_filter_contains_rev(|x: Seq<char>| x != pod_token(), main_token());
    }
}

/// Resources are destroyed in strict reverse order of creation: when the controller starts
/// or records the destroy of a resource, no later-created resource still awaits or undergoes
/// destroy. A destroy is started only for a resource that may hold something, and it then
/// counts as under way.
pub proof fn lemma_destroy_reverse_order(s: Snapshot)
    requires
        valid_snapshot(s),
    ensures
        forall|i: usize|
            next_action_of(s) == Action::StartDestroy(i) ==> {
                &&& i < s.resources.len()
                &&& needs_destroy(s.resources[i as int])
                &&& forall|j: int| i < j < s.resources.len() ==> !teardown_open(s.resources[j])
                &&& effect_of(s, next_action_of(s)).resources[i as int]
                    == ResourceState::Destroying
            },
        forall|i: usize, ok: bool|
            next_action_of(s) == Action::RecordDestroyed(i, ok) ==> {
                &&& i < s.resources.len()
                &&& s.resources[i as int] == ResourceState::Destroying
                &&& forall|j: int| i < j < s.resources.len() ==> !teardown_open(s.resources[j])
            },
{
    lemma_last_open(s.resources, s.resources.len() as int);
}

/// A resource whose create failed with nothing left behind is never destroyed; one whose
/// destroy has started is never destroyed again. Under the controller's own action such a
/// resource keeps its state (or moves on from destroy under way to its outcome).
pub proof fn lemma_destroy_at_most_once(s: Snapshot, i: int)
    requires
        valid_snapshot(s),
        0 <= i < s.resources.len(),
    ensures
        s.resources[i] == ResourceState::CreateFailed(Resources::Clear) ==> {
            &&& next_action_of(s) != Action::StartDestroy(i as usize)
            &&& effect_of(s, next_action_of(s)).resources[i] == ResourceState::CreateFailed(
                Resources::Clear,
            )
        },
        torn_down(s.resources[i]) ==> {
            &&& next_action_of(s) != Action::StartDestroy(i as usize)
            &&& torn_down(effect_of(s, next_action_of(s)).resources[i])
        },
{
    lemma_last_open(s.resources, s.resources.len() as int);
    lemma_first_unready(s.resources, 0);
}

/// A resource left behind by a failed create is destroyed before the main finalizer goes:
/// while it still awaits destroy, the controller does not release the object.
pub proof fn lemma_remaining_destroyed_before_release(s: Snapshot, i: int)
    requires
        valid_snapshot(s),
        0 <= i < s.resources.len(),
        s.resources[i] == ResourceState::CreateFailed(Resources::Remaining),
    ensures
        next_action_of(s) != Action::RemoveMainFinalizer,
{
    lemma_last_open(s.resources, s.resources.len() as int);
}

/// The controller never writes the agent-owned region: no action changes what the agents
/// have published.
pub proof fn lemma_agent_region_untouched(s: Snapshot, a: Action)
    ensures
        effect_of(s, a).reports == s.reports,
        effect_of(s, a).report == s.report,
        effect_of(s, a).deleting == s.deleting,
{
}

/// Resources are created one at a time in declaration order: a create job starts only for a
/// resource not started yet, once every earlier resource is created, so a dependent resource
/// can read the info its dependencies wrote. The test agent starts only once all resources
/// are created, and neither starts while deletion is requested.
pub proof fn lemma_create_in_order(s: Snapshot)
    requires
        valid_snapshot(s),
    ensures
        forall|i: usize|
            next_action_of(s) == Action::StartResource(i) ==> {
                &&& !s.deleting
                &&& i < s.resources.len()
                &&& s.resources[i as int] == ResourceState::Pending
                &&& forall|j: int| 0 <= j < i ==> s.resources[j] == ResourceState::Created
            },
        next_action_of(s) == Action::StartTest ==> {
            &&& !s.deleting
            &&& s.test == TestState::NotStarted
            &&& forall|j: int| 0 <= j < s.resources.len() ==> s.resources[j] == ResourceState::Created
        },
{
    lemma_first_unready(s.resources, 0);
}

/// Seconds before looking again at a test whose agent is at work.
pub const POLL_INTERVAL_SECS: u64 = 10;

/// Upper bound of the retry delay after an infrastructure error, in seconds.
pub const BACKOFF_CAP_SECS: u64 = 300;

/// When to reconcile again after `a`: at once after a change, after the poll interval while
/// an agent works, and only on the next change when there is nothing to do.
pub open spec fn requeue_after_of(a: Action) -> Option<u64> {
    match a {
        Action::Idle => None,
        Action::Requeue => Some(POLL_INTERVAL_SECS),
        _ => Some(0),
    }
}

pub fn requeue_after(a: Action) -> (r: Option<u64>)
    ensures
        r == requeue_after_of(a),
{
    match a {
        Action::Idle => None,
        Action::Requeue => Some(POLL_INTERVAL_SECS),
        _ => Some(0),
    }
}

pub open spec fn pow2(n: nat) -> nat
    decreases n,
{
    if n == 0 {
        1
    } else {
        2 * pow2((n - 1) as nat)
    }
}

/// Retry delay after `failures` consecutive infrastructure errors: one second, doubled per
/// failure, capped.
pub open spec fn backoff_of(failures: nat) -> nat {
    if pow2(failures) < BACKOFF_CAP_SECS {
        pow2(failures)
    } else {
        BACKOFF_CAP_SECS as nat
    }
}

proof fn lemma_pow2_monotone(a: nat, b: nat)
    requires
        a <= b,
    ensures
        pow2(a) <= pow2(b),
    decreases b - a,
{
    if a < b {
        lemma_pow2_monotone(a, (b - 1) as nat);
    }
}

pub fn backoff_secs(failures: u32) -> (r: u64)
    ensures
        r as nat == backoff_of(failures as nat),
        r <= BACKOFF_CAP_SECS,
{
    let mut d: u64 = 1;
    let mut i: u32 = 0;
    while i < failures && d < BACKOFF_CAP_SECS
        invariant
            i <= failures,
            d as nat == pow2(i as nat),
            d <= 2 * BACKOFF_CAP_SECS,
        decreases failures - i,
    {
        d = d * 2;
        i = i + 1;
    }
    proof {
        if i < failures {
            lemma_pow2_monotone(i as nat, failures as nat);
        }
    }
    if d < BACKOFF_CAP_SECS {
        d
    } else {
        BACKOFF_CAP_SECS
    }
}

} // verus!
