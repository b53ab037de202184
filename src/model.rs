//! The `Test` object as the controller reads it, its status regions, and the per-object
//! helper view that the reconcile loop works through.
use vstd::prelude::*;
use crate::finalizer::{
    add_finalizer, has_finalizer, is_safe_to_delete, remove_finalizer, safe_to_delete,
    with_added, with_removed, main_token, pod_token, MAIN_FINALIZER, POD_FINALIZER,
};
use crate::provider::{AgentReport, ResourceState};

verus! {

/// Descriptor of the executable unit that a job runs.
#[derive(Clone, Debug)]
pub struct Agent {
    pub name: String,
    pub image: String,
    pub pull_secret: Option<String>,
    /// Free-form configuration, interpreted by the agent process alone.
    pub configuration: Option<String>,
}

/// Where the controller stands with the test agent.
#[derive(Clone, Copy, Debug, PartialEq, Eq, Structural)]
pub enum TestState {
    NotStarted,
    Running,
    Passed,
    Failed,
}

/// What the test agent has last published.
#[derive(Clone, Copy, Debug, PartialEq, Eq, Structural)]
pub enum TestReport {
    Working,
    Passed,
    Failed,
}

/// The controller-owned region of the status.
#[derive(Clone, Debug)]
pub struct ControllerStatus {
    /// One entry per declared resource, in creation order.
    pub resources: Vec<ResourceState>,
    pub test: TestState,
}

/// The agent-owned region of the status.
#[derive(Clone, Debug)]
pub struct AgentStatus {
    /// One entry per declared resource, written by that resource's agent.
    pub resources: Vec<AgentReport>,
    pub test: TestReport,
}

#[derive(Clone, Debug)]
pub struct TestStatus {
    pub controller: Option<ControllerStatus>,
    pub agent: Option<AgentStatus>,
}

/// The user-facing unit of work.
#[derive(Clone, Debug)]
pub struct Test {
    pub name: Option<String>,
    pub uid: Option<String>,
    pub agent: Agent,
    /// Names of the declared resource dependencies, in creation order.
    pub resources: Vec<String>,
    pub finalizers: Option<Vec<String>>,
    /// Whether a deletion timestamp is set.
    pub deletion_requested: bool,
    pub status: Option<TestStatus>,
}

impl ControllerStatus {
    pub open spec fn is_default(&self) -> bool {
        self.resources@.len() == 0 && self.test == TestState::NotStarted
    }

    pub fn new() -> (r: ControllerStatus)
        ensures
            r.is_default(),
    {
        ControllerStatus { resources: Vec::new(), test: TestState::NotStarted }
    }

    /// A copy with the same contents.
    pub fn duplicate(&self) -> (r: ControllerStatus)
        ensures
            r.resources@ == self.resources@,
            r.test == self.test,
    {
        let mut v: Vec<ResourceState> = Vec::new();
        let mut i: usize = 0;
        while i < self.resources.len()
            invariant
                i <= self.resources.len(),
                v@ == self.resources@.subrange(0, i as int),
            decreases self.resources.len() - i,
        {
            v.push(self.resources[i]);
            i = i + 1;
            assert(v@ =~= self.resources@.subrange(0, i as int));
        }
        assert(v@ =~= self.resources@);
        ControllerStatus { resources: v, test: self.test }
    }
}

impl AgentStatus {
    pub open spec fn is_default(&self) -> bool {
        self.resources@.len() == 0 && self.test == TestReport::Working
    }

    pub fn new() -> (r: AgentStatus)
        ensures
            r.is_default(),
    {
        AgentStatus { resources: Vec::new(), test: TestReport::Working }
    }

    /// A copy with the same contents.
    pub fn duplicate(&self) -> (r: AgentStatus)
        ensures
            r.resources@ == self.resources@,
            r.test == self.test,
    {
        let mut v: Vec<AgentReport> = Vec::new();
        let mut i: usize = 0;
        while i < self.resources.len()
            invariant
                i <= self.resources.len(),
                v@ == self.resources@.subrange(0, i as int),
            decreases self.resources.len() - i,
        {
            v.push(self.resources[i]);
            i = i + 1;
            assert(v@ =~= self.resources@.subrange(0, i as int));
        }
        assert(v@ =~= self.resources@);
        AgentStatus { resources: v, test: self.test }
    }
}

impl Test {
    /// The finalizer tokens, an absent list read as empty.
    pub open spec fn finalizer_view(&self) -> Seq<Seq<char>> {
        match self.finalizers {
            Some(f) => f.deep_view(),
            None => Seq::empty(),
        }
    }

    /// The controller status as stored, if any.
    pub open spec fn controller_view(&self) -> Option<ControllerStatus> {
        match self.status {
            Some(s) => s.controller,
            None => None,
        }
    }

    /// The agent status as stored, if any.
    pub open spec fn agent_view(&self) -> Option<AgentStatus> {
        match self.status {
            Some(s) => s.agent,
            None => None,
        }
    }
}

/// The cached `Test` with accessors and the read-modify-write helpers of the reconcile loop.
pub struct TestInterface {
    test: Test,
}

impl TestInterface {
    pub closed spec fn test_view(&self) -> Test {
        self.test
    }

    pub fn new(test: Test) -> (r: TestInterface)
        ensures
            r.test_view() == test,
    {
        TestInterface { test }
    }

    /// The cached object.
    pub fn test(&self) -> (r: &Test)
        ensures
            *r == self.test_view(),
    {
        &self.test
    }

    /// The object, taken out of the helper.
    pub fn into_test(self) -> (r: Test)
        ensures
            r == self.test_view(),
    {
        self.test
    }

    /// The name; an absent name reads as the empty string.
    pub fn name(&self) -> (r: &str)
        ensures
            r@ == match self.test_view().name {
                Some(n) => n@,
                None => Seq::<char>::empty(),
            },
    {
        match &self.test.name {
            Some(n) => n.as_str(),
            None => {
                proof {
                    reveal_strlit("");
                }
                ""
            },
        }
    }

    /// The unique id assigned by the control plane; absent reads as the empty string.
    pub fn id(&self) -> (r: &str)
        ensures
            r@ == match self.test_view().uid {
                Some(n) => n@,
                None => Seq::<char>::empty(),
            },
    {
        match &self.test.uid {
            Some(n) => n.as_str(),
            None => {
                proof {
                    reveal_strlit("");
                }
                ""
            },
        }
    }

    /// The test agent's descriptor.
    pub fn agent(&self) -> (r: &Agent)
        ensures
            *r == self.test_view().agent,
    {
        &self.test.agent
    }

    /// The controller status, or a default one where none exists yet.
    pub fn controller_status(&self) -> (r: ControllerStatus)
        ensures
            match self.test_view().controller_view() {
                Some(c) => r.resources@ == c.resources@ && r.test == c.test,
                None => r.is_default(),
            },
    {
        match &self.test.status {
            Some(s) => match &s.controller {
                Some(c) => c.duplicate(),
                None => ControllerStatus::new(),
            },
            None => ControllerStatus::new(),
        }
    }

    /// The agent status, or a default one where none exists yet.
    pub fn agent_status(&self) -> (r: AgentStatus)
        ensures
            match self.test_view().agent_view() {
                Some(a) => r.resources@ == a.resources@ && r.test == a.test,
                None => r.is_default(),
            },
    {
        match &self.test.status {
            Some(s) => match &s.agent {
                Some(a) => a.duplicate(),
                None => AgentStatus::new(),
            },
            None => AgentStatus::new(),
        }
    }

    /// Replaces the controller region of the status; the agent region is kept.
    pub fn set_controller_status(&mut self, status: ControllerStatus)
        ensures
            final(self).test_view().controller_view() == Some(status),
            final(self).test_view().agent_view() == old(self).test_view().agent_view(),
            final(self).test_view().finalizer_view() == old(self).test_view().finalizer_view(),
            final(self).test_view().deletion_requested == old(self).test_view().deletion_requested,
            final(self).test_view().resources == old(self).test_view().resources,
            final(self).test_view().name == old(self).test_view().name,
            final(self).test_view().uid == old(self).test_view().uid,
            final(self).test_view().agent == old(self).test_view().agent,
    {
        let agent = match self.test.status.take() {
            Some(s) => s.agent,
            None => None,
        };
        self.test.status = Some(TestStatus { controller: Some(status), agent });
    }

    /// Replaces the cached object with the one the control plane returned after an update.
    pub fn replace_test(&mut self, test: Test)
        ensures
            final(self).test_view() == test,
    {
        self.test = test;
    }

    /// Whether the test has one or more finalizers.
    pub fn has_finalizers(&self) -> (r: bool)
        ensures
            r == (self.test_view().finalizer_view().len() > 0),
    {
        match &self.test.finalizers {
            Some(f) => f.len() > 0,
            None => false,
        }
    }

    /// Whether the pod finalizer is present.
    pub fn has_pod_finalizer(&self) -> (r: bool)
        ensures
            r == self.test_view().finalizer_view().contains(pod_token()),
    {
        self.has(POD_FINALIZER)
    }

    /// Whether the main finalizer is present.
    pub fn has_main_finalizer(&self) -> (r: bool)
        ensures
            r == self.test_view().finalizer_view().contains(main_token()),
    {
        self.has(MAIN_FINALIZER)
    }

    fn has(&self, token: &str) -> (r: bool)
        ensures
            r == self.test_view().finalizer_view().contains(token@),
    {
        match &self.test.finalizers {
            Some(f) => has_finalizer(f, token),
            None => false,
        }
    }

    /// Whether at most the main finalizer still holds the object.
    pub fn is_safe_to_delete(&self) -> (r: bool)
        ensures
            r == safe_to_delete(self.test_view().finalizer_view()),
    {
        match &self.test.finalizers {
            Some(f) => is_safe_to_delete(f),
            None => true,
        }
    }

    /// Whether someone asked the control plane to delete the test.
    pub fn is_delete_requested(&self) -> (r: bool)
        ensures
            r == self.test_view().deletion_requested,
    {
        self.test.deletion_requested
    }

    /// Marks the test as owned by the controller.
    pub fn add_main_finalizer(&mut self)
        ensures
            final(self).test_view().finalizer_view() == with_added(
                old(self).test_view().finalizer_view(),
                main_token(),
            ),
            final(self).test_view().status == old(self).test_view().status,
            final(self).test_view().deletion_requested == old(self).test_view().deletion_requested,
            final(self).test_view().resources == old(self).test_view().resources,
            final(self).test_view().name == old(self).test_view().name,
            final(self).test_view().uid == old(self).test_view().uid,
            final(self).test_view().agent == old(self).test_view().agent,
    {
        add_finalizer_to(&mut self.test, MAIN_FINALIZER);
    }

    /// Marks the test as having an execution unit that must be cleaned up.
    pub fn add_pod_finalizer(&mut self)
        ensures
            final(self).test_view().finalizer_view() == with_added(
                old(self).test_view().finalizer_view(),
                pod_token(),
            ),
            final(self).test_view().status == old(self).test_view().status,
            final(self).test_view().deletion_requested == old(self).test_view().deletion_requested,
            final(self).test_view().resources == old(self).test_view().resources,
            final(self).test_view().name == old(self).test_view().name,
            final(self).test_view().uid == old(self).test_view().uid,
            final(self).test_view().agent == old(self).test_view().agent,
    {
        add_finalizer_to(&mut self.test, POD_FINALIZER);
    }

    /// Releases the test to the control plane's garbage collector.
    pub fn remove_main_finalizer(&mut self)
        ensures
            final(self).test_view().finalizer_view() == with_removed(
                old(self).test_view().finalizer_view(),
                main_token(),
            ),
            final(self).test_view().status == old(self).test_view().status,
            final(self).test_view().deletion_requested == old(self).test_view().deletion_requested,
            final(self).test_view().resources == old(self).test_view().resources,
            final(self).test_view().name == old(self).test_view().name,
            final(self).test_view().uid == old(self).test_view().uid,
            final(self).test_view().agent == old(self).test_view().agent,
    {
        remove_finalizer_from(&mut self.test, MAIN_FINALIZER);
    }

    /// Records that no execution unit of the test remains.
    pub fn remove_pod_finalizer(&mut self)
        ensures
            final(self).test_view().finalizer_view() == with_removed(
                old(self).test_view().finalizer_view(),
                pod_token(),
            ),
            final(self).test_view().status == old(self).test_view().status,
            final(self).test_view().deletion_requested == old(self).test_view().deletion_requested,
            final(self).test_view().resources == old(self).test_view().resources,
            final(self).test_view().name == old(self).test_view().name,
            final(self).test_view().uid == old(self).test_view().uid,
            final(self).test_view().agent == old(self).test_view().agent,
    {
        remove_finalizer_from(&mut self.test, POD_FINALIZER);
    }
}

/// Adds `token` to the object's finalizer list, creating the list where it is absent.
pub fn add_finalizer_to(test: &mut Test, token: &str)
    ensures
        final(test).finalizer_view() == with_added(old(test).finalizer_view(), token@),
        final(test).finalizers is Some,
        final(test).status == old(test).status,
        final(test).deletion_requested == old(test).deletion_requested,
        final(test).resources == old(test).resources,
        final(test).name == old(test).name,
        final(test).uid == old(test).uid,
        final(test).agent == old(test).agent,
{
    let mut f = match test.finalizers.take() {
        Some(f) => f,
        None => Vec::new(),
    };
    proof {
        assert(f.deep_view() =~= old(test).finalizer_view());
    }
    add_finalizer(&mut f, token);
    test.finalizers = Some(f);
}

/// Removes `token` from the object's finalizer list.
pub fn remove_finalizer_from(test: &mut Test, token: &str)
    ensures
        final(test).finalizer_view() == with_removed(old(test).finalizer_view(), token@),
        final(test).status == old(test).status,
        final(test).deletion_requested == old(test).deletion_requested,
        final(test).resources == old(test).resources,
        final(test).name == old(test).name,
        final(test).uid == old(test).uid,
        final(test).agent == old(test).agent,
{
    match test.finalizers.take() {
        Some(f) => {
            let mut f = f;
            remove_finalizer(&mut f, token);
            test.finalizers = Some(f);
        },
        None => {
            proof {
                reveal(Seq::filter);
                assert(with_removed(Seq::<Seq<char>>::empty(), token@) =~= Seq::empty());
            }
        },
    }
}

} // verus!
