//! The description of an agent job: one isolated execution unit with its identity labels,
//! role-specific service account, no restarts and no retries.
use vstd::prelude::*;
use crate::model::Agent;

verus! {

pub const NAMESPACE: &'static str = "testsys-bottlerocket-aws";
pub const TESTSYS: &'static str = "testsys";
pub const CONTROLLER: &'static str = "controller";
pub const TEST_AGENT: &'static str = "test-agent";
pub const RESOURCE_AGENT: &'static str = "resource-agent";
pub const TEST_AGENT_SERVICE_ACCOUNT: &'static str = "testsys-test-agent-account";
pub const RESOURCE_AGENT_SERVICE_ACCOUNT: &'static str = "testsys-resource-agent-account";
pub const APP_NAME: &'static str = "app.kubernetes.io/name";
pub const APP_INSTANCE: &'static str = "app.kubernetes.io/instance";
pub const APP_COMPONENT: &'static str = "app.kubernetes.io/component";
pub const APP_PART_OF: &'static str = "app.kubernetes.io/part-of";
pub const APP_MANAGED_BY: &'static str = "app.kubernetes.io/managed-by";
pub const APP_CREATED_BY: &'static str = "app.kubernetes.io/created-by";
pub const RESTART_NEVER: &'static str = "Never";

/// The role a job plays.
#[derive(Clone, Copy, Debug, PartialEq, Eq, Structural)]
pub enum JobType {
    TestAgent,
    ResourceAgent,
}

/// One environment entry of the agent's container.
#[derive(Clone, Debug)]
pub struct EnvVar {
    pub name: String,
    pub value: Option<String>,
}

/// A label of the job and of its pod.
#[derive(Clone, Debug)]
pub struct Label {
    pub key: String,
    pub value: String,
}

/// Everything the execution substrate needs to create the job.
#[derive(Clone, Debug)]
pub struct JobDescription {
    pub name: String,
    pub namespace: String,
    /// Labels of the job and of its pod template.
    pub labels: Vec<Label>,
    /// Retries the substrate may make on its own.
    pub backoff_limit: i32,
    pub container_name: String,
    pub image: String,
    pub env: Option<Vec<EnvVar>>,
    pub restart_policy: String,
    /// Names of the pull secrets.
    pub image_pull_secrets: Option<Vec<String>>,
    pub service_account: String,
}

/// The inputs of a job.
#[derive(Clone, Debug)]
pub struct JobBuilder {
    pub agent: Agent,
    pub job_name: String,
    pub job_type: JobType,
    pub component: String,
    pub environment_variables: Vec<(String, String)>,
}

pub open spec fn role_label(t: JobType) -> Seq<char> {
    match t {
        JobType::TestAgent => TEST_AGENT@,
        JobType::ResourceAgent => RESOURCE_AGENT@,
    }
}

pub open spec fn service_account_of(t: JobType) -> Seq<char> {
    match t {
        JobType::TestAgent => TEST_AGENT_SERVICE_ACCOUNT@,
        JobType::ResourceAgent => RESOURCE_AGENT_SERVICE_ACCOUNT@,
    }
}

pub open spec fn label_view(l: Seq<Label>) -> Seq<(Seq<char>, Seq<char>)> {
    l.map_values(|x: Label| (x.key@, x.value@))
}

/// The labels of a job: its own name, the agent's name, its role and its provenance.
pub open spec fn labels_of(t: JobType, agent: Seq<char>, instance: Seq<char>) -> Seq<
    (Seq<char>, Seq<char>),
> {
    seq![
        (APP_NAME@, instance),
        (APP_INSTANCE@, agent),
        (APP_COMPONENT@, role_label(t)),
        (APP_PART_OF@, TESTSYS@),
        (APP_MANAGED_BY@, CONTROLLER@),
        (APP_CREATED_BY@, CONTROLLER@),
    ]
}

/// Each entry becomes one environment variable with the same name and value, in order.
pub open spec fn env_matches(raw: Seq<(String, String)>, env: Seq<EnvVar>) -> bool {
    &&& env.len() == raw.len()
    &&& forall|i: int|
        0 <= i < raw.len() ==> env[i].name@ == raw[i].0@ && env[i].value == Some(raw[i].1)
}

fn label(key: &str, value: &str) -> (r: Label)
    ensures
        r.key@ == key@,
        r.value@ == value@,
{
    Label { key: key.to_owned(), value: value.to_owned() }
}

/// The role label of a job type.
pub fn role_name(t: JobType) -> (r: &'static str)
    ensures
        r@ == role_label(t),
{
    match t {
        JobType::TestAgent => TEST_AGENT,
        JobType::ResourceAgent => RESOURCE_AGENT,
    }
}

/// The service account a job of this type runs under.
pub fn service_account(t: JobType) -> (r: &'static str)
    ensures
        r@ == service_account_of(t),
{
    match t {
        JobType::TestAgent => TEST_AGENT_SERVICE_ACCOUNT,
        JobType::ResourceAgent => RESOURCE_AGENT_SERVICE_ACCOUNT,
    }
}

/// The labels added to the job and its pod.
pub fn create_labels(job_type: JobType, agent: &str, instance: &str) -> (r: Vec<Label>)
    ensures
        label_view(r@) == labels_of(job_type, agent@, instance@),
{
    let mut v: Vec<Label> = Vec::new();
    v.push(label(APP_NAME, instance));
    v.push(label(APP_INSTANCE, agent));
    v.push(label(APP_COMPONENT, role_name(job_type)));
    v.push(label(APP_PART_OF, TESTSYS));
    v.push(label(APP_MANAGED_BY, CONTROLLER));
    v.push(label(APP_CREATED_BY, CONTROLLER));
    assert(label_view(v@) =~= labels_of(job_type, agent@, instance@));
    v
}

/// The container's environment, one variable per entry.
pub fn env_vars(raw_vars: Vec<(String, String)>) -> (r: Vec<EnvVar>)
    ensures
        env_matches(raw_vars@, r@),
{
    let mut out: Vec<EnvVar> = Vec::new();
    let mut i: usize = 0;
    while i < raw_vars.len()
        invariant
            i <= raw_vars.len(),
            out@.len() == i,
            forall|k: int|
                0 <= k < i ==> out@[k].name@ == raw_vars@[k].0@ && out@[k].value == Some(
                    raw_vars@[k].1,
                ),
        decreases raw_vars.len() - i,
    {
        let name = raw_vars[i].0.clone();
        let value = raw_vars[i].1.clone();
        out.push(EnvVar { name, value: Some(value) });
        i = i + 1;
    }
    out
}

fn labels_copy(l: &Vec<Label>) -> (r: Vec<Label>)
    ensures
        label_view(r@) == label_view(l@),
{
    let mut out: Vec<Label> = Vec::new();
    let mut i: usize = 0;
    while i < l.len()
        invariant
            i <= l.len(),
            label_view(out@) =~= label_view(l@.subrange(0, i as int)),
        decreases l.len() - i,
    {
        let key = l[i].key.clone();
        let value = l[i].value.clone();
        let ghost prev = out@;
        out.push(Label { key, value });
        assert(label_view(out@) =~= label_view(prev).push((l@[i as int].key@, l@[i as int].value@)));
        assert(l@.subrange(0, i + 1) =~= l@.subrange(0, i as int).push(l@[i as int]));
        i = i + 1;
        assert(label_view(out@) =~= label_view(l@.subrange(0, i as int)));
    }
    assert(l@.subrange(0, l.len() as int) =~= l@);
    out
}

impl JobBuilder {
    /// The job for these inputs.
    pub fn build(self) -> (r: JobDescription)
        ensures
            r.name@ == self.job_name@,
            r.namespace@ == NAMESPACE@,
            label_view(r.labels@) == labels_of(self.job_type, self.agent.name@, self.job_name@),
            r.backoff_limit == 0,
            r.container_name@ == self.job_name@,
            r.image@ == self.agent.image@,
            match r.env {
                None => self.environment_variables@.len() == 0,
                Some(e) => self.environment_variables@.len() > 0 && env_matches(
                    self.environment_variables@,
                    e@,
                ),
            },
            r.restart_policy@ == RESTART_NEVER@,
            match self.agent.pull_secret {
                None => r.image_pull_secrets is None,
                Some(s) => r.image_pull_secrets matches Some(v) && v@.len() == 1 && v@[0]@
                    == s@,
            },
            r.service_account@ == service_account_of(self.job_type),
    {
        let vars = env_vars(self.environment_variables);
        let labels = create_labels(self.job_type, self.agent.name.as_str(), self.job_name.as_str());
        let secrets = match &self.agent.pull_secret {
            Some(s) => {
                let mut v: Vec<String> = Vec::new();
                v.push(s.clone());
                Some(v)
            },
            None => None,
        };
        JobDescription {
            name: self.job_name.clone(),
            namespace: NAMESPACE.to_owned(),
            labels,
            backoff_limit: 0,
            container_name: self.job_name.clone(),
            image: self.agent.image.clone(),
            env: if vars.len() == 0 {
                None
            } else {
                Some(vars)
            },
            restart_policy: RESTART_NEVER.to_owned(),
            image_pull_secrets: secrets,
            service_account: service_account(self.job_type).to_owned(),
        }
    }
}

impl JobDescription {
    /// The labels of the pod template: the same as those of the job.
    pub fn pod_labels(&self) -> (r: Vec<Label>)
        ensures
            label_view(r@) == label_view(self.labels@),
    {
        labels_copy(&self.labels)
    }
}

/// Test agents and resource agents never share a service account.
pub proof fn lemma_roles_do_not_share_identity()
    ensures
        service_account_of(JobType::TestAgent) != service_account_of(JobType::ResourceAgent),
        role_label(JobType::TestAgent) != role_label(JobType::ResourceAgent),
{
    reveal_strlit("testsys-test-agent-account");
    reveal_strlit("testsys-resource-agent-account");
    reveal_strlit("test-agent");
    reveal_strlit("resource-agent");
    assert(TEST_AGENT_SERVICE_ACCOUNT@.len() != RESOURCE_AGENT_SERVICE_ACCOUNT@.len());
    assert(TEST_AGENT@.len() != RESOURCE_AGENT@.len());
}

} // verus!
