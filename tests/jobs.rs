use testsys_controller::job::{
    create_labels, env_vars, JobBuilder, JobType, RESOURCE_AGENT_SERVICE_ACCOUNT,
    TEST_AGENT_SERVICE_ACCOUNT,
};
use testsys_controller::model::Agent;

fn builder(job_type: JobType, vars: Vec<(String, String)>, secret: Option<&str>) -> JobBuilder {
    JobBuilder {
        agent: Agent {
            name: "dup".to_string(),
            image: "example/dup:2".to_string(),
            pull_secret: secret.map(|s| s.to_string()),
            configuration: None,
        },
        job_name: "job-1".to_string(),
        job_type,
        component: "resource".to_string(),
        environment_variables: vars,
    }
}

#[test]
fn labels_identify_job_agent_and_role() {
    let labels: Vec<(String, String)> = create_labels(JobType::ResourceAgent, "dup", "job-1")
        .into_iter()
        .map(|l| (l.key, l.value))
        .collect();
    let expected = [
        ("app.kubernetes.io/name", "job-1"),
        ("app.kubernetes.io/instance", "dup"),
        ("app.kubernetes.io/component", "resource-agent"),
        ("app.kubernetes.io/part-of", "testsys"),
        ("app.kubernetes.io/managed-by", "controller"),
        ("app.kubernetes.io/created-by", "controller"),
    ];
    let expected: Vec<(String, String)> =
        expected.iter().map(|(k, v)| (k.to_string(), v.to_string())).collect();
    assert_eq!(labels, expected);
}

#[test]
fn resource_agent_job_has_no_retries_and_its_own_account() {
    let job = builder(
        JobType::ResourceAgent,
        vec![("ROLE".to_string(), "resource-agent".to_string())],
        Some("regcred"),
    )
    .build();
    assert_eq!(job.name, "job-1");
    assert_eq!(job.container_name, "job-1");
    assert_eq!(job.namespace, "testsys-bottlerocket-aws");
    assert_eq!(job.backoff_limit, 0);
    assert_eq!(job.restart_policy, "Never");
    assert_eq!(job.image, "example/dup:2");
    assert_eq!(job.service_account, RESOURCE_AGENT_SERVICE_ACCOUNT);
    assert_eq!(job.image_pull_secrets, Some(vec!["regcred".to_string()]));
    let env = job.env.clone().expect("environment");
    assert_eq!(env.len(), 1);
    assert_eq!(env[0].name, "ROLE");
    assert_eq!(env[0].value.as_deref(), Some("resource-agent"));
    assert_eq!(job.pod_labels().len(), 6);
}

#[test]
fn test_agent_job_without_env_or_secret() {
    let job = builder(JobType::TestAgent, vec![], None).build();
    assert_eq!(job.service_account, TEST_AGENT_SERVICE_ACCOUNT);
    assert_ne!(job.service_account, RESOURCE_AGENT_SERVICE_ACCOUNT);
    assert!(job.env.is_none());
    assert!(job.image_pull_secrets.is_none());
    assert_eq!(job.labels[2].value, "test-agent");
}

#[test]
fn env_vars_keep_order_and_values() {
    let env = env_vars(vec![
        ("A".to_string(), "1".to_string()),
        ("B".to_string(), "2".to_string()),
    ]);
    assert_eq!(env.len(), 2);
    assert_eq!(env[0].name, "A");
    assert_eq!(env[1].value.as_deref(), Some("2"));
}
