use fox_operator::deployment::{
    build_container, build_deployment, create_deployment, delete_deployment, ContainerDescriptor,
    ContainerPort, EnvVar, WorkloadDescriptor, IMAGE_PULL_POLICY,
};
use fox_operator::request::Request;
use fox_operator::resource::{ContainerSpec, FoxServiceSpec};
use std::collections::BTreeMap;

fn plain_container(name: &str, image: &str) -> ContainerSpec {
    ContainerSpec {
        name: name.to_string(),
        image: image.to_string(),
        args: None,
        env: None,
        ports: None,
    }
}

fn spec_of(replicas: i32, containers: Vec<ContainerSpec>) -> FoxServiceSpec {
    FoxServiceSpec { replicas, containers, http_ingress: None }
}

#[test]
fn pull_policy_is_always() {
    assert_eq!(IMAGE_PULL_POLICY, "Always");
}

#[test]
fn one_plain_container_gives_one_descriptor() {
    let fs = spec_of(3, vec![plain_container("web", "echo:latest")]);
    let workload = build_deployment(&fs, "web", "default");
    assert_eq!(
        workload,
        WorkloadDescriptor {
            name: "web".to_string(),
            namespace: "default".to_string(),
            replicas: 3,
            containers: vec![ContainerDescriptor {
                name: "web".to_string(),
                image: "echo:latest".to_string(),
                image_pull_policy: "Always".to_string(),
                args: None,
                env: None,
                ports: None,
            }],
        }
    );
}

#[test]
fn replicas_pass_through_when_zero() {
    let fs = spec_of(0, vec![plain_container("web", "echo:latest")]);
    assert_eq!(build_deployment(&fs, "web", "default").replicas, 0);
}

#[test]
fn replicas_pass_through_when_negative() {
    let fs = spec_of(-7, vec![plain_container("web", "echo:latest")]);
    assert_eq!(build_deployment(&fs, "web", "default").replicas, -7);
}

#[test]
fn replicas_pass_through_at_the_limits() {
    let fs = spec_of(i32::MAX, vec![]);
    assert_eq!(build_deployment(&fs, "web", "default").replicas, i32::MAX);
    let fs = spec_of(i32::MIN, vec![]);
    assert_eq!(build_deployment(&fs, "web", "default").replicas, i32::MIN);
}

#[test]
fn no_containers_give_no_descriptors() {
    let fs = spec_of(1, vec![]);
    let workload = build_deployment(&fs, "empty", "default");
    assert_eq!(workload.containers, vec![]);
    assert_eq!(workload.name, "empty");
    assert_eq!(workload.namespace, "default");
}

#[test]
fn containers_keep_their_order() {
    let fs = spec_of(
        2,
        vec![
            plain_container("zeta", "z:1"),
            plain_container("alpha", "a:1"),
            plain_container("mid", "m:1"),
        ],
    );
    let workload = build_deployment(&fs, "web", "default");
    let names: Vec<&str> = workload.containers.iter().map(|c| c.name.as_str()).collect();
    let images: Vec<&str> = workload.containers.iter().map(|c| c.image.as_str()).collect();
    assert_eq!(names, vec!["zeta", "alpha", "mid"]);
    assert_eq!(images, vec!["z:1", "a:1", "m:1"]);
    assert!(workload.containers.iter().all(|c| c.image_pull_policy == "Always"));
}

#[test]
fn args_are_kept_verbatim() {
    let mut container = plain_container("web", "echo:latest");
    container.args = Some(vec!["--port".to_string(), "8080".to_string(), "".to_string()]);
    let built = build_container(&container);
    assert_eq!(
        built.args,
        Some(vec!["--port".to_string(), "8080".to_string(), "".to_string()])
    );
}

#[test]
fn empty_args_stay_present_and_empty() {
    let mut container = plain_container("web", "echo:latest");
    container.args = Some(vec![]);
    assert_eq!(build_container(&container).args, Some(vec![]));
}

#[test]
fn env_entries_become_variables_in_order() {
    let mut container = plain_container("web", "echo:latest");
    container.env = Some(vec![
        ("MODE".to_string(), "fast".to_string()),
        ("ADDR".to_string(), "0.0.0.0".to_string()),
        ("EMPTY".to_string(), "".to_string()),
    ]);
    let built = build_container(&container);
    assert_eq!(
        built.env,
        Some(vec![
            EnvVar { name: "MODE".to_string(), value: "fast".to_string() },
            EnvVar { name: "ADDR".to_string(), value: "0.0.0.0".to_string() },
            EnvVar { name: "EMPTY".to_string(), value: "".to_string() },
        ])
    );
}

#[test]
fn empty_env_stays_present_and_empty() {
    let mut container = plain_container("web", "echo:latest");
    container.env = Some(vec![]);
    assert_eq!(build_container(&container).env, Some(vec![]));
}

#[test]
fn port_mappings_come_out_by_host_port() {
    let mut container = plain_container("web", "echo:latest");
    container.ports = Some(BTreeMap::from([(9090, 90), (80, 8080), (443, 8443)]));
    let built = build_container(&container);
    assert_eq!(
        built.ports,
        Some(vec![
            ContainerPort { container_port: 8080, host_port: 80 },
            ContainerPort { container_port: 8443, host_port: 443 },
            ContainerPort { container_port: 90, host_port: 9090 },
        ])
    );
}

#[test]
fn port_mappings_may_share_a_container_port() {
    let mut container = plain_container("web", "echo:latest");
    container.ports = Some(BTreeMap::from([(81, 8080), (80, 8080)]));
    let built = build_container(&container);
    assert_eq!(
        built.ports,
        Some(vec![
            ContainerPort { container_port: 8080, host_port: 80 },
            ContainerPort { container_port: 8080, host_port: 81 },
        ])
    );
}

#[test]
fn negative_host_ports_come_first() {
    let mut container = plain_container("web", "echo:latest");
    container.ports = Some(BTreeMap::from([(5, 1), (-5, 2), (0, 3)]));
    let built = build_container(&container);
    assert_eq!(
        built.ports,
        Some(vec![
            ContainerPort { container_port: 2, host_port: -5 },
            ContainerPort { container_port: 3, host_port: 0 },
            ContainerPort { container_port: 1, host_port: 5 },
        ])
    );
}

#[test]
fn empty_port_mapping_stays_present_and_empty() {
    let mut container = plain_container("web", "echo:latest");
    container.ports = Some(BTreeMap::new());
    assert_eq!(build_container(&container).ports, Some(vec![]));
}

#[test]
fn every_part_of_a_full_container_is_carried_over() {
    let fs = spec_of(
        5,
        vec![
            ContainerSpec {
                name: "api".to_string(),
                image: "registry.local/api:2".to_string(),
                args: Some(vec!["serve".to_string()]),
                env: Some(vec![("LOG".to_string(), "debug".to_string())]),
                ports: Some(BTreeMap::from([(8000, 80)])),
            },
            plain_container("sidecar", "proxy:1"),
        ],
    );
    let workload = build_deployment(&fs, "shop", "prod");
    assert_eq!(workload.replicas, 5);
    assert_eq!(workload.containers.len(), 2);
    assert_eq!(
        workload.containers[0],
        ContainerDescriptor {
            name: "api".to_string(),
            image: "registry.local/api:2".to_string(),
            image_pull_policy: "Always".to_string(),
            args: Some(vec!["serve".to_string()]),
            env: Some(vec![EnvVar { name: "LOG".to_string(), value: "debug".to_string() }]),
            ports: Some(vec![ContainerPort { container_port: 80, host_port: 8000 }]),
        }
    );
    assert_eq!(workload.containers[1].name, "sidecar");
    assert_eq!(workload.containers[1].env, None);
    assert_eq!(workload.containers[1].ports, None);
    assert_eq!(workload.containers[1].args, None);
}

#[test]
fn building_leaves_the_specification_untouched() {
    let fs = spec_of(3, vec![plain_container("web", "echo:latest")]);
    let before = fs.clone();
    let _ = build_deployment(&fs, "web", "default");
    assert_eq!(fs, before);
}

#[test]
fn create_call_carries_the_built_workload() {
    let fs = spec_of(3, vec![plain_container("web", "echo:latest")]);
    let request = create_deployment(&fs, "web", "default");
    assert_eq!(request, Request::CreateDeployment(build_deployment(&fs, "web", "default")));
}

#[test]
fn delete_call_names_the_workload() {
    let request = delete_deployment("web", "default");
    assert_eq!(
        request,
        Request::DeleteDeployment { name: "web".to_string(), namespace: "default".to_string() }
    );
}
