use fox_operator::action::{determine_action, Action};
use fox_operator::finalizer::FINALIZER;
use fox_operator::resource::{ContainerSpec, FoxService, FoxServiceSpec};

fn service_with(finalizers: Vec<String>, deletion_timestamp: Option<i64>) -> FoxService {
    FoxService {
        name: "web".to_string(),
        namespace: Some("default".to_string()),
        spec: FoxServiceSpec {
            replicas: 3,
            containers: vec![ContainerSpec {
                name: "web".to_string(),
                image: "echo:latest".to_string(),
                args: None,
                env: None,
                ports: None,
            }],
            http_ingress: None,
        },
        finalizers,
        deletion_timestamp,
    }
}

#[test]
fn fresh_resource_is_created() {
    let svc = service_with(vec![], None);
    assert_eq!(determine_action(&svc), Action::Create);
}

#[test]
fn resource_with_the_finalizer_needs_nothing() {
    let svc = service_with(vec![FINALIZER.to_string()], None);
    assert_eq!(determine_action(&svc), Action::NoOp);
}

#[test]
fn resource_with_a_foreign_finalizer_needs_nothing() {
    let svc = service_with(vec!["someone.else/cleanup".to_string()], None);
    assert_eq!(determine_action(&svc), Action::NoOp);
}

#[test]
fn resource_with_several_finalizers_needs_nothing() {
    let svc = service_with(
        vec![FINALIZER.to_string(), "someone.else/cleanup".to_string()],
        None,
    );
    assert_eq!(determine_action(&svc), Action::NoOp);
}

#[test]
fn marked_resource_with_the_finalizer_is_deleted() {
    let svc = service_with(vec![FINALIZER.to_string()], Some(1_700_000_000));
    assert_eq!(determine_action(&svc), Action::Delete);
}

#[test]
fn marked_resource_without_finalizers_is_deleted() {
    let svc = service_with(vec![], Some(1_700_000_000));
    assert_eq!(determine_action(&svc), Action::Delete);
}

#[test]
fn deletion_marker_at_the_epoch_still_counts() {
    let svc = service_with(vec![], Some(0));
    assert_eq!(determine_action(&svc), Action::Delete);
}

#[test]
fn the_namespace_plays_no_part_in_the_decision() {
    let mut svc = service_with(vec![], None);
    svc.namespace = None;
    assert_eq!(determine_action(&svc), Action::Create);
}
