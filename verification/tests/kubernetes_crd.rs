use fox_operator::kubernetes_crd::{Metadata, Names};

#[test]
fn metadata_holds_name_and_namespace() {
    let metadata = Metadata {
        name: "foxservices.cbopt.com".to_string(),
        namespace: "default".to_string(),
    };
    assert_eq!(metadata.name, "foxservices.cbopt.com");
    assert_eq!(metadata.namespace, "default");
    assert_eq!(metadata.clone(), metadata);
}

#[test]
fn names_hold_every_form_of_the_kind() {
    let names = Names {
        kind: "FoxService".to_string(),
        plural: "foxservices".to_string(),
        singular: "foxservice".to_string(),
        short_names: vec!["fs".to_string()],
    };
    assert_eq!(names.kind, "FoxService");
    assert_eq!(names.plural, "foxservices");
    assert_eq!(names.singular, "foxservice");
    assert_eq!(names.short_names, vec!["fs".to_string()]);
}
