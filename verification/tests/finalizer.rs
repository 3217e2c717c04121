use fox_operator::finalizer::{add, delete, FinalizerPatch, FINALIZER};
use fox_operator::request::Request;

fn patch_of(request: Request) -> FinalizerPatch {
    match request {
        Request::PatchFinalizers(patch) => patch,
        other => panic!("not a finalizer patch: {:?}", other),
    }
}

#[test]
fn the_token_is_fixed() {
    assert_eq!(FINALIZER, "foxservices.cbopt.com");
}

#[test]
fn add_sets_the_field_to_the_token_alone() {
    let patch = patch_of(add("web", "default"));
    assert_eq!(
        patch,
        FinalizerPatch {
            name: "web".to_string(),
            namespace: "default".to_string(),
            finalizers: Some(vec!["foxservices.cbopt.com".to_string()]),
        }
    );
}

#[test]
fn delete_clears_the_field() {
    let patch = patch_of(delete("web", "default"));
    assert_eq!(
        patch,
        FinalizerPatch {
            name: "web".to_string(),
            namespace: "default".to_string(),
            finalizers: None,
        }
    );
}

#[test]
fn adding_to_a_bare_resource_gives_the_singleton() {
    let patch = patch_of(add("web", "default"));
    assert_eq!(patch.merge(vec![]), vec![FINALIZER.to_string()]);
}

#[test]
fn adding_twice_gives_the_singleton_still() {
    let patch = patch_of(add("web", "default"));
    let once = patch.merge(vec![]);
    let twice = patch_of(add("web", "default")).merge(once.clone());
    assert_eq!(once, vec![FINALIZER.to_string()]);
    assert_eq!(twice, once);
}

#[test]
fn adding_discards_foreign_tokens() {
    let patch = patch_of(add("web", "default"));
    let merged = patch.merge(vec!["someone.else/cleanup".to_string(), "x".to_string()]);
    assert_eq!(merged, vec![FINALIZER.to_string()]);
}

#[test]
fn deleting_from_a_bare_resource_leaves_it_bare() {
    let patch = patch_of(delete("web", "default"));
    assert_eq!(patch.merge(vec![]), Vec::<String>::new());
}

#[test]
fn deleting_removes_the_token() {
    let patch = patch_of(delete("web", "default"));
    assert_eq!(patch.merge(vec![FINALIZER.to_string()]), Vec::<String>::new());
}

#[test]
fn deleting_removes_foreign_tokens_too() {
    let patch = patch_of(delete("web", "default"));
    let merged = patch.merge(vec![FINALIZER.to_string(), "someone.else/cleanup".to_string()]);
    assert_eq!(merged, Vec::<String>::new());
}

#[test]
fn a_patch_with_several_tokens_replaces_the_field_by_them() {
    let patch = FinalizerPatch {
        name: "web".to_string(),
        namespace: "default".to_string(),
        finalizers: Some(vec!["a".to_string(), "b".to_string()]),
    };
    assert_eq!(patch.merge(vec!["c".to_string()]), vec!["a".to_string(), "b".to_string()]);
}
