use citus_operator::action::Action;
use citus_operator::error::Error;
use citus_operator::kind::{
    dependent_kind, Scope, DEPENDENT_API_VERSION, DEPENDENT_GROUP, DEPENDENT_KIND,
    DEPENDENT_VERSION,
};
use citus_operator::projector::{project, DEPENDENT_NAME};
use citus_operator::reconciler::{apply_params, reconcile_request, FIELD_MANAGER};
use citus_operator::resource::{
    CitusCluster, CitusClusterSpec, CitusClusterStatus, DependentResource,
};

fn configuration(text: &str) -> serde_json::Value {
    serde_json::from_str(text).unwrap()
}

#[test]
fn dependent_kind_is_resolved_by_the_platform_library() {
    let kind = dependent_kind();
    assert_eq!(kind.group, "postgresql.cnpg.io");
    assert_eq!(kind.version, "v1");
    assert_eq!(kind.kind, "Cluster");
    assert_eq!(kind.api_version, "postgresql.cnpg.io/v1");
    assert_eq!(kind.plural, "clusters");
    assert_eq!(kind.api_version, format!("{}/{}", DEPENDENT_GROUP, DEPENDENT_VERSION));
    assert_eq!(kind.api_version, DEPENDENT_API_VERSION);
    assert_ne!(kind.plural, DEPENDENT_KIND);
    assert_eq!(dependent_kind(), kind);
}

#[test]
fn apply_is_forced_under_the_controllers_field_manager() {
    let params = apply_params();
    assert_eq!(params.field_manager, "citus_apply");
    assert!(params.force);
    assert_eq!(FIELD_MANAGER, "citus_apply");
}

#[test]
fn request_addresses_the_object_it_describes() {
    let primary = CitusCluster::new(CitusClusterSpec::new(2, configuration("{}")), None);
    let request = reconcile_request(&primary);
    assert_eq!(request.name, *request.desired.name());
    assert_eq!(request.kind.kind, *request.desired.kind());
    assert_eq!(request.kind.api_version, *request.desired.api_version());
    assert_eq!(request.kind, dependent_kind());
    assert_eq!(request.scope, Scope::DefaultNamespace);
    assert_eq!(request.params, apply_params());
    assert_eq!(request.desired, project(&primary));
}

#[test]
fn projection_copies_the_node_spec_verbatim() {
    let texts = [
        "null",
        "{}",
        "[]",
        r#""text""#,
        "1.5",
        r#"{"instances": 3, "storage": {"size": "10Gi"}}"#,
        r#"{"a": [1, -2, 3.25, null, true, {"b": "c"}], "d": {"e": {"f": []}}}"#,
    ];
    for text in texts {
        let primary = CitusCluster::new(CitusClusterSpec::new(3, configuration(text)), None);
        let desired = project(&primary);
        assert_eq!(*desired.spec(), configuration(text));
        assert_eq!(desired.spec(), primary.spec().node_spec());
        assert_eq!(desired.name(), DEPENDENT_NAME);
        assert_eq!(desired.name(), "inner-c");
        assert_eq!(desired.api_version(), "postgresql.cnpg.io/v1");
        assert_eq!(desired.kind(), "Cluster");
    }
}

#[test]
fn projection_is_not_validated() {
    // A node configuration that no database cluster would accept is forwarded as it is.
    let odd = r#"{"instances": "many", "storage": -1}"#;
    let primary = CitusCluster::new(CitusClusterSpec::new(0, configuration(odd)), None);
    assert_eq!(*project(&primary).spec(), configuration(odd));
}

#[test]
fn equal_primaries_have_equal_projections() {
    let text = r#"{"instances": 3, "storage": {"size": "10Gi"}}"#;
    let a = CitusCluster::new(CitusClusterSpec::new(3, configuration(text)), None);
    let b = CitusCluster::new(CitusClusterSpec::new(3, configuration(text)), None);
    assert_eq!(a, b);
    assert_eq!(project(&a), project(&b));
    assert_eq!(project(&a), project(&a));
    assert_eq!(project(&a), project(&a.clone()));
}

#[test]
fn projection_reads_the_node_spec_only() {
    let text = r#"{"instances": 3}"#;
    let a = CitusCluster::new(CitusClusterSpec::new(3, configuration(text)), None);
    let b = CitusCluster::new(
        CitusClusterSpec::new(9, configuration(text)),
        Some(CitusClusterStatus::new(true, 9)),
    );
    assert_ne!(a, b);
    assert_eq!(project(&a), project(&b));
    let c = CitusCluster::new(CitusClusterSpec::new(3, configuration(r#"{"instances": 4}"#)), None);
    assert_ne!(project(&a), project(&c));
}

#[test]
fn primary_keeps_what_it_was_made_of() {
    let spec = CitusClusterSpec::new(3, configuration(r#"{"instances": 3}"#));
    assert_eq!(spec.node_count(), 3);
    assert_eq!(*spec.node_spec(), configuration(r#"{"instances": 3}"#));
    assert_eq!(spec.clone(), spec);

    let bare = CitusCluster::new(spec.clone(), None);
    assert_eq!(*bare.spec(), spec);
    assert_eq!(bare.status(), None);

    let status = CitusClusterStatus::new(true, 2);
    let reported = CitusCluster::new(spec.clone(), Some(status));
    assert_eq!(reported.status(), Some(status));
    assert_eq!(reported.clone(), reported);
    assert_eq!(*reported.spec(), spec);

    let negative = CitusClusterSpec::new(-1, configuration("null"));
    assert_eq!(negative.node_count(), -1);
    assert_eq!(CitusClusterSpec::new(isize::MAX, configuration("null")).node_count(), isize::MAX);
}

#[test]
fn status_keeps_what_it_was_made_of() {
    let status = CitusClusterStatus::new(true, 3);
    assert!(status.is_healthy());
    assert_eq!(status.observed_node_count(), 3);
    let unhealthy = CitusClusterStatus::new(false, 0);
    assert!(!unhealthy.is_healthy());
    assert_eq!(unhealthy.observed_node_count(), 0);
    assert_ne!(status, unhealthy);
}

#[test]
fn default_status_has_observed_nothing() {
    let status = CitusClusterStatus::default();
    assert!(!status.is_healthy());
    assert_eq!(status.observed_node_count(), 0);
    assert_eq!(status, CitusClusterStatus::new(false, 0));
}

#[test]
fn dependent_resource_keeps_what_it_was_made_of() {
    let desired = DependentResource::new(
        "example.org/v2".to_string(),
        "Widget".to_string(),
        "w-1".to_string(),
        configuration(r#"{"size": 1}"#),
    );
    assert_eq!(desired.api_version(), "example.org/v2");
    assert_eq!(desired.kind(), "Widget");
    assert_eq!(desired.name(), "w-1");
    assert_eq!(desired.spec()["size"], 1);
}

#[test]
fn requeue_holds_its_delay() {
    assert_eq!(Action::requeue(10), Action::Requeue { after_secs: 10 });
    assert_eq!(Action::requeue(0), Action::Requeue { after_secs: 0 });
    assert_ne!(Action::requeue(1), Action::requeue(10));
    assert_ne!(Action::requeue(1), Action::AwaitChange);
}

#[test]
fn missing_object_key_names_the_key() {
    assert_eq!(Error::MissingObjectKey(".metadata.name").message(), "MissingObjectKey: .metadata.name");
    assert_eq!(Error::MissingObjectKey("").message(), "MissingObjectKey: ");
    assert_eq!(
        Error::MissingObjectKey(".metadata.namespace"),
        Error::MissingObjectKey(".metadata.namespace")
    );
}
