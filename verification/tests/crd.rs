use port_forward_operator::crd::{
    ForwardedService, ForwardedServiceSpec, ForwardedServiceStatus, KubeConfigReference,
    ANNOTATION_GENERATION, FORWARDED_SERVICE_FINALIZER,
};

fn spec_with_ports(ports: Vec<&str>) -> ForwardedServiceSpec {
    ForwardedServiceSpec {
        service: "db".to_owned(),
        namespace: None,
        ports: ports.into_iter().map(|p| p.to_owned()).collect(),
        kube_config: KubeConfigReference::default(),
    }
}

#[test]
fn test_key_any_on_set_key() {
    let reference = KubeConfigReference {
        secret: "secret".to_owned(),
        key: Some("key".to_owned()),
        context: "context".to_owned(),
        user: None,
        cluster: None,
    };
    let value = reference.key_any();
    let key = reference.key.unwrap();
    assert_eq!(key, value);
}

#[test]
fn test_key_any_on_no_key() {
    let reference = KubeConfigReference {
        secret: "secret".to_owned(),
        key: None,
        context: "context".to_owned(),
        user: None,
        cluster: None,
    };
    let value = reference.key_any();
    assert_eq!("config", value);
}

#[test]
fn default_reference_names_the_config_key() {
    let reference = KubeConfigReference::default();
    assert_eq!(reference.secret, "");
    assert_eq!(reference.key.as_deref(), Some("config"));
    assert_eq!(reference.context, "");
    assert_eq!(reference.user, None);
    assert_eq!(reference.cluster, None);
    assert_eq!(reference.key_any(), "config");
}

#[test]
fn default_status_is_empty() {
    let status = ForwardedServiceStatus::default();
    assert_eq!(status.service_name, "");
    assert_eq!(status.pod_name, "");
}

#[test]
fn constants_name_the_operator() {
    assert_eq!(FORWARDED_SERVICE_FINALIZER, "forwardedservices.port-forward-operator.rs");
    assert_eq!(ANNOTATION_GENERATION, "port-forward-operator.rs/observed-generation");
}

#[test]
fn new_resource_has_only_a_name() {
    let resource = ForwardedService::new("fwd", spec_with_ports(vec!["80"]));
    assert_eq!(resource.metadata.name.as_deref(), Some("fwd"));
    assert_eq!(resource.metadata.namespace, None);
    assert_eq!(resource.metadata.uid, None);
    assert_eq!(resource.metadata.generation, None);
    assert!(resource.metadata.finalizers.is_empty());
    assert!(!resource.metadata.deletion_requested);
    assert!(resource.status.is_none());
    assert_eq!(resource.name_any(), "fwd");
    assert_eq!(resource.namespace(), None);
}

#[test]
fn name_falls_back_to_the_generated_prefix() {
    let mut resource = ForwardedService::new("fwd", spec_with_ports(vec!["80"]));
    resource.metadata.name = None;
    assert_eq!(resource.name_any(), "");
    resource.metadata.generate_name = Some("fwd-".to_owned());
    assert_eq!(resource.name_any(), "fwd-");
    resource.metadata.name = Some("named".to_owned());
    assert_eq!(resource.name_any(), "named");
}

#[test]
fn annotation_holds_the_generation() {
    let mut resource = ForwardedService::new("fwd", spec_with_ports(vec!["80"]));
    let annotations = resource.annotate();
    assert_eq!(annotations.pairs(), vec![(ANNOTATION_GENERATION.to_owned(), "0".to_owned())]);
    resource.metadata.generation = Some(17);
    let annotations = resource.annotate();
    assert_eq!(annotations.get(ANNOTATION_GENERATION).map(|v| v.as_str()), Some("17"));
    assert_eq!(annotations.pairs().len(), 1);
    assert_eq!(resource.generation_text(), "17");
}

#[test]
fn schema_wants_ports_that_match_the_pattern() {
    assert!(spec_with_ports(vec!["8080"]).conforms());
    assert!(spec_with_ports(vec!["8080:9090", "53"]).conforms());
    assert!(spec_with_ports(vec![":", ""]).conforms());
    assert!(!spec_with_ports(vec![]).conforms());
    assert!(!spec_with_ports(vec!["8080", "http"]).conforms());
    assert!(!spec_with_ports(vec!["123456"]).conforms());
}
