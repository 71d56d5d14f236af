use port_forward_operator::controller::synthesizer::{
    CONTAINER_NAME, KUBE_CONFIG_PATH, OWNER_LABEL, REVISION_HISTORY_LIMIT, VOLUME_NAME,
};
use port_forward_operator::controller::{Context, Diagnostics};
use port_forward_operator::crd::{
    ForwardedService, ForwardedServiceSpec, KubeConfigReference, ANNOTATION_GENERATION, API_VERSION,
    KIND,
};
use port_forward_operator::meta::ObjectMeta;

fn texts(items: &[&str]) -> Vec<String> {
    items.iter().map(|s| s.to_string()).collect()
}

fn sample() -> ForwardedService {
    let mut resource = ForwardedService::new(
        "db-forward",
        ForwardedServiceSpec {
            service: "postgres".to_owned(),
            namespace: Some("data".to_owned()),
            ports: texts(&["5432", "8080:9090"]),
            kube_config: KubeConfigReference {
                secret: "remote-kube".to_owned(),
                key: None,
                context: "prod".to_owned(),
                user: Some("admin".to_owned()),
                cluster: Some("east".to_owned()),
            },
        },
    );
    resource.metadata.namespace = Some("apps".to_owned());
    resource.metadata.uid = Some("uid-1".to_owned());
    resource.metadata.generation = Some(4);
    resource
}

fn context(image: &str) -> Context {
    Context { diagnostics: Diagnostics::default(), image: image.to_owned() }
}

fn check_child_metadata(metadata: &ObjectMeta, generation: &str) {
    assert_eq!(metadata.name.as_deref(), Some("db-forward"));
    assert_eq!(metadata.generate_name, None);
    assert_eq!(metadata.namespace.as_deref(), Some("apps"));
    assert_eq!(metadata.uid, None);
    assert_eq!(metadata.generation, None);
    assert!(metadata.finalizers.is_empty());
    assert!(!metadata.deletion_requested);
    assert_eq!(metadata.labels.pairs(), vec![(OWNER_LABEL.to_owned(), "db-forward".to_owned())]);
    assert_eq!(
        metadata.annotations.pairs(),
        vec![(ANNOTATION_GENERATION.to_owned(), generation.to_owned())]
    );
    assert_eq!(metadata.owner_references.len(), 1);
    let owner = &metadata.owner_references[0];
    assert_eq!(owner.api_version, API_VERSION);
    assert_eq!(owner.api_version, "port-forward-operator.rs/v1");
    assert_eq!(owner.kind, KIND);
    assert_eq!(owner.kind, "ForwardedService");
    assert_eq!(owner.name, "db-forward");
    assert_eq!(owner.uid, "uid-1");
    assert_eq!(owner.controller, Some(false));
}

#[test]
fn arguments_come_in_the_fixed_order() {
    let mut args = Vec::new();
    sample().add_vector_args(&mut args);
    assert_eq!(
        args,
        texts(&[
            "--kubeconfig",
            "/etc/port-forward-operator/kube/config",
            "--context",
            "prod",
            "--user",
            "admin",
            "--cluster",
            "east",
            "--namespace",
            "data",
            "port-forward",
            "--address",
            "0.0.0.0",
            "svc/postgres",
        ])
    );
}

#[test]
fn arguments_are_appended_to_what_is_there() {
    let mut args = texts(&["first"]);
    sample().add_vector_args(&mut args);
    assert_eq!(args.len(), 15);
    assert_eq!(args[0], "first");
    assert_eq!(args[1], "--kubeconfig");
    assert_eq!(args[14], "svc/postgres");
}

#[test]
fn user_and_cluster_are_left_out_when_absent() {
    let mut resource = sample();
    resource.spec.kube_config.user = None;
    resource.spec.kube_config.cluster = None;
    resource.spec.kube_config.key = Some("remote.yaml".to_owned());
    let mut args = Vec::new();
    resource.add_vector_args(&mut args);
    assert_eq!(
        args,
        texts(&[
            "--kubeconfig",
            "/etc/port-forward-operator/kube/remote.yaml",
            "--context",
            "prod",
            "--namespace",
            "data",
            "port-forward",
            "--address",
            "0.0.0.0",
            "svc/postgres",
        ])
    );
}

#[test]
fn only_the_cluster_may_be_given() {
    let mut resource = sample();
    resource.spec.kube_config.user = None;
    let mut args = Vec::new();
    resource.add_vector_args(&mut args);
    assert_eq!(args[4], "--cluster");
    assert_eq!(args[5], "east");
    assert_eq!(args[6], "--namespace");
    assert_eq!(args.len(), 12);
}

#[test]
fn namespace_defaults_to_that_of_the_resource() {
    let mut resource = sample();
    resource.spec.namespace = None;
    let mut args = Vec::new();
    resource.add_vector_args(&mut args);
    assert_eq!(args[8], "--namespace");
    assert_eq!(args[9], "apps");
}

#[test]
fn service_has_one_port_for_each_notation() {
    let (service, _) = sample().create_service_and_deployment(&context("forwarder:1")).unwrap();
    check_child_metadata(&service.metadata, "4");
    assert_eq!(service.type_, "ClusterIP");
    assert_eq!(service.selector.pairs(), vec![(OWNER_LABEL.to_owned(), "db-forward".to_owned())]);
    assert_eq!(service.ports.len(), 2);
    assert_eq!(service.ports[0].name, "5432");
    assert_eq!(service.ports[0].port, 5432);
    assert_eq!(service.ports[0].target_port, 5432);
    assert_eq!(service.ports[0].protocol, "TCP");
    assert_eq!(service.ports[1].name, "8080-9090");
    assert_eq!(service.ports[1].port, 8080);
    assert_eq!(service.ports[1].target_port, 8080);
    assert_eq!(service.ports[1].protocol, "TCP");
}

#[test]
fn deployment_runs_the_forwarder() {
    let (_, deployment) = sample().create_service_and_deployment(&context("forwarder:1")).unwrap();
    check_child_metadata(&deployment.metadata, "4");
    assert_eq!(deployment.revision_history_limit, 2);
    assert_eq!(deployment.revision_history_limit, REVISION_HISTORY_LIMIT);
    let labels = vec![(OWNER_LABEL.to_owned(), "db-forward".to_owned())];
    assert_eq!(deployment.selector.pairs(), labels);
    assert_eq!(deployment.pod_labels.pairs(), labels);
    assert_eq!(deployment.container.name, "forwarder");
    assert_eq!(deployment.container.name, CONTAINER_NAME);
    assert_eq!(deployment.container.image.as_deref(), Some("forwarder:1"));
    assert_eq!(
        deployment.container.args,
        Some(texts(&[
            "--kubeconfig",
            "/etc/port-forward-operator/kube/config",
            "--context",
            "prod",
            "--user",
            "admin",
            "--cluster",
            "east",
            "--namespace",
            "data",
            "port-forward",
            "--address",
            "0.0.0.0",
            "svc/postgres",
            "5432",
            "8080:9090",
        ]))
    );
    assert_eq!(deployment.container.volume_mounts.len(), 1);
    assert_eq!(deployment.container.volume_mounts[0].mount_path, "/etc/port-forward-operator/kube");
    assert_eq!(deployment.container.volume_mounts[0].mount_path, KUBE_CONFIG_PATH);
    assert_eq!(deployment.container.volume_mounts[0].name, "kubeconfig");
    assert!(deployment.container.volume_mounts[0].read_only);
    assert_eq!(deployment.volumes.len(), 1);
    assert_eq!(deployment.volumes[0].name, VOLUME_NAME);
    assert_eq!(deployment.volumes[0].name, "kubeconfig");
    assert_eq!(deployment.volumes[0].secret_name, "remote-kube");
    assert!(!deployment.volumes[0].optional);
}

#[test]
fn generation_defaults_to_zero() {
    let mut resource = sample();
    resource.metadata.generation = None;
    let (service, deployment) =
        resource.create_service_and_deployment(&context("forwarder:1")).unwrap();
    check_child_metadata(&service.metadata, "0");
    check_child_metadata(&deployment.metadata, "0");
}

#[test]
fn children_of_a_resource_without_namespace_have_none() {
    let mut resource = sample();
    resource.metadata.namespace = None;
    let (service, deployment) =
        resource.create_service_and_deployment(&context("forwarder:1")).unwrap();
    assert_eq!(service.metadata.namespace, None);
    assert_eq!(deployment.metadata.namespace, None);
    assert_eq!(deployment.container.args.unwrap()[9], "data");
}

#[test]
fn a_resource_without_ports_gets_a_service_without_ports() {
    let mut resource = sample();
    resource.spec.ports = Vec::new();
    assert!(resource.synthesizable());
    let (service, deployment) =
        resource.create_service_and_deployment(&context("forwarder:1")).unwrap();
    assert!(service.ports.is_empty());
    assert_eq!(deployment.container.args.unwrap().len(), 14);
}

#[test]
fn synthesis_is_deterministic() {
    let resource = sample();
    let (s1, d1) = resource.create_service_and_deployment(&context("forwarder:1")).unwrap();
    let (s2, d2) = resource.create_service_and_deployment(&context("forwarder:1")).unwrap();
    assert_eq!(format!("{:?}", s1), format!("{:?}", s2));
    assert_eq!(format!("{:?}", d1), format!("{:?}", d2));
}

#[test]
fn what_cannot_be_synthesized_is_told_apart() {
    assert!(sample().synthesizable());

    let mut no_uid = sample();
    no_uid.metadata.uid = None;
    assert!(!no_uid.synthesizable());

    let mut no_namespace = sample();
    no_namespace.spec.namespace = None;
    no_namespace.metadata.namespace = None;
    assert!(!no_namespace.synthesizable());

    let mut own_namespace = sample();
    own_namespace.spec.namespace = None;
    assert!(own_namespace.synthesizable());

    let mut bad_port = sample();
    bad_port.spec.ports.push("http".to_owned());
    assert!(!bad_port.synthesizable());

    let mut empty_port = sample();
    empty_port.spec.ports.push(":80".to_owned());
    assert!(!empty_port.synthesizable());

    let mut loose_target = sample();
    loose_target.spec.ports.push("80:http".to_owned());
    assert!(loose_target.synthesizable());
}
