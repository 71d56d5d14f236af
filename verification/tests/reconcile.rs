use port_forward_operator::children::{Deployment, Service};
use port_forward_operator::controller::reconcile::{
    DeploymentStep, EventType, ServiceStage, ServiceStep,
};
use port_forward_operator::controller::upsert::{
    same_optional_text, same_optional_texts, same_texts, Child, CreateOrUpdate, Phase, Progress,
    Request, FIELD_MANAGER,
};
use port_forward_operator::controller::state::State;
use port_forward_operator::controller::{
    crd_installed, error_policy, new_state, Action, Context, Diagnostics, Timestamp, REPORTER,
    REQUEUE_SECONDS,
};
use port_forward_operator::crd::{
    ForwardedService, ForwardedServiceSpec, KubeConfigReference, ANNOTATION_GENERATION,
};
use port_forward_operator::error::{Error, KubeError};

fn sample() -> ForwardedService {
    let mut resource = ForwardedService::new(
        "db-forward",
        ForwardedServiceSpec {
            service: "postgres".to_owned(),
            namespace: None,
            ports: vec!["5432".to_owned()],
            kube_config: KubeConfigReference {
                secret: "remote-kube".to_owned(),
                key: None,
                context: "prod".to_owned(),
                user: None,
                cluster: None,
            },
        },
    );
    resource.metadata.namespace = Some("apps".to_owned());
    resource.metadata.uid = Some("uid-1".to_owned());
    resource.metadata.generation = Some(4);
    resource
}

fn context() -> Context {
    Context { diagnostics: Diagnostics::default(), image: "forwarder:1".to_owned() }
}

fn children(resource: &ForwardedService) -> (Service, Deployment) {
    resource.create_service_and_deployment(&context()).unwrap()
}

fn conflict() -> KubeError {
    KubeError { code: Some(409), message: "already exists".to_owned() }
}

fn failure(code: Option<u16>) -> KubeError {
    KubeError { code, message: "boom".to_owned() }
}

fn is_kubernetes_error(error: &Error, code: Option<u16>) -> bool {
    match error {
        Error::Kubernetes { source } => source.code == code && source.message == "boom",
        _ => false,
    }
}

#[test]
fn only_status_409_is_a_conflict() {
    assert!(conflict().is_conflict());
    assert!(!failure(Some(404)).is_conflict());
    assert!(!failure(Some(500)).is_conflict());
    assert!(!failure(None).is_conflict());
}

#[test]
fn service_is_stale_when_its_annotation_differs() {
    let resource = sample();
    let (mut service, _) = children(&resource);
    assert!(!ForwardedService::compare_generation(&resource, &service, &service));
    assert!(!Service::needs_update(&resource, &service, &service));

    service.metadata.annotations.insert(ANNOTATION_GENERATION.to_owned(), "3".to_owned());
    assert!(ForwardedService::compare_generation(&resource, &service, &service));
    assert!(Service::needs_update(&resource, &service, &service));

    service.metadata.annotations.insert(ANNOTATION_GENERATION.to_owned(), "04".to_owned());
    assert!(resource.is_stale(&service.metadata));

    service.metadata.annotations.insert(ANNOTATION_GENERATION.to_owned(), "4".to_owned());
    assert!(!resource.is_stale(&service.metadata));
}

#[test]
fn child_without_annotation_is_stale() {
    let resource = sample();
    let (mut service, mut deployment) = children(&resource);
    service.metadata.annotations = port_forward_operator::string_map::StringMap::new();
    deployment.metadata.annotations = port_forward_operator::string_map::StringMap::new();
    assert!(ForwardedService::compare_generation(&resource, &service, &service));
    assert!(ForwardedService::compare_generation(&resource, &deployment, &deployment));
}

#[test]
fn child_of_an_older_generation_is_stale() {
    let mut resource = sample();
    let (service, deployment) = children(&resource);
    resource.metadata.generation = Some(5);
    assert!(Service::needs_update(&resource, &service, &service));
    assert!(Deployment::needs_update(&resource, &deployment, &deployment));
}

#[test]
fn deployment_with_the_desired_arguments_is_updated() {
    let resource = sample();
    let (_, desired) = children(&resource);
    let (_, live) = children(&resource);
    assert!(Deployment::needs_update(&resource, &live, &desired));
}

#[test]
fn deployment_with_other_arguments_and_the_desired_image_is_kept() {
    let resource = sample();
    let (_, desired) = children(&resource);
    let (_, mut live) = children(&resource);
    live.container.args = Some(vec!["other".to_owned()]);
    assert!(!Deployment::needs_update(&resource, &live, &desired));
    live.container.args = None;
    assert!(!Deployment::needs_update(&resource, &live, &desired));
}

#[test]
fn deployment_with_another_image_is_updated() {
    let resource = sample();
    let (_, desired) = children(&resource);
    let (_, mut live) = children(&resource);
    live.container.args = Some(vec!["other".to_owned()]);
    live.container.image = Some("forwarder:0".to_owned());
    assert!(Deployment::needs_update(&resource, &live, &desired));
    live.container.image = None;
    assert!(Deployment::needs_update(&resource, &live, &desired));
}

#[test]
fn stale_deployment_is_updated_whatever_it_runs() {
    let mut resource = sample();
    let (_, desired) = children(&resource);
    let (_, mut live) = children(&resource);
    live.container.args = Some(vec!["other".to_owned()]);
    assert!(!Deployment::needs_update(&resource, &live, &desired));
    resource.metadata.generation = Some(9);
    assert!(Deployment::needs_update(&resource, &live, &desired));
}

#[test]
fn optional_texts_are_compared() {
    let a = Some("a".to_owned());
    let b = Some("b".to_owned());
    assert!(same_optional_text(&a, &a.clone()));
    assert!(!same_optional_text(&a, &b));
    assert!(!same_optional_text(&a, &None));
    assert!(!same_optional_text(&None, &b));
    assert!(same_optional_text(&None, &None));
}

#[test]
fn lists_of_texts_are_compared() {
    let ab = vec!["a".to_owned(), "b".to_owned()];
    let ac = vec!["a".to_owned(), "c".to_owned()];
    let a = vec!["a".to_owned()];
    assert!(same_texts(&ab, &ab.clone()));
    assert!(!same_texts(&ab, &ac));
    assert!(!same_texts(&ab, &a));
    assert!(same_texts(&Vec::new(), &Vec::new()));
    assert!(same_optional_texts(&Some(ab.clone()), &Some(ab.clone())));
    assert!(!same_optional_texts(&Some(ab.clone()), &None));
    assert!(!same_optional_texts(&None, &Some(Vec::new())));
    assert!(same_optional_texts(&None, &None));
}

#[test]
fn create_or_update_starts_by_creating() {
    let resource = sample();
    let (service, _) = children(&resource);
    let machine = CreateOrUpdate::new(service);
    assert_eq!(machine.phase, Phase::Create);
    assert_eq!(machine.name(), "db-forward");
    assert!(matches!(machine.request(), Request::Create));
    assert_eq!(FIELD_MANAGER, "port-forward-operator");
}

#[test]
fn live_child_is_fetched_and_patched_by_the_name_of_the_desired_one() {
    let resource = sample();
    let (desired, _) = children(&resource);
    let machine = CreateOrUpdate { desired, phase: Phase::Fetch };
    match machine.request() {
        Request::Get { name } => assert_eq!(name, "db-forward"),
        other => panic!("{:?}", other),
    }
    let (_, desired) = children(&resource);
    let machine = CreateOrUpdate { desired, phase: Phase::Patch };
    match machine.request() {
        Request::Patch { name, field_manager } => {
            assert_eq!(name, "db-forward");
            assert_eq!(field_manager, "port-forward-operator");
        }
        other => panic!("{:?}", other),
    }
}

#[test]
fn created_child_ends_create_or_update() {
    let resource = sample();
    let (service, _) = children(&resource);
    let (mut created, _) = children(&resource);
    created.metadata.uid = Some("fresh".to_owned());
    match resource.create_or_update(CreateOrUpdate::new(service), Ok(created)) {
        Progress::Done(Ok(child)) => assert_eq!(child.metadata.uid.as_deref(), Some("fresh")),
        other => panic!("{:?}", other),
    }
}

#[test]
fn conflict_on_create_leads_to_a_fetch() {
    let resource = sample();
    let (service, _) = children(&resource);
    match resource.create_or_update(CreateOrUpdate::new(service), Err(conflict())) {
        Progress::Continue(machine) => {
            assert_eq!(machine.phase, Phase::Fetch);
            assert_eq!(machine.desired.metadata.name.as_deref(), Some("db-forward"));
        }
        other => panic!("{:?}", other),
    }
}

#[test]
fn other_errors_on_create_are_fatal() {
    let resource = sample();
    for code in [None, Some(400), Some(403), Some(500)] {
        let (service, _) = children(&resource);
        match resource.create_or_update(CreateOrUpdate::new(service), Err(failure(code))) {
            Progress::Done(Err(error)) => assert!(is_kubernetes_error(&error, code)),
            other => panic!("{:?}", other),
        }
    }
}

#[test]
fn errors_on_fetch_and_patch_are_fatal() {
    let resource = sample();
    for phase in [Phase::Fetch, Phase::Patch] {
        for code in [None, Some(409), Some(500)] {
            let (desired, _) = children(&resource);
            let machine = CreateOrUpdate { desired, phase };
            match resource.create_or_update(machine, Err(failure(code))) {
                Progress::Done(Err(error)) => assert!(is_kubernetes_error(&error, code)),
                other => panic!("{:?}", other),
            }
        }
    }
}

#[test]
fn unchanged_service_is_not_patched() {
    let resource = sample();
    let (desired, _) = children(&resource);
    let (mut live, _) = children(&resource);
    live.metadata.uid = Some("live".to_owned());
    let machine = CreateOrUpdate { desired, phase: Phase::Fetch };
    match resource.create_or_update(machine, Ok(live)) {
        Progress::Done(Ok(child)) => assert_eq!(child.metadata.uid, None),
        other => panic!("{:?}", other),
    }
}

#[test]
fn drifted_service_is_patched_exactly_once() {
    let resource = sample();
    let (desired, _) = children(&resource);
    let (mut live, _) = children(&resource);
    live.metadata.annotations.insert(ANNOTATION_GENERATION.to_owned(), "1".to_owned());

    let machine = match resource.create_or_update(CreateOrUpdate::new(desired), Err(conflict())) {
        Progress::Continue(machine) => machine,
        other => panic!("{:?}", other),
    };
    assert_eq!(machine.phase, Phase::Fetch);
    let machine = match resource.create_or_update(machine, Ok(live)) {
        Progress::Continue(machine) => machine,
        other => panic!("{:?}", other),
    };
    assert_eq!(machine.phase, Phase::Patch);
    assert_eq!(
        machine.desired.metadata.annotations.get(ANNOTATION_GENERATION).map(|v| v.as_str()),
        Some("4")
    );
    assert!(!resource.is_stale(&machine.desired.metadata));
    let (patched, _) = children(&resource);
    match resource.create_or_update(machine, Ok(patched)) {
        Progress::Done(Ok(child)) => assert!(!resource.is_stale(&child.metadata)),
        other => panic!("{:?}", other),
    }
}

#[test]
fn reconciliation_of_a_new_resource_creates_both_children() {
    let resource = sample();
    let stage = resource.reconcile(&context()).unwrap();
    assert_eq!(stage.machine.phase, Phase::Create);
    assert_eq!(stage.machine.desired.container.image.as_deref(), Some("forwarder:1"));
    assert_eq!(stage.service.ports.len(), 1);

    let (_, created) = children(&resource);
    let stage = match resource.deployment_answered(stage, Ok(created)) {
        DeploymentStep::Next(stage) => stage,
        other => panic!("{:?}", other),
    };
    assert_eq!(stage.machine.phase, Phase::Create);
    assert_eq!(stage.machine.desired.type_, "ClusterIP");

    let (created, _) = children(&resource);
    let stage = match resource.service_answered(stage, Ok(created)) {
        ServiceStep::Next(stage) => stage,
        other => panic!("{:?}", other),
    };
    assert_eq!(stage.event.type_, EventType::Normal);
    assert_eq!(stage.event.reason, "ForwardingRequest");
    assert_eq!(stage.event.note.as_deref(), Some("Forwarding `db-forward`"));
    assert_eq!(stage.event.action, "Forwarding");
    assert_eq!(stage.directive, Action::Requeue { seconds: 300 });
    assert_eq!(stage.finish(Ok(())).unwrap(), Action::Requeue { seconds: 300 });
}

#[test]
fn second_reconciliation_patches_the_deployment_but_not_the_service() {
    let resource = sample();
    let stage = resource.reconcile(&context()).unwrap();
    let stage = match resource.deployment_answered(stage, Err(conflict())) {
        DeploymentStep::Continue(stage) => stage,
        other => panic!("{:?}", other),
    };
    assert_eq!(stage.machine.phase, Phase::Fetch);
    let (_, live) = children(&resource);
    let stage = match resource.deployment_answered(stage, Ok(live)) {
        DeploymentStep::Continue(stage) => stage,
        other => panic!("{:?}", other),
    };
    assert_eq!(stage.machine.phase, Phase::Patch);
    let (_, patched) = children(&resource);
    let stage = match resource.deployment_answered(stage, Ok(patched)) {
        DeploymentStep::Next(stage) => stage,
        other => panic!("{:?}", other),
    };

    let stage = match resource.service_answered(stage, Err(conflict())) {
        ServiceStep::Continue(stage) => stage,
        other => panic!("{:?}", other),
    };
    assert_eq!(stage.machine.phase, Phase::Fetch);
    let (live, _) = children(&resource);
    match resource.service_answered(stage, Ok(live)) {
        ServiceStep::Next(stage) => assert_eq!(stage.directive, Action::Requeue { seconds: 300 }),
        other => panic!("{:?}", other),
    }
}

#[test]
fn failure_on_the_deployment_ends_the_reconciliation() {
    let resource = sample();
    let stage = resource.reconcile(&context()).unwrap();
    match resource.deployment_answered(stage, Err(failure(Some(500)))) {
        DeploymentStep::Failed(error) => assert!(is_kubernetes_error(&error, Some(500))),
        other => panic!("{:?}", other),
    }
}

#[test]
fn failure_on_the_service_ends_the_reconciliation() {
    let resource = sample();
    let (service, _) = children(&resource);
    let stage = ServiceStage { machine: CreateOrUpdate::new(service) };
    match resource.service_answered(stage, Err(failure(None))) {
        ServiceStep::Failed(error) => assert!(is_kubernetes_error(&error, None)),
        other => panic!("{:?}", other),
    }
    let (service, _) = children(&resource);
    let stage = ServiceStage { machine: CreateOrUpdate { desired: service, phase: Phase::Patch } };
    match resource.service_answered(stage, Err(failure(Some(422)))) {
        ServiceStep::Failed(error) => assert!(is_kubernetes_error(&error, Some(422))),
        other => panic!("{:?}", other),
    }
}

#[test]
fn failure_to_publish_fails_the_pass() {
    let resource = sample();
    let stage = resource.cleanup();
    match stage.finish(Err(failure(Some(503)))) {
        Err(error) => assert!(is_kubernetes_error(&error, Some(503))),
        Ok(action) => panic!("{:?}", action),
    }
}

#[test]
fn cleanup_publishes_an_event_and_waits() {
    let resource = sample();
    let stage = resource.cleanup();
    assert_eq!(stage.event.type_, EventType::Normal);
    assert_eq!(stage.event.reason, "DeleteRequested");
    assert_eq!(stage.event.note.as_deref(), Some("Delete `db-forward`"));
    assert_eq!(stage.event.action, "Deleting");
    assert_eq!(stage.directive, Action::AwaitChange);
    assert_eq!(stage.finish(Ok(())).unwrap(), Action::AwaitChange);
}

#[test]
fn forwarding_event_names_the_resource() {
    let event = sample().forwarding_event();
    assert_eq!(event.note.as_deref(), Some("Forwarding `db-forward`"));
}

#[test]
fn controller_starts_only_with_the_definition_installed() {
    assert!(crd_installed(Ok(())).is_ok());
    match crd_installed(Err(failure(Some(404)))) {
        Err(Error::KubeCrd { source }) => {
            assert_eq!(source.code, Some(404));
            assert_eq!(source.message, "boom");
        }
        other => panic!("{:?}", other),
    }
    assert_eq!(
        crd_installed(Err(failure(None))).unwrap_err().message(),
        "unable to query kubernetes crd: boom"
    );
}

#[test]
fn every_error_requeues_after_five_minutes() {
    assert_eq!(REQUEUE_SECONDS, 5 * 60);
    assert_eq!(error_policy(&Error::MaxAttempts(3)), Action::Requeue { seconds: 300 });
    assert_eq!(
        error_policy(&Error::Kubernetes { source: failure(Some(500)) }),
        Action::Requeue { seconds: 300 }
    );
    assert_eq!(error_policy(&Error::Server("x".to_owned())), Action::Requeue { seconds: 300 });
}

#[test]
fn state_hands_its_image_and_reporter_to_the_context() {
    let state = new_state("forwarder:2".to_owned());
    let context = state.to_context();
    assert_eq!(context.image, "forwarder:2");
    assert_eq!(context.diagnostics.reporter, "forwardedservice-controller");
    assert_eq!(context.diagnostics.reporter, REPORTER);
    let again = state.to_context();
    assert_eq!(again.diagnostics.last_event, context.diagnostics.last_event);
}

#[test]
fn diagnostics_are_stamped_with_the_time_given() {
    let start = Timestamp { seconds: 1_700_000_000, nanos: 5 };
    let mut diagnostics = Diagnostics::started_at(start);
    assert_eq!(diagnostics.last_event, start);
    assert_eq!(diagnostics.reporter, "forwardedservice-controller");
    let later = Timestamp { seconds: 1_700_000_300, nanos: 0 };
    diagnostics.stamp(later);
    assert_eq!(diagnostics.last_event, later);
    assert_eq!(diagnostics.reporter, "forwardedservice-controller");

    let state = State::with_diagnostics(diagnostics, "forwarder:3".to_owned());
    let context = state.to_context();
    assert_eq!(context.diagnostics.last_event, later);
    assert_eq!(context.image, "forwarder:3");
}

#[test]
fn diagnostics_note_the_time() {
    let mut diagnostics = Diagnostics::default();
    assert_eq!(diagnostics.reporter, "forwardedservice-controller");
    assert!(diagnostics.last_event.seconds > 1_600_000_000);
    assert!(diagnostics.last_event.nanos < 2_000_000_000);
    let before = diagnostics.last_event;
    diagnostics.touch();
    assert_eq!(diagnostics.reporter, "forwardedservice-controller");
    assert!(
        (diagnostics.last_event.seconds, diagnostics.last_event.nanos)
            >= (before.seconds, before.nanos)
    );
}

#[test]
fn recorder_points_at_the_resource() {
    let resource = sample();
    let recorder = Diagnostics::default().recorder(&resource);
    assert_eq!(recorder.reporter, "forwardedservice-controller");
    assert_eq!(recorder.reference.api_version, "port-forward-operator.rs/v1");
    assert_eq!(recorder.reference.kind, "ForwardedService");
    assert_eq!(recorder.reference.name.as_deref(), Some("db-forward"));
    assert_eq!(recorder.reference.namespace.as_deref(), Some("apps"));
    assert_eq!(recorder.reference.uid.as_deref(), Some("uid-1"));
}
