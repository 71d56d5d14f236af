//! The resource synthesizer: from a `ForwardedService` and the forwarder
//! image to the Service and the Deployment that realize it.

use crate::children::{
    Container, ContainerView, Deployment, DeploymentView, SecretVolume, SecretVolumeView, Service,
    ServicePort, ServicePortView, ServiceView, VolumeMount, VolumeMountView,
};
use crate::controller::Context;
use crate::crd::{ForwardedService, ForwardedServiceView, API_VERSION, KIND};
use crate::error::Error;
use crate::meta::{clone_text, ObjectMeta, ObjectMetaView, OwnerReference, OwnerReferenceView};
use crate::ports::{dashed, port_name, published_port, published_port_of};
use crate::string_map::StringMap;
use vstd::prelude::*;
use vstd::string::*;

verus! {

/// The directory at which the kubeconfig secret is mounted in a forwarder
/// pod.
pub const KUBE_CONFIG_PATH: &'static str = "/etc/port-forward-operator/kube";

/// The label that binds a Service, its pods and their Deployment to the
/// `ForwardedService` they belong to.
pub const OWNER_LABEL: &'static str = "port-forward-operator.rs/forwardedservice";

/// The name of the forwarder container.
pub const CONTAINER_NAME: &'static str = "forwarder";

/// The name of the volume that holds the kubeconfig.
pub const VOLUME_NAME: &'static str = "kubeconfig";

/// How many old revisions a forwarder Deployment keeps.
pub const REVISION_HISTORY_LIMIT: i32 = 2;

/// The Service port that a port notation stands for: named after the
/// notation, and both exposing and targeting its published port, on which
/// the forwarder pod listens.
pub open spec fn service_port(spec: Seq<char>) -> ServicePortView {
    ServicePortView {
        name: dashed(spec),
        port: published_port(spec)->0,
        protocol: "TCP"@,
        target_port: published_port(spec)->0,
    }
}

impl ForwardedServiceView {
    /// The namespace of the target Service: the one the spec names, else the
    /// resource's own.
    pub open spec fn target_namespace(self) -> Option<Seq<char>> {
        match self.spec.namespace {
            Some(namespace) => Some(namespace),
            None => self.metadata.namespace,
        }
    }

    /// The arguments of the forwarder that precede the ports: the kubeconfig
    /// path, the context, the user and the cluster where given, the
    /// namespace, the forwarding sub-command bound to all interfaces, and
    /// the target.
    pub open spec fn base_args(self) -> Seq<Seq<char>> {
        seq![
            "--kubeconfig"@,
            KUBE_CONFIG_PATH@ + "/"@ + self.spec.kube_config.key_any(),
            "--context"@,
            self.spec.kube_config.context,
        ] + (match self.spec.kube_config.user {
            Some(user) => seq!["--user"@, user],
            None => Seq::empty(),
        }) + (match self.spec.kube_config.cluster {
            Some(cluster) => seq!["--cluster"@, cluster],
            None => Seq::empty(),
        }) + seq![
            "--namespace"@,
            self.target_namespace()->0,
            "port-forward"@,
            "--address"@,
            "0.0.0.0"@,
            "svc/"@ + self.spec.service,
        ]
    }

    /// All arguments of the forwarder: the base arguments, then each port
    /// notation as it stands.
    pub open spec fn container_args(self) -> Seq<Seq<char>> {
        self.base_args() + self.spec.ports
    }

    /// The labels of every child: the owner label, set to the name of the
    /// resource.
    pub open spec fn labels(self) -> Map<Seq<char>, Seq<char>> {
        Map::<Seq<char>, Seq<char>>::empty().insert(OWNER_LABEL@, self.metadata.name_any())
    }

    /// The owner reference that every child carries: it points at the
    /// resource and does not make it the controller of the child.
    pub open spec fn owner_reference(self) -> OwnerReferenceView {
        OwnerReferenceView {
            api_version: API_VERSION@,
            kind: KIND@,
            name: self.metadata.name_any(),
            uid: self.metadata.uid->0,
            controller: Some(false),
        }
    }

    /// The metadata of every child: the name and namespace of the resource,
    /// the owner label, the generation annotation and one owner reference.
    pub open spec fn child_metadata(self) -> ObjectMetaView {
        ObjectMetaView {
            name: Some(self.metadata.name_any()),
            namespace: self.metadata.namespace,
            labels: self.labels(),
            annotations: self.annotations(),
            owner_references: seq![self.owner_reference()],
            ..ObjectMetaView::empty()
        }
    }

    /// The Service that realizes the resource: a cluster-internal Service
    /// with one port for each port notation, selecting the forwarder pods.
    pub open spec fn service(self) -> ServiceView {
        ServiceView {
            metadata: self.child_metadata(),
            ports: self.spec.ports.map_values(|spec: Seq<char>| service_port(spec)),
            selector: self.labels(),
            type_: "ClusterIP"@,
        }
    }

    /// The Deployment that realizes the resource: one forwarder container
    /// running `image` with the forwarder arguments, and the kubeconfig
    /// secret mounted read-only.
    pub open spec fn deployment(self, image: Seq<char>) -> DeploymentView {
        DeploymentView {
            metadata: self.child_metadata(),
            revision_history_limit: REVISION_HISTORY_LIMIT,
            selector: self.labels(),
            pod_labels: self.labels(),
            container: ContainerView {
                name: CONTAINER_NAME@,
                image: Some(image),
                args: Some(self.container_args()),
                volume_mounts: seq![
                    VolumeMountView {
                        mount_path: KUBE_CONFIG_PATH@,
                        name: VOLUME_NAME@,
                        read_only: true,
                    },
                ],
            },
            volumes: seq![
                SecretVolumeView {
                    name: VOLUME_NAME@,
                    secret_name: self.spec.kube_config.secret,
                    optional: false,
                },
            ],
        }
    }

    /// Whether children can be synthesized: the resource has a UID, the
    /// target namespace is known, and the published side of every port
    /// notation parses as an integer.
    pub open spec fn synthesizable(self) -> bool {
        &&& self.metadata.uid is Some
        &&& self.target_namespace() is Some
        &&& forall|i: int|
            0 <= i < self.spec.ports.len() ==> published_port(#[trigger] self.spec.ports[i]) is Some
    }
}

fn push_arg(args: &mut Vec<String>, arg: String)
    ensures
        final(args).deep_view() == old(args).deep_view().push(arg@),
{
    args.push(arg);
    assert(args.deep_view() =~= old(args).deep_view().push(arg@));
}

impl ForwardedService {
    /// Whether children can be synthesized from this resource.
    pub fn synthesizable(&self) -> (ok: bool)
        ensures
            ok == self@.synthesizable(),
    {
        if self.metadata.uid.is_none() {
            return false;
        }
        if self.spec.namespace.is_none() && self.metadata.namespace.is_none() {
            return false;
        }
        let mut i: usize = 0;
        while i < self.spec.ports.len()
            invariant
                i <= self.spec.ports@.len(),
                forall|j: int| 0 <= j < i ==> published_port(#[trigger] self@.spec.ports[j]) is Some,
            decreases self.spec.ports@.len() - i,
        {
            assert(self@.spec.ports[i as int] == self.spec.ports@[i as int]@);
            if published_port_of(self.spec.ports[i].as_str()).is_none() {
                return false;
            }
            i = i + 1;
        }
        true
    }

    /// Appends to `args` the arguments of the forwarder that precede the
    /// ports.
    pub fn add_vector_args(&self, args: &mut Vec<String>)
        requires
            self@.target_namespace() is Some,
        ensures
            final(args).deep_view() == old(args).deep_view() + self@.base_args(),
    {
        let ghost before = args.deep_view();
        push_arg(args, String::from_str("--kubeconfig"));
        push_arg(
            args,
            String::from_str(KUBE_CONFIG_PATH).concat("/").concat(
                self.spec.kube_config.key_any().as_str(),
            ),
        );
        push_arg(args, String::from_str("--context"));
        push_arg(args, self.spec.kube_config.context.clone());
        if let Some(kube_user) = &self.spec.kube_config.user {
            push_arg(args, String::from_str("--user"));
            push_arg(args, kube_user.clone());
        }
        if let Some(kube_cluster) = &self.spec.kube_config.cluster {
            push_arg(args, String::from_str("--cluster"));
            push_arg(args, kube_cluster.clone());
        }
        push_arg(args, String::from_str("--namespace"));
        let namespace: String = match &self.spec.namespace {
            Some(namespace) => namespace.clone(),
            None => match &self.metadata.namespace {
                Some(namespace) => namespace.clone(),
                None => String::new(),
            },
        };
        push_arg(args, namespace);
        push_arg(args, String::from_str("port-forward"));
        push_arg(args, String::from_str("--address"));
        push_arg(args, String::from_str("0.0.0.0"));
        push_arg(args, String::from_str("svc/").concat(self.spec.service.as_str()));
        assert(args.deep_view() =~= before + self@.base_args());
    }

    /// The labels of every child.
    fn child_labels(&self) -> (labels: StringMap)
        ensures
            labels@ == self@.labels(),
    {
        let mut labels: StringMap = StringMap::new();
        labels.insert(OWNER_LABEL.to_owned(), self.name_any());
        labels
    }

    /// The metadata of every child.
    fn child_metadata(&self) -> (metadata: ObjectMeta)
        requires
            self@.metadata.uid is Some,
        ensures
            metadata@ == self@.child_metadata(),
    {
        let uid: String = match &self.metadata.uid {
            Some(uid) => uid.clone(),
            None => String::new(),
        };
        let mut owner_references: Vec<OwnerReference> = Vec::new();
        owner_references.push(
            OwnerReference {
                api_version: API_VERSION.to_owned(),
                kind: KIND.to_owned(),
                name: self.name_any(),
                uid,
                controller: Some(false),
            },
        );
        let mut metadata: ObjectMeta = ObjectMeta::new();
        metadata.name = Some(self.name_any());
        metadata.namespace = clone_text(&self.metadata.namespace);
        metadata.labels = self.child_labels();
        metadata.annotations = self.annotate();
        metadata.owner_references = owner_references;
        assert(metadata@.owner_references =~= seq![self@.owner_reference()]);
        assert(metadata@.finalizers =~= Seq::empty());
        metadata
    }

    /// Synthesizes the Service and the Deployment that realize this
    /// resource, with forwarder pods running the image of `ctx`.
    pub fn create_service_and_deployment(&self, ctx: &Context) -> (children: Result<
        (Service, Deployment),
        Error,
    >)
        requires
            self@.synthesizable(),
        ensures
            children matches Ok((service, deployment)) && service@ == self@.service()
                && deployment@ == self@.deployment(ctx.image@),
    {
        let mut ports: Vec<ServicePort> = Vec::new();
        let mut args: Vec<String> = Vec::new();
        self.add_vector_args(&mut args);
        assert(args.deep_view() =~= self@.base_args());
        let mut i: usize = 0;
        while i < self.spec.ports.len()
            invariant
                i <= self.spec.ports@.len(),
                self@.synthesizable(),
                args.deep_view() == self@.base_args() + self@.spec.ports.take(i as int),
                ports@.map_values(|p: ServicePort| p@) == self@.spec.ports.take(i as int).map_values(
                    |spec: Seq<char>| service_port(spec),
                ),
            decreases self.spec.ports@.len() - i,
        {
            let port: &String = &self.spec.ports[i];
            assert(self@.spec.ports[i as int] == port@);
            let int_port: i32 = published_port_of(port.as_str()).unwrap();
            push_arg(&mut args, port.clone());
            let ghost made = ports@.map_values(|p: ServicePort| p@);
            let service_port = ServicePort {
                name: port_name(port.as_str()),
                port: int_port,
                protocol: String::from_str("TCP"),
                target_port: int_port,
            };
            assert(service_port@ == self::service_port(port@));
            ports.push(service_port);
            assert(args.deep_view() =~= self@.base_args() + self@.spec.ports.take(i + 1));
            assert(ports@.map_values(|p: ServicePort| p@) =~= made.push(
                self::service_port(port@),
            ));
            assert(self@.spec.ports.take(i + 1).map_values(
                |spec: Seq<char>| self::service_port(spec),
            ) =~= made.push(self::service_port(port@)));
            i = i + 1;
        }
        assert(self@.spec.ports.take(i as int) =~= self@.spec.ports);

        let new_service = Service {
            metadata: self.child_metadata(),
            ports,
            selector: self.child_labels(),
            type_: String::from_str("ClusterIP"),
        };

        let mut volume_mounts: Vec<VolumeMount> = Vec::new();
        volume_mounts.push(
            VolumeMount {
                mount_path: KUBE_CONFIG_PATH.to_owned(),
                name: VOLUME_NAME.to_owned(),
                read_only: true,
            },
        );
        let mut volumes: Vec<SecretVolume> = Vec::new();
        volumes.push(
            SecretVolume {
                name: VOLUME_NAME.to_owned(),
                secret_name: self.spec.kube_config.secret.clone(),
                optional: false,
            },
        );
        let new_deployment = Deployment {
            metadata: self.child_metadata(),
            revision_history_limit: REVISION_HISTORY_LIMIT,
            selector: self.child_labels(),
            pod_labels: self.child_labels(),
            container: Container {
                name: CONTAINER_NAME.to_owned(),
                image: Some(ctx.image.clone()),
                args: Some(args),
                volume_mounts,
            },
            volumes,
        };
        assert(new_deployment@.container.volume_mounts =~= self@.deployment(
            ctx.image@,
        ).container.volume_mounts);
        assert(new_deployment@.volumes =~= self@.deployment(ctx.image@).volumes);
        Ok((new_service, new_deployment))
    }
}

} // verus!
