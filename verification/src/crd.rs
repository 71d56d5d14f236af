//! The `ForwardedService` custom resource: a declarative request to forward
//! ports from inside the cluster to a target Service.

use crate::meta::{clone_text, ObjectMeta, ObjectMetaView};
use crate::ports::{is_port_spec, matches_port_pattern};
use crate::string_map::StringMap;
use crate::text::{decimal, i64_to_string};
use vstd::prelude::*;
use vstd::string::*;

verus! {

/// The finalizer that the operator attaches to each `ForwardedService`.
pub const FORWARDED_SERVICE_FINALIZER: &'static str = "forwardedservices.port-forward-operator.rs";

/// The annotation that records, on each child, the generation of the
/// `ForwardedService` it was made from.
pub const ANNOTATION_GENERATION: &'static str = "port-forward-operator.rs/observed-generation";

/// The API version of the custom resource, group included.
pub const API_VERSION: &'static str = "port-forward-operator.rs/v1";

/// The kind of the custom resource.
pub const KIND: &'static str = "ForwardedService";

/// The key under which the kubeconfig is looked up in its secret when the
/// reference names none.
pub const DEFAULT_KUBE_CONFIG_KEY: &'static str = "config";

/// Where the kubeconfig for the target cluster lives, and which context,
/// user and cluster to select from it.
#[derive(Clone, Debug)]
pub struct KubeConfigReference {
    pub secret: String,
    pub key: Option<String>,
    pub context: String,
    pub user: Option<String>,
    pub cluster: Option<String>,
}

/// The mathematical view of a `KubeConfigReference`.
pub struct KubeConfigReferenceView {
    pub secret: Seq<char>,
    pub key: Option<Seq<char>>,
    pub context: Seq<char>,
    pub user: Option<Seq<char>>,
    pub cluster: Option<Seq<char>>,
}

impl View for KubeConfigReference {
    type V = KubeConfigReferenceView;

    open spec fn view(&self) -> KubeConfigReferenceView {
        KubeConfigReferenceView {
            secret: self.secret@,
            key: self.key.deep_view(),
            context: self.context@,
            user: self.user.deep_view(),
            cluster: self.cluster.deep_view(),
        }
    }
}

impl KubeConfigReferenceView {
    /// The key of the kubeconfig in its secret: the one named, else the
    /// default key.
    pub open spec fn key_any(self) -> Seq<char> {
        match self.key {
            Some(key) => key,
            None => DEFAULT_KUBE_CONFIG_KEY@,
        }
    }
}

impl KubeConfigReference {
    /// The key of the kubeconfig in its secret: the one named, else
    /// `"config"`.
    pub fn key_any(&self) -> (key: String)
        ensures
            key@ == self@.key_any(),
    {
        match &self.key {
            Some(key) => key.clone(),
            None => DEFAULT_KUBE_CONFIG_KEY.to_owned(),
        }
    }
}

impl Default for KubeConfigReference {
    fn default() -> (reference: KubeConfigReference)
        ensures
            reference@ == (KubeConfigReferenceView {
                secret: Seq::empty(),
                key: Some(DEFAULT_KUBE_CONFIG_KEY@),
                context: Seq::empty(),
                user: None,
                cluster: None,
            }),
    {
        KubeConfigReference {
            secret: String::new(),
            key: Some(DEFAULT_KUBE_CONFIG_KEY.to_owned()),
            context: String::new(),
            user: None,
            cluster: None,
        }
    }
}

/// What a `ForwardedService` asks for.
#[derive(Clone, Debug)]
pub struct ForwardedServiceSpec {
    /// The name of the target Service.
    pub service: String,
    /// The namespace of the target Service; the resource's own when absent.
    pub namespace: Option<String>,
    /// The ports to forward, each `PORT` or `PORT:TARGET_PORT`.
    pub ports: Vec<String>,
    pub kube_config: KubeConfigReference,
}

/// The mathematical view of a `ForwardedServiceSpec`.
pub struct ForwardedServiceSpecView {
    pub service: Seq<char>,
    pub namespace: Option<Seq<char>>,
    pub ports: Seq<Seq<char>>,
    pub kube_config: KubeConfigReferenceView,
}

impl View for ForwardedServiceSpec {
    type V = ForwardedServiceSpecView;

    open spec fn view(&self) -> ForwardedServiceSpecView {
        ForwardedServiceSpecView {
            service: self.service@,
            namespace: self.namespace.deep_view(),
            ports: self.ports.deep_view(),
            kube_config: self.kube_config@,
        }
    }
}

impl ForwardedServiceSpecView {
    /// What the schema of the resource demands of the ports: at least one,
    /// and each matching the port pattern.
    pub open spec fn conforms(self) -> bool {
        &&& self.ports.len() >= 1
        &&& forall|i: int| 0 <= i < self.ports.len() ==> matches_port_pattern(#[trigger] self.ports[i])
    }
}

impl ForwardedServiceSpec {
    /// Whether the ports meet the schema of the resource: at least one, and
    /// each matching the port pattern.
    pub fn conforms(&self) -> (ok: bool)
        ensures
            ok == self@.conforms(),
    {
        if self.ports.len() == 0 {
            return false;
        }
        let mut i: usize = 0;
        while i < self.ports.len()
            invariant
                i <= self.ports@.len(),
                forall|j: int| 0 <= j < i ==> matches_port_pattern(#[trigger] self@.ports[j]),
            decreases self.ports@.len() - i,
        {
            assert(self@.ports[i as int] == self.ports@[i as int]@);
            if !is_port_spec(self.ports[i].as_str()) {
                return false;
            }
            i = i + 1;
        }
        true
    }
}

/// The status of a `ForwardedService`.
#[derive(Clone, Debug)]
pub struct ForwardedServiceStatus {
    pub service_name: String,
    pub pod_name: String,
}

/// The mathematical view of a `ForwardedServiceStatus`.
pub struct ForwardedServiceStatusView {
    pub service_name: Seq<char>,
    pub pod_name: Seq<char>,
}

impl View for ForwardedServiceStatus {
    type V = ForwardedServiceStatusView;

    open spec fn view(&self) -> ForwardedServiceStatusView {
        ForwardedServiceStatusView { service_name: self.service_name@, pod_name: self.pod_name@ }
    }
}

impl Default for ForwardedServiceStatus {
    fn default() -> (status: ForwardedServiceStatus)
        ensures
            status@ == (ForwardedServiceStatusView {
                service_name: Seq::empty(),
                pod_name: Seq::empty(),
            }),
    {
        ForwardedServiceStatus { service_name: String::new(), pod_name: String::new() }
    }
}

/// A `ForwardedService` as the cluster holds it.
#[derive(Clone, Debug)]
pub struct ForwardedService {
    pub metadata: ObjectMeta,
    pub spec: ForwardedServiceSpec,
    pub status: Option<ForwardedServiceStatus>,
}

/// The mathematical view of a `ForwardedService`.
pub struct ForwardedServiceView {
    pub metadata: ObjectMetaView,
    pub spec: ForwardedServiceSpecView,
    pub status: Option<ForwardedServiceStatusView>,
}

impl View for ForwardedService {
    type V = ForwardedServiceView;

    open spec fn view(&self) -> ForwardedServiceView {
        ForwardedServiceView {
            metadata: self.metadata@,
            spec: self.spec@,
            status: match self.status {
                Some(status) => Some(status@),
                None => None,
            },
        }
    }
}

impl ForwardedServiceView {
    /// The generation of the resource; zero when the cluster has set none.
    pub open spec fn generation(self) -> int {
        match self.metadata.generation {
            Some(generation) => generation as int,
            None => 0,
        }
    }

    /// The generation in decimal notation, as the annotation holds it.
    pub open spec fn generation_text(self) -> Seq<char> {
        decimal(self.generation())
    }

    /// The annotations of every child: the generation annotation alone.
    pub open spec fn annotations(self) -> Map<Seq<char>, Seq<char>> {
        Map::<Seq<char>, Seq<char>>::empty().insert(ANNOTATION_GENERATION@, self.generation_text())
    }
}

impl ForwardedService {
    /// A resource called `name` that asks for `spec`, with no other metadata
    /// and no status.
    pub fn new(name: &str, spec: ForwardedServiceSpec) -> (resource: ForwardedService)
        ensures
            resource@.metadata == (ObjectMetaView { name: Some(name@), ..ObjectMetaView::empty() }),
            resource@.spec == spec@,
            resource@.status is None,
    {
        let mut metadata: ObjectMeta = ObjectMeta::new();
        metadata.name = Some(name.to_owned());
        ForwardedService { metadata, spec, status: None }
    }

    /// The name of the resource.
    pub fn name_any(&self) -> (name: String)
        ensures
            name@ == self@.metadata.name_any(),
    {
        self.metadata.name_any()
    }

    /// The namespace of the resource, if it has one.
    pub fn namespace(&self) -> (namespace: Option<String>)
        ensures
            namespace.deep_view() == self@.metadata.namespace,
    {
        clone_text(&self.metadata.namespace)
    }

    /// The generation of the resource in decimal notation; `"0"` when the
    /// cluster has set none.
    pub fn generation_text(&self) -> (text: String)
        ensures
            text@ == self@.generation_text(),
    {
        match self.metadata.generation {
            Some(generation) => i64_to_string(generation),
            None => i64_to_string(0),
        }
    }

    /// The annotations that every child carries: the generation annotation,
    /// set to the generation of this resource.
    pub fn annotate(&self) -> (annotations: StringMap)
        ensures
            annotations@ == self@.annotations(),
    {
        let mut annotations: StringMap = StringMap::new();
        annotations.insert(ANNOTATION_GENERATION.to_owned(), self.generation_text());
        annotations
    }
}

} // verus!
