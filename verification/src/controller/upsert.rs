//! Create-or-update: how one child is brought to its desired state. The
//! child is created; where the cluster answers that it already exists, the
//! live child is fetched and patched if the update predicate of its kind
//! says so.

use crate::children::{Deployment, DeploymentView, Service, ServiceView};
use crate::crd::{ForwardedService, ForwardedServiceView, ANNOTATION_GENERATION};
use crate::error::{Error, ErrorView, KubeError, KubeErrorView};
use crate::meta::{ObjectMeta, ObjectMetaView};
use vstd::prelude::*;
use vstd::string::*;

verus! {

/// The identity under which the operator patches children.
pub const FIELD_MANAGER: &'static str = "port-forward-operator";

/// A kind of child: what create-or-update needs to know of it.
pub trait Child: View + Sized {
    /// The metadata of a child.
    spec fn meta(child: Self::V) -> ObjectMetaView;

    /// Whether the live child has to be patched to the desired one.
    spec fn outdated(cr: ForwardedServiceView, live: Self::V, desired: Self::V) -> bool;

    /// The metadata of this child.
    fn metadata(&self) -> (metadata: &ObjectMeta)
        ensures
            metadata@ == Self::meta(self@),
    ;

    /// Whether `live` has to be patched to `desired`.
    fn needs_update(cr: &ForwardedService, live: &Self, desired: &Self) -> (update: bool)
        ensures
            update == Self::outdated(cr@, live@, desired@),
    ;
}

/// Whether a child with this metadata is stale: its generation annotation
/// is missing or differs from the generation of the resource.
pub open spec fn stale(cr: ForwardedServiceView, metadata: ObjectMetaView) -> bool {
    !(metadata.annotations.contains_key(ANNOTATION_GENERATION@)
        && metadata.annotations[ANNOTATION_GENERATION@] == cr.generation_text())
}

/// Whether the live Deployment has to be patched: it is stale, or its image
/// differs from the desired one, or its arguments equal the desired ones.
pub open spec fn deployment_outdated(
    cr: ForwardedServiceView,
    live: DeploymentView,
    desired: DeploymentView,
) -> bool {
    ||| stale(cr, live.metadata)
    ||| live.container.image != desired.container.image
    ||| live.container.args == desired.container.args
}

/// Whether two optional texts are equal.
pub fn same_optional_text(a: &Option<String>, b: &Option<String>) -> (same: bool)
    ensures
        same == (a.deep_view() == b.deep_view()),
{
    match (a, b) {
        (Some(x), Some(y)) => *x == *y,
        (None, None) => true,
        _ => false,
    }
}

/// Whether two lists of texts are equal.
pub fn same_texts(a: &Vec<String>, b: &Vec<String>) -> (same: bool)
    ensures
        same == (a.deep_view() == b.deep_view()),
{
    if a.len() != b.len() {
        assert(a.deep_view().len() != b.deep_view().len());
        return false;
    }
    let mut i: usize = 0;
    while i < a.len()
        invariant
            i <= a@.len(),
            a@.len() == b@.len(),
            forall|j: int| 0 <= j < i ==> a@[j]@ == b@[j]@,
        decreases a@.len() - i,
    {
        if a[i] != b[i] {
            assert(a.deep_view()[i as int] != b.deep_view()[i as int]);
            return false;
        }
        i = i + 1;
    }
    assert(a.deep_view() =~= b.deep_view());
    true
}

/// Whether two optional lists of texts are equal.
pub fn same_optional_texts(a: &Option<Vec<String>>, b: &Option<Vec<String>>) -> (same: bool)
    ensures
        same == (a.deep_view() == b.deep_view()),
{
    match (a, b) {
        (Some(x), Some(y)) => same_texts(x, y),
        (None, None) => true,
        _ => false,
    }
}

impl Child for Service {
    open spec fn meta(child: ServiceView) -> ObjectMetaView {
        child.metadata
    }

    open spec fn outdated(cr: ForwardedServiceView, live: ServiceView, desired: ServiceView) -> bool {
        stale(cr, live.metadata)
    }

    fn metadata(&self) -> (metadata: &ObjectMeta) {
        &self.metadata
    }

    fn needs_update(cr: &ForwardedService, live: &Service, desired: &Service) -> (update: bool) {
        cr.is_stale(&live.metadata)
    }
}

impl Child for Deployment {
    open spec fn meta(child: DeploymentView) -> ObjectMetaView {
        child.metadata
    }

    open spec fn outdated(
        cr: ForwardedServiceView,
        live: DeploymentView,
        desired: DeploymentView,
    ) -> bool {
        deployment_outdated(cr, live, desired)
    }

    fn metadata(&self) -> (metadata: &ObjectMeta) {
        &self.metadata
    }

    fn needs_update(cr: &ForwardedService, live: &Deployment, desired: &Deployment) -> (update:
        bool) {
        if cr.is_stale(&live.metadata) {
            true
        } else {
            !same_optional_text(&live.container.image, &desired.container.image)
                || same_optional_texts(&live.container.args, &desired.container.args)
        }
    }
}

/// Where a create-or-update stands: which request it waits on.
#[derive(Clone, Copy, Debug, PartialEq, Eq, Structural)]
pub enum Phase {
    /// The desired child is being created.
    Create,
    /// The live child is being fetched.
    Fetch,
    /// The live child is being patched to the desired one.
    Patch,
}

/// A request to the cluster about a child.
#[derive(Clone, Debug)]
pub enum Request {
    /// Create the desired child.
    Create,
    /// Fetch the live child called `name`.
    Get { name: String },
    /// Merge the desired child into the live child called `name`, under the
    /// identity `field_manager`.
    Patch { name: String, field_manager: String },
}

/// The mathematical view of a `Request`.
pub enum RequestView {
    Create,
    Get { name: Seq<char> },
    Patch { name: Seq<char>, field_manager: Seq<char> },
}

impl View for Request {
    type V = RequestView;

    open spec fn view(&self) -> RequestView {
        match self {
            Request::Create => RequestView::Create,
            Request::Get { name } => RequestView::Get { name: name@ },
            Request::Patch { name, field_manager } => RequestView::Patch {
                name: name@,
                field_manager: field_manager@,
            },
        }
    }
}

/// The request that create-or-update makes in `phase` for a desired child
/// with `metadata`: the live child is fetched and patched by the name of
/// the desired one, and patched under the identity of the operator.
pub open spec fn request_of(phase: Phase, metadata: ObjectMetaView) -> RequestView {
    match phase {
        Phase::Create => RequestView::Create,
        Phase::Fetch => RequestView::Get { name: metadata.name_any() },
        Phase::Patch => RequestView::Patch {
            name: metadata.name_any(),
            field_manager: FIELD_MANAGER@,
        },
    }
}

/// A create-or-update under way: the desired child and the request whose
/// answer is awaited.
#[derive(Debug)]
pub struct CreateOrUpdate<T> {
    pub desired: T,
    pub phase: Phase,
}

/// How a create-or-update goes on after an answer.
#[derive(Debug)]
pub enum Progress<T> {
    /// Another request is to be made.
    Continue(CreateOrUpdate<T>),
    /// It has ended, with the child as the cluster holds it or with an
    /// error.
    Done(Result<T, Error>),
}

/// The mathematical view of a `Progress`.
pub enum ProgressView<V> {
    Continue { desired: V, phase: Phase },
    Done(Result<V, ErrorView>),
}

/// The view of an answer of the cluster.
pub open spec fn answer_view<T: View>(answer: Result<T, KubeError>) -> Result<T::V, KubeErrorView> {
    match answer {
        Ok(child) => Ok(child@),
        Err(error) => Err(error@),
    }
}

impl<T: View> View for Progress<T> {
    type V = ProgressView<T::V>;

    open spec fn view(&self) -> ProgressView<T::V> {
        match self {
            Progress::Continue(machine) => ProgressView::Continue {
                desired: machine.desired@,
                phase: machine.phase,
            },
            Progress::Done(Ok(child)) => ProgressView::Done(Ok(child@)),
            Progress::Done(Err(error)) => ProgressView::Done(Err(error@)),
        }
    }
}

/// One step of create-or-update: what follows from the answer to the
/// request of `phase`.
///
/// - An answer to the create request ends it with the created child; the
///   answer that the child exists leads to fetching it; any other error
///   ends it with that error.
/// - The fetched child is patched where it is outdated; else it ends with
///   the desired child.
/// - An answer to the patch request ends it, with the patched child or with
///   the error.
pub open spec fn upsert_step<T: Child>(
    cr: ForwardedServiceView,
    desired: T::V,
    phase: Phase,
    answer: Result<T::V, KubeErrorView>,
) -> ProgressView<T::V> {
    match answer {
        Err(error) => if phase == Phase::Create && error.is_conflict() {
            ProgressView::Continue { desired, phase: Phase::Fetch }
        } else {
            ProgressView::Done(Err(ErrorView::Kubernetes { source: error }))
        },
        Ok(child) => if phase == Phase::Fetch {
            if T::outdated(cr, child, desired) {
                ProgressView::Continue { desired, phase: Phase::Patch }
            } else {
                ProgressView::Done(Ok(desired))
            }
        } else {
            ProgressView::Done(Ok(child))
        },
    }
}

impl<T: Child> CreateOrUpdate<T> {
    /// A create-or-update of `desired` that starts with the create request.
    pub fn new(desired: T) -> (machine: CreateOrUpdate<T>)
        ensures
            machine.desired == desired,
            machine.phase == Phase::Create,
    {
        CreateOrUpdate { desired, phase: Phase::Create }
    }

    /// The name by which the live child is fetched and patched.
    pub fn name(&self) -> (name: String)
        ensures
            name@ == T::meta(self.desired@).name_any(),
    {
        self.desired.metadata().name_any()
    }

    /// The request to make now; its answer takes the create-or-update on.
    pub fn request(&self) -> (request: Request)
        ensures
            request@ == request_of(self.phase, T::meta(self.desired@)),
    {
        match self.phase {
            Phase::Create => Request::Create,
            Phase::Fetch => Request::Get { name: self.name() },
            Phase::Patch => Request::Patch {
                name: self.name(),
                field_manager: FIELD_MANAGER.to_owned(),
            },
        }
    }
}

impl ForwardedService {
    /// Whether the child `actual` is stale: its generation annotation is
    /// missing or differs from the generation of this resource.
    pub fn compare_generation<T: Child>(fs: &ForwardedService, actual: &T, _expected: &T) -> (stale:
        bool)
        ensures
            stale == self::stale(fs@, T::meta(actual@)),
    {
        fs.is_stale(actual.metadata())
    }

    /// Whether a child with `metadata` is stale: its generation annotation
    /// is missing or differs from the generation of this resource.
    pub fn is_stale(&self, metadata: &ObjectMeta) -> (stale: bool)
        ensures
            stale == self::stale(self@, metadata@),
    {
        let generation: String = self.generation_text();
        match metadata.annotations.get(ANNOTATION_GENERATION) {
            Some(observed) => *observed != generation,
            None => true,
        }
    }

    /// Takes a create-or-update one step on: from the answer of the cluster
    /// to the request of the machine's phase, to the next request or the
    /// result.
    pub fn create_or_update<T: Child>(
        &self,
        machine: CreateOrUpdate<T>,
        answer: Result<T, KubeError>,
    ) -> (progress: Progress<T>)
        ensures
            progress@ == upsert_step::<T>(
                self@,
                machine.desired@,
                machine.phase,
                answer_view(answer),
            ),
    {
        let CreateOrUpdate { desired, phase } = machine;
        match answer {
            Err(error) => {
                let retry: bool = match phase {
                    Phase::Create => error.is_conflict(),
                    _ => false,
                };
                if retry {
                    Progress::Continue(CreateOrUpdate { desired, phase: Phase::Fetch })
                } else {
                    Progress::Done(Err(Error::Kubernetes { source: error }))
                }
            },
            Ok(child) => match phase {
                Phase::Fetch => {
                    if T::needs_update(self, &child, &desired) {
                        Progress::Continue(CreateOrUpdate { desired, phase: Phase::Patch })
                    } else {
                        Progress::Done(Ok(desired))
                    }
                },
                _ => Progress::Done(Ok(child)),
            },
        }
    }
}

} // verus!
