//! What holds of the reconciler as a whole: laws that relate the
//! synthesizer, the update predicates, create-or-update and the finalizer
//! protocol.

use crate::children::{Deployment, DeploymentView, Service, ServiceView};
use crate::controller::finalizer::{
    attach_patch, detach_patch, first_index_of, lemma_first_index_of, FinalizerStepView,
};
use crate::controller::upsert::{stale, upsert_step, Child, Phase, ProgressView};
use crate::ports::{lemma_mapping_has_published_port, port_mapping, published_port};
use crate::text::lemma_decimal_injective;
use crate::crd::{ForwardedServiceView, API_VERSION, KIND};
use crate::error::{ErrorView, FinalizerErrorView, KubeErrorView};
use crate::meta::{ObjectMetaView, OwnerReferenceView};
use vstd::prelude::*;

verus! {

/// Every synthesized child carries exactly one owner reference. It points
/// at the resource by kind, name and UID, and does not make the resource
/// the controller of the child.
pub proof fn law_owner_reference(cr: ForwardedServiceView, image: Seq<char>)
    ensures
        cr.service().metadata.owner_references.len() == 1,
        cr.deployment(image).metadata.owner_references.len() == 1,
        cr.service().metadata.owner_references[0] == cr.deployment(
            image,
        ).metadata.owner_references[0],
        cr.service().metadata.owner_references[0] == (OwnerReferenceView {
            api_version: API_VERSION@,
            kind: KIND@,
            name: cr.metadata.name_any(),
            uid: cr.metadata.uid->0,
            controller: Some(false),
        }),
{
}

/// Every synthesized child is stamped with the generation of the resource,
/// so that no synthesized child is stale against the resource it was made
/// from.
pub proof fn law_children_are_stamped(cr: ForwardedServiceView, image: Seq<char>)
    ensures
        !stale(cr, cr.service().metadata),
        !stale(cr, cr.deployment(image).metadata),
{
}

/// The generation annotation tells exactly whether a child is up to date:
/// a child made from one state of a resource is stale against another
/// state if and only if the two are of different generations.
pub proof fn law_stale_exactly_when_generation_differs(
    cr: ForwardedServiceView,
    made_from: ForwardedServiceView,
    image: Seq<char>,
)
    ensures
        stale(cr, made_from.service().metadata) <==> cr.generation() != made_from.generation(),
        stale(cr, made_from.deployment(image).metadata) <==> cr.generation()
            != made_from.generation(),
{
    if cr.generation_text() == made_from.generation_text() {
        lemma_decimal_injective(cr.generation(), made_from.generation());
    }
}

/// Reconciling an unchanged resource again writes nothing to its Service:
/// the create request is answered with a conflict, the live Service is
/// fetched, and where it carries the generation of the resource, as the
/// synthesized Service does, create-or-update ends there without a patch.
pub proof fn law_unchanged_service_is_kept(
    cr: ForwardedServiceView,
    live: ServiceView,
    conflict: KubeErrorView,
)
    requires
        conflict.is_conflict(),
        !stale(cr, live.metadata),
    ensures
        upsert_step::<Service>(cr, cr.service(), Phase::Create, Err(conflict)) == (
        ProgressView::Continue { desired: cr.service(), phase: Phase::Fetch }),
        upsert_step::<Service>(cr, cr.service(), Phase::Fetch, Ok(live)) == ProgressView::Done(
            Ok(cr.service()),
        ),
        upsert_step::<Service>(cr, cr.service(), Phase::Fetch, Ok(cr.service()))
            == ProgressView::Done(Ok(cr.service())),
{
}

/// A live Deployment is left alone exactly where it carries the generation
/// of the resource and the desired image, but not the desired arguments.
/// So a Deployment that equals the desired one is patched again on every
/// reconciliation.
pub proof fn law_deployment_is_kept_only_with_other_arguments(
    cr: ForwardedServiceView,
    live: DeploymentView,
    desired: DeploymentView,
)
    ensures
        upsert_step::<Deployment>(cr, desired, Phase::Fetch, Ok(live)) == ProgressView::Done(
            Ok(desired),
        ) <==> !stale(cr, live.metadata) && live.container.image == desired.container.image
            && live.container.args != desired.container.args,
        upsert_step::<Deployment>(cr, desired, Phase::Fetch, Ok(desired)) == (
        ProgressView::Continue { desired, phase: Phase::Patch }),
{
}

/// A Service whose generation annotation was changed away from the
/// generation of the resource is repaired by exactly one patch: the create
/// request is answered with a conflict, the fetched Service is found stale,
/// the desired Service is patched in, and with the answer to that patch
/// create-or-update ends. What was patched in is not stale.
pub proof fn law_drifted_service_is_patched_once(
    cr: ForwardedServiceView,
    live: ServiceView,
    conflict: KubeErrorView,
    patched: ServiceView,
)
    requires
        conflict.is_conflict(),
        stale(cr, live.metadata),
    ensures
        upsert_step::<Service>(cr, cr.service(), Phase::Create, Err(conflict)) == (
        ProgressView::Continue { desired: cr.service(), phase: Phase::Fetch }),
        upsert_step::<Service>(cr, cr.service(), Phase::Fetch, Ok(live)) == (ProgressView::Continue {
            desired: cr.service(),
            phase: Phase::Patch,
        }),
        upsert_step::<Service>(cr, cr.service(), Phase::Patch, Ok(patched)) == ProgressView::Done(
            Ok(patched),
        ),
        !stale(cr, cr.service().metadata),
{
}

/// Any error but a conflict on create, and any error at all on fetch or
/// patch, ends create-or-update with that error, whatever the kind of
/// child.
pub proof fn law_errors_end_create_or_update<T: Child>(
    cr: ForwardedServiceView,
    desired: T::V,
    phase: Phase,
    error: KubeErrorView,
)
    requires
        phase == Phase::Create ==> !error.is_conflict(),
    ensures
        upsert_step::<T>(cr, desired, phase, Err(error)) == ProgressView::<T::V>::Done(
            Err(ErrorView::Kubernetes { source: error }),
        ),
{
}

/// A child that the cluster created ends create-or-update at once, with no
/// further request, whatever the kind of child.
pub proof fn law_created_child_ends_create_or_update<T: Child>(
    cr: ForwardedServiceView,
    desired: T::V,
    created: T::V,
)
    ensures
        upsert_step::<T>(cr, desired, Phase::Create, Ok(created)) == ProgressView::<T::V>::Done(
            Ok(created),
        ),
{
}

/// A resource whose port notations all denote a mapping can be synthesized
/// once it has a UID and a namespace for its target.
pub proof fn law_valid_ports_can_be_synthesized(cr: ForwardedServiceView)
    requires
        cr.metadata.uid is Some,
        cr.target_namespace() is Some,
        forall|i: int| 0 <= i < cr.spec.ports.len() ==> port_mapping(#[trigger] cr.spec.ports[i]) is Some,
    ensures
        cr.synthesizable(),
        forall|i: int|
            0 <= i < cr.spec.ports.len() ==> (#[trigger] cr.service().ports[i]).port == port_mapping(
                cr.spec.ports[i],
            )->0.published,
{
    assert forall|i: int| 0 <= i < cr.spec.ports.len() implies published_port(
        #[trigger] cr.spec.ports[i],
    ) == Some(port_mapping(cr.spec.ports[i])->0.published) by {
        lemma_mapping_has_published_port(cr.spec.ports[i]);
    }
}

/// A finalizer that was attached is found.
pub proof fn lemma_attached_is_found(list: Seq<Seq<char>>, name: Seq<char>)
    ensures
        first_index_of(list.push(name), name) is Some,
{
    lemma_first_index_of(list.push(name), name);
    assert(list.push(name)[list.len() as int] == name);
}

/// A finalizer that stood at one index only is gone once that index is
/// taken off.
pub proof fn lemma_removed_is_gone(list: Seq<Seq<char>>, name: Seq<char>, index: int)
    requires
        0 <= index < list.len(),
        forall|j: int| 0 <= j < list.len() && j != index ==> list[j] != name,
    ensures
        first_index_of(list.remove(index), name) is None,
{
    lemma_first_index_of(list.remove(index), name);
    assert forall|j: int| 0 <= j < list.remove(index).len() implies list.remove(index)[j]
        != name by {
        if j < index {
            assert(list.remove(index)[j] == list[j]);
        } else {
            assert(list.remove(index)[j] == list[j + 1]);
        }
    }
}

/// A resource that was created without the finalizer gets it attached
/// before it is ever applied: the first pass attaches it and applies
/// nothing, and once it is attached the next pass applies the resource.
pub proof fn law_finalizer_is_attached_once(metadata: ObjectMetaView, finalizer: Seq<char>)
    requires
        metadata.name is Some,
        !metadata.deletion_requested,
        first_index_of(metadata.finalizers, finalizer) is None,
    ensures
        metadata.finalizer_step(finalizer) == Ok::<FinalizerStepView, FinalizerErrorView>(
            FinalizerStepView::AddFinalizer {
                name: metadata.name->0,
                patch: attach_patch(metadata.finalizers, finalizer),
            },
        ),
        metadata.with_finalizer(finalizer).finalizer_step(finalizer) == Ok::<
            FinalizerStepView,
            FinalizerErrorView,
        >(FinalizerStepView::Apply),
{
    lemma_attached_is_found(metadata.finalizers, finalizer);
}

/// While a resource carries the finalizer and is not being deleted, every
/// pass applies it, and none attaches the finalizer again.
pub proof fn law_attached_resource_is_applied(metadata: ObjectMetaView, finalizer: Seq<char>)
    requires
        !metadata.deletion_requested,
        first_index_of(metadata.finalizers, finalizer) is Some,
    ensures
        metadata.finalizer_step(finalizer) == Ok::<FinalizerStepView, FinalizerErrorView>(
            FinalizerStepView::Apply,
        ),
{
}

/// Once deletion of a resource is requested it is never applied again,
/// whatever finalizers it carries.
pub proof fn law_no_apply_in_deletion(metadata: ObjectMetaView, finalizer: Seq<char>)
    requires
        metadata.deletion_requested,
    ensures
        metadata.finalizer_step(finalizer) != Ok::<FinalizerStepView, FinalizerErrorView>(
            FinalizerStepView::Apply,
        ),
{
}

/// Deleting a resource that carries the finalizer once leads to exactly one
/// cleanup: the pass that sees the deletion cleans up and takes off the
/// finalizer where it stands, and the resource without it is neither
/// cleaned up nor applied again.
pub proof fn law_cleanup_runs_once(metadata: ObjectMetaView, finalizer: Seq<char>, index: int)
    requires
        metadata.name is Some,
        metadata.deletion_requested,
        0 <= index < metadata.finalizers.len(),
        metadata.finalizers[index] == finalizer,
        forall|j: int|
            0 <= j < metadata.finalizers.len() && j != index ==> metadata.finalizers[j]
                != finalizer,
    ensures
        metadata.finalizer_step(finalizer) == Ok::<FinalizerStepView, FinalizerErrorView>(
            FinalizerStepView::Cleanup {
                name: metadata.name->0,
                patch: detach_patch(index, finalizer),
            },
        ),
        metadata.without_finalizer(index).finalizer_step(finalizer) == Ok::<
            FinalizerStepView,
            FinalizerErrorView,
        >(FinalizerStepView::Nothing),
{
    lemma_first_index_of(metadata.finalizers, finalizer);
    lemma_removed_is_gone(metadata.finalizers, finalizer, index);
}

} // verus!
